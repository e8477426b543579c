//! The window state container: the unit of lifecycle truth.
//!
//! It owns the window handle, the factory handle and the optional
//! device-dependent resource set, together with the integrity tag used to
//! validate that the container retrieved for an event is the right one.

use vstd::prelude::*;
use crate::device::{accent_red, brush_targeting, light_gray, DeviceModel, HandleKind};

verus! {

/// The sentinel value that a correctly bound state container carries.
pub const INTEGRITY_TAG: u64 = 322;

/// The device-dependent resource set: a render target and its two solid
/// brushes. The three handles exist together or not at all; a partial set
/// is never installed.
#[derive(Clone, Copy, PartialEq, Eq, Structural, Debug)]
pub struct DeviceResourceSet {
    pub render_target: usize,
    pub brush_primary: usize,
    pub brush_secondary: usize,
}

/// Two error classes exist: every variant but the device-loss signal is
/// fatal in this design, and the hosting layer turns it into termination.
#[derive(Clone, Copy, PartialEq, Eq, Structural, Debug)]
pub enum FatalError {
    /// The drawing factory could not be created.
    FactoryCreationFailed,
    /// The render target could not be created.
    RenderTargetCreationFailed,
    /// One of the solid brushes could not be created.
    BrushCreationFailed,
    /// Resources were requested while no factory exists: a usage error.
    FactoryMissing,
    /// The readiness probe found a container with a wrong integrity tag.
    IntegrityMismatch,
    /// The factory was torn down twice: a usage error.
    FactoryAlreadyReleased,
}

/// Mathematical state of the window state container.
#[verifier::ext_equal]
pub ghost struct StateModel {
    /// The native window handle, set once at creation.
    pub window: u64,
    /// Current client-area width in pixels.
    pub client_width: u32,
    /// Current client-area height in pixels.
    pub client_height: u32,
    /// The device-independent factory handle, if created and not torn down.
    pub factory: Option<usize>,
    /// The device-dependent resource set, if currently allocated.
    pub resources: Option<DeviceResourceSet>,
    /// The integrity tag carried by this container.
    pub tag: u64,
}

impl StateModel {
    /// The container agrees with the device: every handle it holds is live
    /// and of the right kind, resources exist only while the factory does,
    /// the render target is bound to this window at the current client
    /// size, the brushes carry the two fixed colours and are the only
    /// brushes subordinate to this render target.
    pub open spec fn wf_with(self, d: DeviceModel) -> bool {
        &&& d.wf()
        &&& match self.factory {
            Some(f) => d.live(f as int) && d.slots[f as int] == Some(HandleKind::Factory),
            None => true,
        }
        &&& match self.resources {
            Some(rs) => {
                &&& self.factory is Some
                &&& d.live(rs.render_target as int)
                &&& d.slots[rs.render_target as int] == Some(
                    HandleKind::RenderTarget {
                        window: self.window,
                        width: self.client_width,
                        height: self.client_height,
                    },
                )
                &&& d.live(rs.brush_primary as int)
                &&& d.slots[rs.brush_primary as int] == Some(
                    HandleKind::Brush { target: rs.render_target, color: light_gray() },
                )
                &&& d.live(rs.brush_secondary as int)
                &&& d.slots[rs.brush_secondary as int] == Some(
                    HandleKind::Brush { target: rs.render_target, color: accent_red() },
                )
                &&& forall|i: int|
                    0 <= i < d.slots.len() && brush_targeting(d.slots, i, rs.render_target)
                        ==> (i == rs.brush_primary || i == rs.brush_secondary)
            },
            None => true,
        }
    }
}

/// The window state container.
pub struct WindowState {
    window: u64,
    client_width: u32,
    client_height: u32,
    factory: Option<usize>,
    resources: Option<DeviceResourceSet>,
    tag: u64,
}

impl View for WindowState {
    type V = StateModel;

    closed spec fn view(&self) -> StateModel {
        StateModel {
            window: self.window,
            client_width: self.client_width,
            client_height: self.client_height,
            factory: self.factory,
            resources: self.resources,
            tag: self.tag,
        }
    }
}

impl WindowState {
    /// A container for a freshly created window: no factory, no resources,
    /// the correct integrity tag.
    pub fn new(window: u64, client_width: u32, client_height: u32) -> (s: WindowState)
        ensures
            s@ == (StateModel {
                window,
                client_width,
                client_height,
                factory: None,
                resources: None,
                tag: INTEGRITY_TAG,
            }),
    {
        let s = WindowState {
            window,
            client_width,
            client_height,
            factory: None,
            resources: None,
            tag: INTEGRITY_TAG,
        };
        proof {
            assert(s@ =~= (StateModel {
                window,
                client_width,
                client_height,
                factory: None,
                resources: None,
                tag: INTEGRITY_TAG,
            }));
        }
        s
    }

    /// A container with an arbitrary integrity tag, as the readiness probe
    /// may find when the wrong data was bound to the window.
    pub fn with_tag(window: u64, client_width: u32, client_height: u32, tag: u64) -> (s:
        WindowState)
        ensures
            s@ == (StateModel {
                window,
                client_width,
                client_height,
                factory: None,
                resources: None,
                tag,
            }),
    {
        let s = WindowState { window, client_width, client_height, factory: None, resources: None, tag };
        proof {
            assert(s@ =~= (StateModel {
                window,
                client_width,
                client_height,
                factory: None,
                resources: None,
                tag,
            }));
        }
        s
    }

    /// The native window handle.
    pub fn window(&self) -> (w: u64)
        ensures
            w == self@.window,
    {
        self.window
    }

    /// The current client-area width.
    pub fn client_width(&self) -> (w: u32)
        ensures
            w == self@.client_width,
    {
        self.client_width
    }

    /// The current client-area height.
    pub fn client_height(&self) -> (h: u32)
        ensures
            h == self@.client_height,
    {
        self.client_height
    }

    /// The factory handle, if one currently exists.
    pub fn factory(&self) -> (f: Option<usize>)
        ensures
            f == self@.factory,
    {
        self.factory
    }

    /// The resource set, if one is currently installed.
    pub fn resources(&self) -> (r: Option<DeviceResourceSet>)
        ensures
            r == self@.resources,
    {
        self.resources
    }

    /// The integrity tag this container carries.
    pub fn tag(&self) -> (t: u64)
        ensures
            t == self@.tag,
    {
        self.tag
    }

    /// Installs or clears the resource set field.
    pub(crate) fn set_resources(&mut self, r: Option<DeviceResourceSet>)
        ensures
            final(self)@ == (StateModel { resources: r, ..old(self)@ }),
    {
        self.resources = r;
    }

    /// Stores or clears the factory handle field.
    pub(crate) fn set_factory(&mut self, f: Option<usize>)
        ensures
            final(self)@ == (StateModel { factory: f, ..old(self)@ }),
    {
        self.factory = f;
    }

    /// Records the client-area size most recently reported by the window.
    pub(crate) fn set_client_size(&mut self, width: u32, height: u32)
        ensures
            final(self)@ == (StateModel {
                client_width: width,
                client_height: height,
                ..old(self)@
            }),
    {
        self.client_width = width;
        self.client_height = height;
    }
}

} // verus!
