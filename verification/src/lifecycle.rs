//! The resource lifecycle: lazy creation, atomic installation, teardown in
//! reverse order of creation, and the frame-draw sequence.
//!
//! Every operation is specified by a functional model over `StateModel`
//! and `DeviceModel`; the executable methods are proved to follow it
//! exactly, for every scripted device outcome.

use vstd::prelude::*;
use crate::device::{
    accent_red, accent_red_color, begin_draw_model, brush_slot_ok, brush_targeting, clear_model,
    clear_white, clear_white_color, create_brush_model, create_factory_model,
    create_render_target_model, end_draw_model, light_gray, light_gray_color, release_model,
    Device, DeviceModel, EndDrawCode, HandleKind,
};
use crate::state::{DeviceResourceSet, FatalError, StateModel, WindowState};

verus! {

/// Factory creation: on success the fresh handle is stored in the
/// container; on failure nothing changes but the consumed outcome.
pub open spec fn create_factory_spec(s: StateModel, d: DeviceModel) -> (
    StateModel,
    DeviceModel,
    Result<(), FatalError>,
) {
    let (d1, id) = create_factory_model(d);
    match id {
        Some(f) => (StateModel { factory: Some(f), ..s }, d1, Ok(())),
        None => (s, d1, Err(FatalError::FactoryCreationFailed)),
    }
}

/// Lazy resource creation. Idempotent when a set is already installed;
/// a usage error without a factory; otherwise allocates the render target
/// sized to the client area, then the two fixed-colour brushes, and
/// installs the whole set only when all three succeeded. On a partial
/// failure the handles already allocated are released again before the
/// fatal error is reported, so no resource stays live or visible.
pub open spec fn ensure_resources_spec(s: StateModel, d: DeviceModel) -> (
    StateModel,
    DeviceModel,
    Result<(), FatalError>,
) {
    if s.resources is Some {
        (s, d, Ok(()))
    } else if s.factory is None {
        (s, d, Err(FatalError::FactoryMissing))
    } else {
        let (d1, rt_id) = create_render_target_model(d, s.window, s.client_width, s.client_height);
        match rt_id {
            None => (s, d1, Err(FatalError::RenderTargetCreationFailed)),
            Some(rt) => {
                let (d2, b1_id) = create_brush_model(d1, rt, light_gray());
                match b1_id {
                    None => (s, release_model(d2, rt), Err(FatalError::BrushCreationFailed)),
                    Some(b1) => {
                        let (d3, b2_id) = create_brush_model(d2, rt, accent_red());
                        match b2_id {
                            None => (
                                s,
                                release_model(release_model(d3, b1), rt),
                                Err(FatalError::BrushCreationFailed),
                            ),
                            Some(b2) => (
                                StateModel {
                                    resources: Some(
                                        DeviceResourceSet {
                                            render_target: rt,
                                            brush_primary: b1,
                                            brush_secondary: b2,
                                        },
                                    ),
                                    ..s
                                },
                                d3,
                                Ok(()),
                            ),
                        }
                    },
                }
            },
        }
    }
}

/// Resource teardown: a no-op without a set, otherwise the brushes are
/// released first and the render target last, and the field is cleared.
pub open spec fn release_resources_spec(s: StateModel, d: DeviceModel) -> (
    StateModel,
    DeviceModel,
) {
    match s.resources {
        None => (s, d),
        Some(rs) => (
            StateModel { resources: None, ..s },
            release_model(
                release_model(release_model(d, rs.brush_primary), rs.brush_secondary),
                rs.render_target,
            ),
        ),
    }
}

/// Full teardown: resources first, then the factory; tearing the factory
/// down twice is a detectable usage error, not a silent success.
pub open spec fn release_all_spec(s: StateModel, d: DeviceModel) -> (
    StateModel,
    DeviceModel,
    Result<(), FatalError>,
) {
    let (s1, d1) = release_resources_spec(s, d);
    match s1.factory {
        None => (s1, d1, Err(FatalError::FactoryAlreadyReleased)),
        Some(f) => (StateModel { factory: None, ..s1 }, release_model(d1, f), Ok(())),
    }
}

/// One frame: open it, clear to white, close it and report the device's
/// code.
pub open spec fn render_spec(d: DeviceModel) -> (DeviceModel, EndDrawCode) {
    end_draw_model(clear_model(begin_draw_model(d), clear_white()))
}

impl WindowState {
    /// Creates the drawing factory and stores its handle; fails fatally
    /// when the device reports a creation failure.
    pub fn create_factory(&mut self, dev: &mut Device) -> (r: Result<(), FatalError>)
        requires
            old(self)@.wf_with(old(dev)@),
            old(self)@.factory is None,
        ensures
            final(self)@.wf_with(final(dev)@),
            ({
                let (s, d, res) = create_factory_spec(old(self)@, old(dev)@);
                final(self)@ == s && final(dev)@ == d && r == res
            }),
    {
        match dev.create_factory() {
            None => Err(FatalError::FactoryCreationFailed),
            Some(f) => {
                self.set_factory(Some(f));
                Ok(())
            },
        }
    }

    /// Ensures the device-dependent resource set exists: immediately
    /// returns when it already does, reports a usage error without a
    /// factory, and otherwise allocates the render target and the two
    /// brushes, installing the set only as a whole. On a partial failure
    /// everything already allocated is released before the error returns.
    pub fn ensure_resources(&mut self, dev: &mut Device) -> (r: Result<(), FatalError>)
        requires
            old(self)@.wf_with(old(dev)@),
        ensures
            final(self)@.wf_with(final(dev)@),
            ({
                let (s, d, res) = ensure_resources_spec(old(self)@, old(dev)@);
                final(self)@ == s && final(dev)@ == d && r == res
            }),
    {
        if self.resources().is_some() {
            return Ok(());
        }
        if self.factory().is_none() {
            return Err(FatalError::FactoryMissing);
        }
        let ghost d0 = dev@;
        let rt_opt = dev.create_render_target(self.window(), self.client_width(), self.client_height());
        let rt = match rt_opt {
            None => {
                return Err(FatalError::RenderTargetCreationFailed);
            },
            Some(rt) => rt,
        };
        let b1_opt = dev.create_brush(rt, light_gray_color());
        let b1 = match b1_opt {
            None => {
                proof {
                    lemma_fresh_render_target_untargeted(d0.slots, dev@.slots, rt);
                }
                dev.release(rt);
                return Err(FatalError::BrushCreationFailed);
            },
            Some(b1) => b1,
        };
        let b2_opt = dev.create_brush(rt, accent_red_color());
        let b2 = match b2_opt {
            None => {
                dev.release(b1);
                proof {
                    lemma_fresh_render_target_untargeted(d0.slots, dev@.slots, rt);
                }
                dev.release(rt);
                return Err(FatalError::BrushCreationFailed);
            },
            Some(b2) => b2,
        };
        self.set_resources(
            Some(DeviceResourceSet { render_target: rt, brush_primary: b1, brush_secondary: b2 }),
        );
        proof {
            assert forall|i: int|
                0 <= i < dev@.slots.len() && brush_targeting(dev@.slots, i, rt) implies (i
                == b1 || i == b2) by {
                if i < d0.slots.len() {
                    assert(brush_slot_ok(d0.slots, i));
                }
            }
        }
        Ok(())
    }

    /// Releases the resource set: brushes first, the render target last,
    /// then clears the field. A no-op, and safe, when no set exists.
    pub fn release_resources(&mut self, dev: &mut Device)
        requires
            old(self)@.wf_with(old(dev)@),
        ensures
            final(self)@.wf_with(final(dev)@),
            ({
                let (s, d) = release_resources_spec(old(self)@, old(dev)@);
                final(self)@ == s && final(dev)@ == d
            }),
    {
        let rs = match self.resources() {
            None => {
                return;
            },
            Some(rs) => rs,
        };
        let ghost d0 = dev@;
        proof {
            assert(d0.slots[rs.brush_primary as int] != d0.slots[rs.brush_secondary as int]);
        }
        dev.release(rs.brush_primary);
        dev.release(rs.brush_secondary);
        proof {
            assert forall|i: int|
                0 <= i < dev@.slots.len() && brush_targeting(dev@.slots, i, rs.render_target)
                implies false by {
                assert(brush_targeting(d0.slots, i, rs.render_target));
            }
        }
        dev.release(rs.render_target);
        self.set_resources(None);
    }

    /// Full teardown: the resource set, then the factory. A second full
    /// teardown reports a usage error, since the factory must be torn
    /// down exactly once.
    pub fn release_all(&mut self, dev: &mut Device) -> (r: Result<(), FatalError>)
        requires
            old(self)@.wf_with(old(dev)@),
        ensures
            final(self)@.wf_with(final(dev)@),
            ({
                let (s, d, res) = release_all_spec(old(self)@, old(dev)@);
                final(self)@ == s && final(dev)@ == d && r == res
            }),
    {
        self.release_resources(dev);
        let f = match self.factory() {
            None => {
                return Err(FatalError::FactoryAlreadyReleased);
            },
            Some(f) => f,
        };
        dev.release(f);
        self.set_factory(None);
        Ok(())
    }

    /// Draws one frame against the installed render target: open, clear
    /// to white, close; the device's frame-end code is handed back to the
    /// caller untouched.
    pub fn render_window(&self, dev: &mut Device) -> (code: EndDrawCode)
        requires
            self@.wf_with(old(dev)@),
            self@.resources is Some,
            !old(dev)@.in_draw,
        ensures
            self@.wf_with(final(dev)@),
            ({
                let (d, c) = render_spec(old(dev)@);
                final(dev)@ == d && code == c
            }),
    {
        let rs = self.resources().unwrap();
        dev.begin_draw(rs.render_target);
        dev.clear(rs.render_target, clear_white_color());
        dev.end_draw(rs.render_target)
    }
}

/// In a well-formed arena that has just grown by slots beyond `base`, no
/// brush from `base` targets a render target allocated at or past `base`'s
/// end; in particular a freshly allocated render target has no brushes yet
/// once later slots are cleared.
proof fn lemma_fresh_render_target_untargeted(
    base: Seq<Option<HandleKind>>,
    cur: Seq<Option<HandleKind>>,
    rt: usize,
)
    requires
        crate::device::slots_wf(base),
        rt >= base.len(),
        cur.len() >= base.len(),
        forall|i: int| 0 <= i < base.len() ==> cur[i] == base[i],
        forall|i: int|
            base.len() <= i < cur.len() ==> !brush_targeting(cur, i, rt),
    ensures
        crate::device::no_brush_targets(cur, rt),
{
    assert forall|i: int| 0 <= i < cur.len() implies !brush_targeting(cur, i, rt) by {
        if i < base.len() {
            assert(brush_slot_ok(base, i));
        }
    }
}

} // verus!
