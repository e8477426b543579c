//! The event dispatcher: the state machine that receives window events
//! and drives resource creation, redraw, resize and teardown in response.

use vstd::prelude::*;
use crate::device::{resize_model, Device, DeviceModel, EndDrawCode};
use crate::lifecycle::{ensure_resources_spec, release_resources_spec, render_spec};
use crate::state::{FatalError, StateModel, WindowState, INTEGRITY_TAG};

verus! {

/// A window event as the dispatcher sees it; the hosting loop maps each
/// native message to one of these.
#[derive(Clone, Copy, PartialEq, Eq, Structural, Debug)]
pub enum Event {
    /// The window was just created; the container is bound outside this
    /// event, so nothing is done here.
    Create,
    /// A paint request.
    Paint,
    /// The client area was resized to the given pixel size.
    Resize { width: u16, height: u16 },
    /// A pointer movement; consumed without any action.
    MouseMove,
    /// The custom readiness probe validating the container's integrity.
    Check,
    /// The window is being destroyed; the loop must terminate.
    Destroy,
    /// Any other native event, left to the default handler.
    Other,
}

/// What the hosting loop should do with the event after dispatch.
#[derive(Clone, Copy, PartialEq, Eq, Structural, Debug)]
pub enum DispatchOutcome {
    /// The event was processed here.
    Handled,
    /// The event must be forwarded to the default native handler.
    Forwarded,
    /// The message loop must terminate.
    QuitRequested,
}

/// The dispatcher's transition function: one event takes the container
/// and the device to their next state and yields the outcome.
///
/// A paint lazily ensures resources, draws one frame, and on the
/// device-loss code releases the resources so that the next paint
/// rebuilds them. A resize records the new client size and resizes the
/// render target when one exists, and is a safe no-op when none does.
/// The readiness probe fails fatally on a wrong integrity tag. Destroy
/// requests loop exit; unhandled events are forwarded.
pub open spec fn dispatch_spec(s: StateModel, d: DeviceModel, e: Event) -> (
    StateModel,
    DeviceModel,
    Result<DispatchOutcome, FatalError>,
) {
    match e {
        Event::Create => (s, d, Ok(DispatchOutcome::Handled)),
        Event::MouseMove => (s, d, Ok(DispatchOutcome::Handled)),
        Event::Destroy => (s, d, Ok(DispatchOutcome::QuitRequested)),
        Event::Other => (s, d, Ok(DispatchOutcome::Forwarded)),
        Event::Check => if s.tag == INTEGRITY_TAG {
            (s, d, Ok(DispatchOutcome::Handled))
        } else {
            (s, d, Err(FatalError::IntegrityMismatch))
        },
        Event::Resize { width, height } => {
            let s1 = StateModel { client_width: width as u32, client_height: height as u32, ..s };
            match s.resources {
                None => (s1, d, Ok(DispatchOutcome::Handled)),
                Some(rs) => (
                    s1,
                    resize_model(d, rs.render_target, width as u32, height as u32),
                    Ok(DispatchOutcome::Handled),
                ),
            }
        },
        Event::Paint => {
            let (s1, d1, r) = ensure_resources_spec(s, d);
            match r {
                Err(f) => (s1, d1, Err(f)),
                Ok(_) => {
                    let (d2, code) = render_spec(d1);
                    if code is RecreateTarget {
                        let (s2, d3) = release_resources_spec(s1, d2);
                        (s2, d3, Ok(DispatchOutcome::Handled))
                    } else {
                        (s1, d2, Ok(DispatchOutcome::Handled))
                    }
                },
            }
        },
    }
}

impl WindowState {
    /// Dispatches one window event against this container and the device,
    /// following `dispatch_spec` exactly.
    pub fn dispatch(&mut self, dev: &mut Device, event: Event) -> (r: Result<
        DispatchOutcome,
        FatalError,
    >)
        requires
            old(self)@.wf_with(old(dev)@),
            !old(dev)@.in_draw,
        ensures
            final(self)@.wf_with(final(dev)@),
            !final(dev)@.in_draw,
            ({
                let (s, d, res) = dispatch_spec(old(self)@, old(dev)@, event);
                final(self)@ == s && final(dev)@ == d && r == res
            }),
    {
        match event {
            Event::Create => Ok(DispatchOutcome::Handled),
            Event::MouseMove => Ok(DispatchOutcome::Handled),
            Event::Destroy => Ok(DispatchOutcome::QuitRequested),
            Event::Other => Ok(DispatchOutcome::Forwarded),
            Event::Check => {
                if self.tag() == INTEGRITY_TAG {
                    Ok(DispatchOutcome::Handled)
                } else {
                    Err(FatalError::IntegrityMismatch)
                }
            },
            Event::Resize { width, height } => {
                let rs_opt = self.resources();
                self.set_client_size(width as u32, height as u32);
                if let Some(rs) = rs_opt {
                    dev.resize(rs.render_target, width as u32, height as u32);
                    proof {
                        assert forall|i: int|
                            0 <= i < dev@.slots.len() && crate::device::brush_targeting(
                                dev@.slots,
                                i,
                                rs.render_target,
                            ) implies (i == rs.brush_primary || i == rs.brush_secondary) by {
                            assert(crate::device::brush_targeting(
                                old(dev)@.slots,
                                i,
                                rs.render_target,
                            ));
                        }
                    }
                }
                Ok(DispatchOutcome::Handled)
            },
            Event::Paint => {
                match self.ensure_resources(dev) {
                    Err(f) => Err(f),
                    Ok(()) => {
                        let code = self.render_window(dev);
                        let recreate = match code {
                            EndDrawCode::RecreateTarget => true,
                            _ => false,
                        };
                        if recreate {
                            self.release_resources(dev);
                        }
                        Ok(DispatchOutcome::Handled)
                    },
                }
            },
        }
    }
}

} // verus!
