//! The lifecycle guarantees, stated and proved over the functional model
//! that every executable operation is proved to follow exactly.

use vstd::prelude::*;
use crate::device::{accent_red, light_gray, DeviceModel, EndDrawCode, HandleKind};
use crate::dispatch::{dispatch_spec, DispatchOutcome, Event};
use crate::host::{bootstrap_spec, INITIAL_HEIGHT, INITIAL_WIDTH};
use crate::lifecycle::{ensure_resources_spec, release_all_spec};
use crate::state::{FatalError, StateModel, INTEGRITY_TAG};

verus! {

/// Idempotence: ensuring resources while a set is already installed
/// performs no allocation and leaves the container, the handles and the
/// whole device unchanged.
pub proof fn lemma_ensure_resources_idempotent(s: StateModel, d: DeviceModel)
    requires
        s.resources is Some,
    ensures
        ensure_resources_spec(s, d) == (s, d, Ok::<(), FatalError>(())),
{
}

/// Atomic allocation: when any allocation of the set fails — the render
/// target, the first brush or the second brush — the error is fatal, no
/// resource set is installed, and every handle allocated on the way has
/// been released again before the error is reported: exactly the handles
/// live before the call are live after it.
pub proof fn lemma_ensure_resources_atomic(s: StateModel, d: DeviceModel)
    requires
        s.wf_with(d),
        d.has_capacity(2),
    ensures
        ({
            let (s1, d1, r) = ensure_resources_spec(s, d);
            r is Err ==> s1 == s && (forall|i: int| #[trigger] d1.live(i) <==> d.live(i))
        }),
{
}

/// Teardown completeness: a full teardown of a container that still owns
/// its factory succeeds, leaves neither resources nor factory in the
/// container, releases every one of their handles, and a second full
/// teardown afterwards reports the usage error instead of silently
/// succeeding.
pub proof fn lemma_release_all_complete(s: StateModel, d: DeviceModel)
    requires
        s.wf_with(d),
        s.factory is Some,
    ensures
        ({
            let (s1, d1, r) = release_all_spec(s, d);
            &&& r == Ok::<(), FatalError>(())
            &&& s1.resources is None
            &&& s1.factory is None
            &&& !d1.live(s.factory->Some_0 as int)
            &&& (s.resources matches Some(rs) ==> !d1.live(rs.render_target as int) && !d1.live(
                rs.brush_primary as int,
            ) && !d1.live(rs.brush_secondary as int))
            &&& release_all_spec(s1, d1).2 == Err::<(), FatalError>(
                FatalError::FactoryAlreadyReleased,
            )
        }),
{
}

/// Device-loss recovery: a paint that receives the device-loss code from
/// the frame end releases the resource set, so it is absent immediately
/// after that paint; the next paint rebuilds it, and none of the fresh
/// handles reuses any handle of the lost set.
pub proof fn lemma_device_loss_recovery(s: StateModel, d: DeviceModel)
    requires
        s.wf_with(d),
        s.resources is Some,
        !d.in_draw,
        d.end_draw_plan.len() == 1,
        d.end_draw_plan[0] == EndDrawCode::RecreateTarget,
        d.render_target_fail_plan.len() == 0,
        d.brush_fail_plan.len() == 0,
        d.has_capacity(3),
    ensures
        ({
            let (s1, d1, r1) = dispatch_spec(s, d, Event::Paint);
            let rs = s.resources->Some_0;
            &&& r1 == Ok::<DispatchOutcome, FatalError>(DispatchOutcome::Handled)
            &&& s1.resources is None
            &&& !d1.live(rs.render_target as int)
            &&& !d1.live(rs.brush_primary as int)
            &&& !d1.live(rs.brush_secondary as int)
            &&& ({
                let (s2, d2, r2) = dispatch_spec(s1, d1, Event::Paint);
                &&& r2 == Ok::<DispatchOutcome, FatalError>(DispatchOutcome::Handled)
                &&& s2.resources is Some
                &&& ({
                    let n = s2.resources->Some_0;
                    &&& n.render_target != rs.render_target
                    &&& n.render_target != rs.brush_primary
                    &&& n.render_target != rs.brush_secondary
                    &&& n.brush_primary != rs.render_target
                    &&& n.brush_primary != rs.brush_primary
                    &&& n.brush_primary != rs.brush_secondary
                    &&& n.brush_secondary != rs.render_target
                    &&& n.brush_secondary != rs.brush_primary
                    &&& n.brush_secondary != rs.brush_secondary
                })
            })
        }),
{
}

/// Bootstrap shape: when the device scripts no allocation failure,
/// bootstrap succeeds and yields a container bound to the window at the
/// fixed initial client size, owning a factory and a full resource set:
/// a render target at that size and the two brushes with the fixed
/// colours, both subordinate to that render target.
pub proof fn lemma_bootstrap_shape(window: u64, d: DeviceModel)
    requires
        d.factory_fail_plan.len() == 0,
        d.render_target_fail_plan.len() == 0,
        d.brush_fail_plan.len() == 0,
        d.has_capacity(3),
    ensures
        ({
            let (d1, r) = bootstrap_spec(window, d);
            &&& r is Ok
            &&& ({
                let s = r->Ok_0;
                &&& s.window == window
                &&& s.client_width == INITIAL_WIDTH
                &&& s.client_height == INITIAL_HEIGHT
                &&& s.tag == INTEGRITY_TAG
                &&& s.factory is Some
                &&& s.resources is Some
                &&& ({
                    let rs = s.resources->Some_0;
                    &&& d1.slots[rs.render_target as int] == Some(
                        HandleKind::RenderTarget {
                            window,
                            width: INITIAL_WIDTH,
                            height: INITIAL_HEIGHT,
                        },
                    )
                    &&& d1.slots[rs.brush_primary as int] == Some(
                        HandleKind::Brush { target: rs.render_target, color: light_gray() },
                    )
                    &&& d1.slots[rs.brush_secondary as int] == Some(
                        HandleKind::Brush { target: rs.render_target, color: accent_red() },
                    )
                })
            })
        }),
{
}

/// Resize no-op safety: a resize dispatched while no resources exist
/// only records the new client size; the device is untouched, nothing is
/// allocated, and the outcome is success.
pub proof fn lemma_resize_without_resources(
    s: StateModel,
    d: DeviceModel,
    width: u16,
    height: u16,
)
    requires
        s.resources is None,
    ensures
        dispatch_spec(s, d, Event::Resize { width, height }) == (
            StateModel { client_width: width as u32, client_height: height as u32, ..s },
            d,
            Ok::<DispatchOutcome, FatalError>(DispatchOutcome::Handled),
        ),
{
}

/// Integrity check: the readiness probe leaves the container and the
/// device unchanged in every case, succeeds silently exactly when the
/// container carries the expected sentinel, and fails fatally on any
/// other tag.
pub proof fn lemma_check_probe(s: StateModel, d: DeviceModel)
    ensures
        dispatch_spec(s, d, Event::Check).0 == s,
        dispatch_spec(s, d, Event::Check).1 == d,
        s.tag == INTEGRITY_TAG ==> dispatch_spec(s, d, Event::Check).2 == Ok::<
            DispatchOutcome,
            FatalError,
        >(DispatchOutcome::Handled),
        s.tag != INTEGRITY_TAG ==> dispatch_spec(s, d, Event::Check).2 == Err::<
            DispatchOutcome,
            FatalError,
        >(FatalError::IntegrityMismatch),
{
}

} // verus!
