//! Application bootstrap, the scripted message pump, and shutdown.
//!
//! Bootstrap orders the one-time setup: fresh container, readiness probe,
//! factory creation, eager first resource set. The pump dispatches a
//! sequence of events until one requests loop exit. Teardown is
//! `release_all`, the exact reverse of the creation order.

use vstd::prelude::*;
use crate::device::{Device, DeviceModel};
use crate::dispatch::{dispatch_spec, DispatchOutcome, Event};
use crate::lifecycle::{create_factory_spec, ensure_resources_spec, release_all_spec};
use crate::state::{FatalError, StateModel, WindowState, INTEGRITY_TAG};

verus! {

/// The fixed initial client-area width of the single window.
pub const INITIAL_WIDTH: u32 = 600;

/// The fixed initial client-area height of the single window.
pub const INITIAL_HEIGHT: u32 = 400;

/// Bootstrap: a fresh container for `window`, the readiness probe (which
/// passes by construction, since the container carries the correct tag),
/// factory creation, then the eagerly created first resource set. When a
/// step fails fatally, everything already created is torn down again
/// before the error is reported, so no handle stays live.
pub open spec fn bootstrap_spec(window: u64, d: DeviceModel) -> (
    DeviceModel,
    Result<StateModel, FatalError>,
) {
    let s0 = StateModel {
        window,
        client_width: INITIAL_WIDTH,
        client_height: INITIAL_HEIGHT,
        factory: None,
        resources: None,
        tag: INTEGRITY_TAG,
    };
    let (s1, d1, _probe) = dispatch_spec(s0, d, Event::Check);
    let (s2, d2, created) = create_factory_spec(s1, d1);
    match created {
        Err(f) => (d2, Err(f)),
        Ok(_) => {
            let (s3, d3, ensured) = ensure_resources_spec(s2, d2);
            match ensured {
                Err(f) => {
                    let (_s4, d4, _released) = release_all_spec(s3, d3);
                    (d4, Err(f))
                },
                Ok(_) => (d3, Ok(s3)),
            }
        },
    }
}

/// Processing a scripted event sequence in order: stops early at a fatal
/// error or at the first outcome that requests loop exit (`Ok(true)`);
/// `Ok(false)` means the script ran out without a quit request.
pub open spec fn pump_spec(s: StateModel, d: DeviceModel, events: Seq<Event>) -> (
    StateModel,
    DeviceModel,
    Result<bool, FatalError>,
)
    decreases events.len(),
{
    if events.len() == 0 {
        (s, d, Ok(false))
    } else {
        let (s1, d1, r) = dispatch_spec(s, d, events[0]);
        match r {
            Err(f) => (s1, d1, Err(f)),
            Ok(DispatchOutcome::QuitRequested) => (s1, d1, Ok(true)),
            Ok(_) => pump_spec(s1, d1, events.drop_first()),
        }
    }
}

/// Performs the one-time setup against the device and hands back the
/// fully initialised container, or the fatal error with every created
/// handle released again.
pub fn bootstrap(window: u64, dev: &mut Device) -> (r: Result<WindowState, FatalError>)
    requires
        old(dev)@.wf(),
        !old(dev)@.in_draw,
    ensures
        !final(dev)@.in_draw,
        final(dev)@ == bootstrap_spec(window, old(dev)@).0,
        (r is Ok <==> bootstrap_spec(window, old(dev)@).1 is Ok),
        (r matches Ok(s) ==> s@ == bootstrap_spec(window, old(dev)@).1->Ok_0
            && s@.wf_with(final(dev)@)),
        (r matches Err(e) ==> e == bootstrap_spec(window, old(dev)@).1->Err_0
            && final(dev)@.wf()),
{
    let mut state = WindowState::new(window, INITIAL_WIDTH, INITIAL_HEIGHT);
    match state.dispatch(dev, Event::Check) {
        Err(f) => {
            return Err(f);
        },
        Ok(_) => {},
    }
    match state.create_factory(dev) {
        Err(f) => {
            return Err(f);
        },
        Ok(_) => {},
    }
    match state.ensure_resources(dev) {
        Err(f) => {
            let _teardown = state.release_all(dev);
            return Err(f);
        },
        Ok(_) => {},
    }
    Ok(state)
}

/// Dispatches the scripted events in order until the script ends, an
/// event requests loop exit, or a fatal error surfaces, exactly as
/// `pump_spec` folds them.
pub fn run_events(state: &mut WindowState, dev: &mut Device, events: &Vec<Event>) -> (r: Result<
    bool,
    FatalError,
>)
    requires
        old(state)@.wf_with(old(dev)@),
        !old(dev)@.in_draw,
    ensures
        final(state)@.wf_with(final(dev)@),
        !final(dev)@.in_draw,
        ({
            let (s, d, res) = pump_spec(old(state)@, old(dev)@, events@);
            final(state)@ == s && final(dev)@ == d && r == res
        }),
{
    let ghost all = events@;
    let mut i: usize = 0;
    proof {
        assert(all.subrange(0, all.len() as int) =~= all);
    }
    while i < events.len()
        invariant
            0 <= i <= all.len(),
            all == events@,
            state@.wf_with(dev@),
            !dev@.in_draw,
            pump_spec(old(state)@, old(dev)@, all) == pump_spec(
                state@,
                dev@,
                all.subrange(i as int, all.len() as int),
            ),
        decreases all.len() - i,
    {
        let ghost rest = all.subrange(i as int, all.len() as int);
        proof {
            assert(rest[0] == all[i as int]);
            assert(rest.drop_first() =~= all.subrange(i as int + 1, all.len() as int));
        }
        let event = events[i];
        match state.dispatch(dev, event) {
            Err(f) => {
                return Err(f);
            },
            Ok(DispatchOutcome::QuitRequested) => {
                return Ok(true);
            },
            Ok(_) => {},
        }
        i = i + 1;
    }
    proof {
        assert(all.subrange(i as int, all.len() as int) =~= Seq::<Event>::empty());
    }
    Ok(false)
}

} // verus!
