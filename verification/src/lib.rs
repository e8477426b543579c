//! A verified model of a single-window rendering host: the lazy creation,
//! reuse, invalidation and teardown of device-dependent drawing resources,
//! driven by window lifecycle events.
//!
//! The native windowing and drawing subsystems are opaque collaborators; the
//! library models them as an arena-managed device whose handles are indices,
//! so that the resource-lifecycle state machine itself is fully verified.

pub mod device;
pub mod state;
pub mod lifecycle;
pub mod dispatch;
pub mod host;
pub mod laws;
