//! The run loop. One iteration goes through these phases, in this order:
//! flush the queued requests; dispatch what is already buffered; wait for
//! messages as the control flow allows; report the new events; deliver the
//! events of background tasks; apply the compositor's pending updates (scale
//! before size) and its close requests; drain the sink, surface by surface;
//! let the application update; request the redraws; report that redraws are
//! done. The waiting and the calling back happen outside this crate; what
//! each phase decides is here.
pub mod control_flow;
pub mod reconcile;
pub mod state;

use vstd::prelude::*;

verus! {

/// Optional behaviour of the event loop; none is defined yet.
#[derive(Debug, Default, Clone, Copy)]
pub struct Features {}

} // verus!
