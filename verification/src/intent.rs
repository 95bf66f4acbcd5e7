//! The commands that flow from the producers (UI loop, refresh scheduler) to
//! the worker, and the transport calls the worker asks for in return.

use vstd::prelude::*;

verus! {

/// A discrete command for the worker. Created by a producer, consumed exactly
/// once by the worker, then discarded.
#[derive(Clone, Copy, PartialEq, Eq, Structural, Debug)]
pub enum Intent {
    /// Establish the sensor link (and refresh once it is up).
    Connect,
    /// Re-read the current values into the cache.
    RefreshCurrent,
    /// Re-fetch the historical series into the cache; best-effort.
    RefreshHistory,
}

/// The transport call the worker wants performed next. The worker never does
/// I/O itself: it hands one of these to its driver and is later given the
/// outcome.
#[derive(Clone, Copy, PartialEq, Eq, Structural, Debug)]
pub enum Action {
    /// Call the transport's connect operation.
    EstablishLink,
    /// Call the transport for the current values.
    ReadCurrent,
    /// Call the transport for the historical series.
    ReadHistory,
    /// Nothing to do for this intent in this state.
    Noop,
}

} // verus!
