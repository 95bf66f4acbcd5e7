//! What the coordinator knows about the sensor transport.
//!
//! The real transport (a Bluetooth link, driven asynchronously outside this
//! crate) is a collaborator: the worker only ever sees its outcomes as plain
//! `Result` values. This module holds the error taxonomy of those outcomes
//! and a scripted transport — one whose replies are written out in advance —
//! against which the worker's whole dispatch logic is verified and tested.

use vstd::prelude::*;

use crate::readings::CurrentReading;
use crate::readings::HistoricalSeries;

verus! {

/// Why a transport operation failed. Every one of these is recoverable: the
/// worker downgrades the status or keeps the stale cache, and never stops.
#[derive(Clone, Copy, PartialEq, Eq, Structural, Debug)]
pub enum SensorError {
    /// The operation did not complete in time.
    Timeout,
    /// No sensor was found at the given address (or by discovery).
    DeviceNotFound,
    /// The sensor answered, but not with a usable reading.
    ReadFailed,
}

/// A transport whose replies are laid out in advance, consumed front first,
/// one per call. An exhausted script answers `Timeout`, which models a sensor
/// that stopped responding.
pub struct ScriptedTransport {
    connect_replies: Vec<Result<(), SensorError>>,
    current_replies: Vec<Result<CurrentReading, SensorError>>,
    history_replies: Vec<Result<HistoricalSeries, SensorError>>,
}

/// A script's remainder after one reply was consumed: the front is gone, or
/// nothing changes when the script was already exhausted.
pub open spec fn spec_consumed<T>(replies: Seq<T>) -> Seq<T> {
    if replies.len() == 0 {
        replies
    } else {
        replies.drop_first()
    }
}

impl ScriptedTransport {
    /// The pending connect replies, next first.
    pub closed spec fn spec_connects(&self) -> Seq<Result<(), SensorError>> {
        self.connect_replies@
    }

    /// The pending current-values replies, next first.
    pub closed spec fn spec_currents(&self) -> Seq<Result<CurrentReading, SensorError>> {
        self.current_replies@
    }

    /// The pending history replies, next first.
    pub closed spec fn spec_histories(&self) -> Seq<Result<HistoricalSeries, SensorError>> {
        self.history_replies@
    }

    /// A transport with nothing scripted: every call times out.
    pub fn new() -> (t: ScriptedTransport)
        ensures
            t.spec_connects() == Seq::<Result<(), SensorError>>::empty(),
            t.spec_currents() == Seq::<Result<CurrentReading, SensorError>>::empty(),
            t.spec_histories() == Seq::<Result<HistoricalSeries, SensorError>>::empty(),
    {
        ScriptedTransport {
            connect_replies: Vec::new(),
            current_replies: Vec::new(),
            history_replies: Vec::new(),
        }
    }

    /// Script the next connect reply.
    pub fn push_connect_reply(&mut self, reply: Result<(), SensorError>)
        ensures
            final(self).spec_connects() == old(self).spec_connects().push(reply),
            final(self).spec_currents() == old(self).spec_currents(),
            final(self).spec_histories() == old(self).spec_histories(),
    {
        self.connect_replies.push(reply);
    }

    /// Script the next current-values reply.
    pub fn push_current_reply(&mut self, reply: Result<CurrentReading, SensorError>)
        ensures
            final(self).spec_connects() == old(self).spec_connects(),
            final(self).spec_currents() == old(self).spec_currents().push(reply),
            final(self).spec_histories() == old(self).spec_histories(),
    {
        self.current_replies.push(reply);
    }

    /// Script the next history reply.
    pub fn push_history_reply(&mut self, reply: Result<HistoricalSeries, SensorError>)
        ensures
            final(self).spec_connects() == old(self).spec_connects(),
            final(self).spec_currents() == old(self).spec_currents(),
            final(self).spec_histories() == old(self).spec_histories().push(reply),
    {
        self.history_replies.push(reply);
    }

    /// Perform a connect: consume and return the next scripted reply.
    pub fn next_connect(&mut self) -> (r: Result<(), SensorError>)
        ensures
            old(self).spec_connects().len() == 0 ==> r == Err::<(), SensorError>(
                SensorError::Timeout,
            ),
            old(self).spec_connects().len() > 0 ==> r == old(self).spec_connects()[0],
            final(self).spec_connects() == spec_consumed(old(self).spec_connects()),
            final(self).spec_currents() == old(self).spec_currents(),
            final(self).spec_histories() == old(self).spec_histories(),
    {
        if self.connect_replies.len() == 0 {
            Err(SensorError::Timeout)
        } else {
            let reply = self.connect_replies.remove(0);
            proof {
                assert(old(self).spec_connects().remove(0) =~= old(
                    self,
                ).spec_connects().drop_first());
            }
            reply
        }
    }

    /// Perform a current-values read: consume and return the next scripted
    /// reply.
    pub fn next_current(&mut self) -> (r: Result<CurrentReading, SensorError>)
        ensures
            old(self).spec_currents().len() == 0 ==> r == Err::<CurrentReading, SensorError>(
                SensorError::Timeout,
            ),
            old(self).spec_currents().len() > 0 ==> r == old(self).spec_currents()[0],
            final(self).spec_currents() == spec_consumed(old(self).spec_currents()),
            final(self).spec_connects() == old(self).spec_connects(),
            final(self).spec_histories() == old(self).spec_histories(),
    {
        if self.current_replies.len() == 0 {
            Err(SensorError::Timeout)
        } else {
            let reply = self.current_replies.remove(0);
            proof {
                assert(old(self).spec_currents().remove(0) =~= old(
                    self,
                ).spec_currents().drop_first());
            }
            reply
        }
    }

    /// Perform a history fetch: consume and return the next scripted reply.
    pub fn next_history(&mut self) -> (r: Result<HistoricalSeries, SensorError>)
        ensures
            old(self).spec_histories().len() == 0 ==> r == Err::<HistoricalSeries, SensorError>(
                SensorError::Timeout,
            ),
            old(self).spec_histories().len() > 0 ==> r == old(self).spec_histories()[0],
            final(self).spec_histories() == spec_consumed(old(self).spec_histories()),
            final(self).spec_connects() == old(self).spec_connects(),
            final(self).spec_currents() == old(self).spec_currents(),
    {
        if self.history_replies.len() == 0 {
            Err(SensorError::Timeout)
        } else {
            let reply = self.history_replies.remove(0);
            proof {
                assert(old(self).spec_histories().remove(0) =~= old(
                    self,
                ).spec_histories().drop_first());
            }
            reply
        }
    }
}

} // verus!
