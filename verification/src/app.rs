//! The shared application state: connection status plus the two caches.
//!
//! Exactly one worker writes this state; the UI loop only reads snapshots and
//! submits intents. The worker's writes are split in two halves: accepting an
//! intent decides which transport call to make (`on_intent`), and the call's
//! outcome is applied afterwards (`on_connect_result`, `update_cache`,
//! `update_history`). The driver that actually performs the calls — over a
//! real sensor or a scripted one — sits between the halves.

use vstd::prelude::*;

use crate::intent::Action;
use crate::intent::Intent;
use crate::queue::CommandQueue;
use crate::queue::SubmitError;
use crate::readings::CurrentReading;
use crate::readings::HistoricalSeries;
use crate::status::ConnectionStatus;
use crate::transport::SensorError;

verus! {

/// How an accepted intent moves the status: a connect intent starts a
/// connection attempt unless one is already up or under way; refreshes move
/// nothing.
pub open spec fn spec_status_after_intent(s: ConnectionStatus, intent: Intent) -> ConnectionStatus {
    if intent == Intent::Connect && (s == ConnectionStatus::Idle || s
        == ConnectionStatus::ConnectionFailed) {
        ConnectionStatus::Connecting
    } else {
        s
    }
}

/// Which transport call an intent demands in a given state. A connect on a
/// live or in-flight link and a refresh on a dead one are no-ops.
pub open spec fn spec_action_for_intent(s: ConnectionStatus, intent: Intent) -> Action {
    match intent {
        Intent::Connect => if s == ConnectionStatus::Idle || s
            == ConnectionStatus::ConnectionFailed {
            Action::EstablishLink
        } else {
            Action::Noop
        },
        Intent::RefreshCurrent => if s == ConnectionStatus::Connected {
            Action::ReadCurrent
        } else {
            Action::Noop
        },
        Intent::RefreshHistory => if s == ConnectionStatus::Connected {
            Action::ReadHistory
        } else {
            Action::Noop
        },
    }
}

/// How a connect verdict moves the status: only an attempt that is actually
/// under way resolves, to `Connected` on success and `ConnectionFailed` on
/// failure.
pub open spec fn spec_status_after_connect(s: ConnectionStatus, ok: bool) -> ConnectionStatus {
    if s == ConnectionStatus::Connecting {
        if ok {
            ConnectionStatus::Connected
        } else {
            ConnectionStatus::ConnectionFailed
        }
    } else {
        s
    }
}

/// How one refresh outcome moves the current-reading cache: a success
/// replaces it wholesale, a failure leaves it exactly as it was.
pub open spec fn spec_cache_step(
    cache: Option<CurrentReading>,
    outcome: Result<CurrentReading, SensorError>,
) -> Option<CurrentReading> {
    match outcome {
        Ok(v) => Some(v),
        Err(_) => cache,
    }
}

/// What the renderer is shown for a given cache: the cached reading, or the
/// all-zero default before the first success — never an absence.
pub open spec fn spec_snapshot(cache: Option<CurrentReading>) -> CurrentReading {
    match cache {
        Some(v) => v,
        None => CurrentReading::spec_empty(),
    }
}

/// The aggregate the UI loop and the worker share. Only the worker mutates
/// the status and the caches.
pub struct App {
    address: Option<String>,
    status: ConnectionStatus,
    read_time: Option<u64>,
    cache: Option<CurrentReading>,
    cached_history: Option<HistoricalSeries>,
    is_loading: bool,
}

impl App {
    /// The sensor address given on the command line, if any.
    pub closed spec fn spec_address(&self) -> Option<String> {
        self.address
    }

    /// The connection status as last written by the worker.
    pub closed spec fn spec_status(&self) -> ConnectionStatus {
        self.status
    }

    /// When the last refresh was attempted, if ever.
    pub closed spec fn spec_read_time(&self) -> Option<u64> {
        self.read_time
    }

    /// The cached current reading, if any refresh succeeded yet.
    pub closed spec fn spec_cache(&self) -> Option<CurrentReading> {
        self.cache
    }

    /// The cached historical samples, if any fetch succeeded yet.
    pub closed spec fn spec_history(&self) -> Option<Seq<CurrentReading>> {
        match self.cached_history {
            Some(h) => Some(h.spec_samples()),
            None => None,
        }
    }

    /// Whether a dispatched intent is still in flight.
    pub closed spec fn spec_is_loading(&self) -> bool {
        self.is_loading
    }

    /// Both caches and the attempt time, untouched between two states.
    pub open spec fn spec_same_caches(pre: App, post: App) -> bool {
        &&& post.spec_cache() == pre.spec_cache()
        &&& post.spec_history() == pre.spec_history()
        &&& post.spec_read_time() == pre.spec_read_time()
    }

    /// A fresh dashboard: idle, nothing cached, nothing in flight.
    pub fn new(address: Option<String>) -> (app: App)
        ensures
            app.spec_address() == address,
            app.spec_status() == ConnectionStatus::Idle,
            app.spec_read_time() is None,
            app.spec_cache() is None,
            app.spec_history() is None,
            !app.spec_is_loading(),
    {
        App {
            address,
            status: ConnectionStatus::Idle,
            read_time: None,
            cache: None,
            cached_history: None,
            is_loading: false,
        }
    }

    /// The current status; a pure read, taken under the shared lock.
    pub fn status(&self) -> (s: ConnectionStatus)
        ensures
            s == self.spec_status(),
    {
        self.status
    }

    /// Whether a dispatched intent is still in flight.
    pub fn is_loading(&self) -> (b: bool)
        ensures
            b == self.spec_is_loading(),
    {
        self.is_loading
    }

    /// The configured sensor address, handed to the transport on connect.
    pub fn address(&self) -> (a: &Option<String>)
        ensures
            *a == self.spec_address(),
    {
        &self.address
    }

    /// UI-loop reconnect policy: keep submitting connect intents until the
    /// link is up; `Connected` is the only state that suppresses them.
    pub fn reconnect_needed(&self) -> (b: bool)
        ensures
            b == (self.spec_status() != ConnectionStatus::Connected),
    {
        !self.status.is_connected()
    }

    /// Fire-and-forget submission of an intent: mark a load in flight and
    /// hand the intent to the queue. A refusal rolls the mark back and is
    /// returned for the caller to log and drop — the render path never
    /// blocks on it.
    pub fn dispatch(&mut self, queue: &mut CommandQueue, intent: Intent) -> (r: Result<
        (),
        SubmitError,
    >)
        ensures
            r is Ok <==> !old(queue).spec_closed() && old(queue).spec_items().len() < old(
                queue,
            ).spec_capacity(),
            r is Ok ==> final(queue).spec_items() == old(queue).spec_items().push(intent),
            r is Err ==> final(queue).spec_items() == old(queue).spec_items(),
            final(self).spec_is_loading() == (r is Ok),
            final(self).spec_status() == old(self).spec_status(),
            final(self).spec_address() == old(self).spec_address(),
            App::spec_same_caches(*old(self), *final(self)),
            final(queue).spec_capacity() == old(queue).spec_capacity(),
            final(queue).spec_closed() == old(queue).spec_closed(),
    {
        self.is_loading = true;
        match queue.submit(intent) {
            Ok(()) => Ok(()),
            Err(e) => {
                self.is_loading = false;
                Err(e)
            },
        }
    }

    /// The worker's sign-off after serving an intent: nothing is in flight
    /// any more.
    pub fn loaded(&mut self)
        ensures
            !final(self).spec_is_loading(),
            final(self).spec_status() == old(self).spec_status(),
            final(self).spec_address() == old(self).spec_address(),
            App::spec_same_caches(*old(self), *final(self)),
    {
        self.is_loading = false;
    }

    /// Worker dispatch, first half: accept one intent, move the status along
    /// its edge, and name the transport call the driver must now perform.
    pub fn on_intent(&mut self, intent: Intent) -> (a: Action)
        ensures
            a == spec_action_for_intent(old(self).spec_status(), intent),
            final(self).spec_status() == spec_status_after_intent(old(self).spec_status(), intent),
            final(self).spec_address() == old(self).spec_address(),
            final(self).spec_is_loading() == old(self).spec_is_loading(),
            App::spec_same_caches(*old(self), *final(self)),
    {
        match intent {
            Intent::Connect => {
                if self.status == ConnectionStatus::Idle || self.status
                    == ConnectionStatus::ConnectionFailed {
                    self.status = ConnectionStatus::Connecting;
                    Action::EstablishLink
                } else {
                    Action::Noop
                }
            },
            Intent::RefreshCurrent => {
                if self.status == ConnectionStatus::Connected {
                    Action::ReadCurrent
                } else {
                    Action::Noop
                }
            },
            Intent::RefreshHistory => {
                if self.status == ConnectionStatus::Connected {
                    Action::ReadHistory
                } else {
                    Action::Noop
                }
            },
        }
    }

    /// Worker dispatch, second half of a connect: record the transport's
    /// verdict. Success brings the link up and asks for an immediate refresh
    /// — the dashboard shows live data as soon as it shows "connected" —
    /// while failure downgrades the status and touches nothing else.
    pub fn on_connect_result(&mut self, outcome: Result<(), SensorError>) -> (a: Action)
        ensures
            final(self).spec_status() == spec_status_after_connect(
                old(self).spec_status(),
                outcome is Ok,
            ),
            a == Action::ReadCurrent <==> old(self).spec_status() == ConnectionStatus::Connecting
                && outcome is Ok,
            a == Action::ReadCurrent || a == Action::Noop,
            final(self).spec_address() == old(self).spec_address(),
            final(self).spec_is_loading() == old(self).spec_is_loading(),
            App::spec_same_caches(*old(self), *final(self)),
    {
        if self.status == ConnectionStatus::Connecting {
            match outcome {
                Ok(()) => {
                    self.status = ConnectionStatus::Connected;
                    Action::ReadCurrent
                },
                Err(_) => {
                    self.status = ConnectionStatus::ConnectionFailed;
                    Action::Noop
                },
            }
        } else {
            Action::Noop
        }
    }

    /// Apply the outcome of a current-values read. A success replaces the
    /// cached reading wholesale; a failure leaves the previous one serving
    /// indefinitely. Either way the attempt time is recorded, and the error,
    /// if any, is handed back for logging — never escalated.
    pub fn update_cache(&mut self, now: u64, reading: Result<CurrentReading, SensorError>) -> (r:
        Result<(), SensorError>)
        ensures
            final(self).spec_cache() == spec_cache_step(old(self).spec_cache(), reading),
            final(self).spec_read_time() == Some(now),
            reading matches Ok(_) ==> r == Ok::<(), SensorError>(()),
            reading matches Err(e) ==> r == Err::<(), SensorError>(e),
            final(self).spec_status() == old(self).spec_status(),
            final(self).spec_address() == old(self).spec_address(),
            final(self).spec_history() == old(self).spec_history(),
            final(self).spec_is_loading() == old(self).spec_is_loading(),
    {
        self.read_time = Some(now);
        match reading {
            Ok(v) => {
                self.cache = Some(v);
                Ok(())
            },
            Err(e) => Err(e),
        }
    }

    /// Apply the outcome of a history fetch. A success replaces the cached
    /// series wholesale; a failure is tolerated silently — history is
    /// best-effort.
    pub fn update_history(&mut self, outcome: Result<HistoricalSeries, SensorError>)
        ensures
            outcome matches Ok(h) ==> final(self).spec_history() == Some(h.spec_samples()),
            outcome is Err ==> final(self).spec_history() == old(self).spec_history(),
            final(self).spec_cache() == old(self).spec_cache(),
            final(self).spec_read_time() == old(self).spec_read_time(),
            final(self).spec_status() == old(self).spec_status(),
            final(self).spec_address() == old(self).spec_address(),
            final(self).spec_is_loading() == old(self).spec_is_loading(),
    {
        match outcome {
            Ok(h) => {
                self.cached_history = Some(h);
            },
            Err(_) => {},
        }
    }

    /// Snapshot for the renderer: the last good reading, or the all-zero
    /// default before the first success. Never fails, never blocks.
    pub fn get_cached_readings(&self) -> (r: CurrentReading)
        ensures
            r == spec_snapshot(self.spec_cache()),
    {
        match &self.cache {
            Some(v) => *v,
            None => CurrentReading::empty(),
        }
    }

    /// Snapshot of the cached history: a copy of the last fetched series, or
    /// nothing if no fetch succeeded yet — callers must keep "none" distinct
    /// from an empty series.
    pub fn get_cached_history(&self) -> (h: Option<HistoricalSeries>)
        ensures
            h is Some <==> self.spec_history() is Some,
            h matches Some(s) ==> Some(s.spec_samples()) == self.spec_history(),
    {
        match &self.cached_history {
            Some(series) => Some(series.snapshot()),
            None => None,
        }
    }
}

/// The sole interactive exit path: the quit keystroke.
pub fn is_quit_key(key: char) -> (b: bool)
    ensures
        b == (key == 'q'),
{
    key == 'q'
}

} // verus!
