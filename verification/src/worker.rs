//! The worker: the single consumer of the command queue.
//!
//! It owns the shared state, serves one intent at a time, and is the only
//! component that ever touches the transport or writes the status and the
//! caches. Transport failures are always recoverable here: they downgrade
//! the status or leave a cache stale, and never stop the worker.

use vstd::prelude::*;

use crate::app::spec_action_for_intent;
use crate::app::spec_cache_step;
use crate::app::spec_status_after_connect;
use crate::app::spec_status_after_intent;
use crate::app::App;
use crate::intent::Action;
use crate::intent::Intent;
use crate::queue::CommandQueue;
use crate::readings::CurrentReading;
use crate::readings::HistoricalSeries;
use crate::status::status_edge;
use crate::status::ConnectionStatus;
use crate::transport::spec_consumed;
use crate::transport::ScriptedTransport;
use crate::transport::SensorError;

verus! {

/// The connect verdict the transport will give next: the front of its
/// script, or a timeout once the script is exhausted.
pub open spec fn spec_front_connect(t: ScriptedTransport) -> Result<(), SensorError> {
    if t.spec_connects().len() == 0 {
        Err(SensorError::Timeout)
    } else {
        t.spec_connects()[0]
    }
}

/// The current-values reply the transport will give next.
pub open spec fn spec_front_current(t: ScriptedTransport) -> Result<CurrentReading, SensorError> {
    if t.spec_currents().len() == 0 {
        Err(SensorError::Timeout)
    } else {
        t.spec_currents()[0]
    }
}

/// The history reply the transport will give next.
pub open spec fn spec_front_history(t: ScriptedTransport) -> Result<
    HistoricalSeries,
    SensorError,
> {
    if t.spec_histories().len() == 0 {
        Err(SensorError::Timeout)
    } else {
        t.spec_histories()[0]
    }
}

/// The status after one whole dispatch of `intent`: only a connect that is
/// actually attempted moves it, and then the transport's verdict decides
/// between up and failed.
pub open spec fn spec_dispatch_status(
    s: ConnectionStatus,
    intent: Intent,
    connect_ok: bool,
) -> ConnectionStatus {
    if spec_action_for_intent(s, intent) == Action::EstablishLink {
        spec_status_after_connect(ConnectionStatus::Connecting, connect_ok)
    } else {
        s
    }
}

/// Whether one dispatch reads the current values: a refresh on a live link
/// does, and so does a connect that succeeds — the refresh is part of the
/// same transaction, so the dashboard never shows "connected" with no data
/// on the way.
pub open spec fn spec_dispatch_reads_current(
    s: ConnectionStatus,
    intent: Intent,
    t: ScriptedTransport,
) -> bool {
    ||| spec_action_for_intent(s, intent) == Action::ReadCurrent
    ||| (spec_action_for_intent(s, intent) == Action::EstablishLink && spec_front_connect(t) is Ok)
}

/// Whether one dispatch fetches the history.
pub open spec fn spec_dispatch_reads_history(s: ConnectionStatus, intent: Intent) -> bool {
    spec_action_for_intent(s, intent) == Action::ReadHistory
}

/// The current-reading cache after one whole dispatch.
pub open spec fn spec_dispatch_cache(
    s: ConnectionStatus,
    intent: Intent,
    t: ScriptedTransport,
    cache: Option<CurrentReading>,
) -> Option<CurrentReading> {
    if spec_dispatch_reads_current(s, intent, t) {
        spec_cache_step(cache, spec_front_current(t))
    } else {
        cache
    }
}

/// The history cache after one whole dispatch.
pub open spec fn spec_dispatch_history(
    s: ConnectionStatus,
    intent: Intent,
    t: ScriptedTransport,
    history: Option<Seq<CurrentReading>>,
) -> Option<Seq<CurrentReading>> {
    if spec_dispatch_reads_history(s, intent) {
        match spec_front_history(t) {
            Ok(h) => Some(h.spec_samples()),
            Err(_) => history,
        }
    } else {
        history
    }
}

/// The single consumer of the command queue. In the running dashboard it is
/// the only flow of control that performs sensor I/O; here it owns the shared
/// state outright and works through whatever transport it is handed.
pub struct Handler {
    app: App,
}

impl Handler {
    /// The shared state the worker owns.
    pub closed spec fn spec_app(&self) -> App {
        self.app
    }

    pub fn new(app: App) -> (h: Handler)
        ensures
            h.spec_app() == app,
    {
        Handler { app }
    }

    /// Read access to the shared state, for taking snapshots.
    pub fn app(&self) -> (a: &App)
        ensures
            *a == self.spec_app(),
    {
        &self.app
    }

    /// Mutable access to the shared state, for the producers' side of it
    /// (submitting intents marks a load in flight).
    pub fn app_mut(&mut self) -> (a: &mut App)
        ensures
            *a == old(self).spec_app(),
            final(self).spec_app() == *final(a),
    {
        &mut self.app
    }

    /// Serve one intent to completion: decide the transport call, perform it
    /// against the given transport, apply the outcome, and sign off. All
    /// failures are absorbed here — the status is downgraded or a cache kept
    /// stale, and the worker is ready for the next intent.
    pub fn handle_io_event(&mut self, event: Intent, transport: &mut ScriptedTransport, now: u64)
        ensures
            final(self).spec_app().spec_status() == spec_dispatch_status(
                old(self).spec_app().spec_status(),
                event,
                spec_front_connect(*old(transport)) is Ok,
            ),
            final(self).spec_app().spec_cache() == spec_dispatch_cache(
                old(self).spec_app().spec_status(),
                event,
                *old(transport),
                old(self).spec_app().spec_cache(),
            ),
            final(self).spec_app().spec_history() == spec_dispatch_history(
                old(self).spec_app().spec_status(),
                event,
                *old(transport),
                old(self).spec_app().spec_history(),
            ),
            !final(self).spec_app().spec_is_loading(),
            final(self).spec_app().spec_address() == old(self).spec_app().spec_address(),
            spec_dispatch_reads_current(old(self).spec_app().spec_status(), event, *old(transport))
                ==> final(self).spec_app().spec_read_time() == Some(now),
            !spec_dispatch_reads_current(old(self).spec_app().spec_status(), event, *old(transport))
                ==> final(self).spec_app().spec_read_time() == old(
                self,
            ).spec_app().spec_read_time(),
            spec_action_for_intent(old(self).spec_app().spec_status(), event)
                == Action::EstablishLink ==> final(transport).spec_connects() == spec_consumed(
                old(transport).spec_connects(),
            ),
            spec_action_for_intent(old(self).spec_app().spec_status(), event)
                != Action::EstablishLink ==> final(transport).spec_connects() == old(
                transport,
            ).spec_connects(),
            spec_dispatch_reads_current(old(self).spec_app().spec_status(), event, *old(transport))
                ==> final(transport).spec_currents() == spec_consumed(
                old(transport).spec_currents(),
            ),
            !spec_dispatch_reads_current(old(self).spec_app().spec_status(), event, *old(transport))
                ==> final(transport).spec_currents() == old(transport).spec_currents(),
            spec_dispatch_reads_history(old(self).spec_app().spec_status(), event) ==> final(transport).spec_histories() == spec_consumed(old(transport).spec_histories()),
            !spec_dispatch_reads_history(old(self).spec_app().spec_status(), event) ==> final(transport).spec_histories() == old(transport).spec_histories(),
    {
        let action = self.app.on_intent(event);
        match action {
            Action::EstablishLink => {
                let verdict = transport.next_connect();
                let follow = self.app.on_connect_result(verdict);
                match follow {
                    Action::ReadCurrent => {
                        let reading = transport.next_current();
                        let _ = self.app.update_cache(now, reading);
                    },
                    _ => {},
                }
            },
            Action::ReadCurrent => {
                let reading = transport.next_current();
                let _ = self.app.update_cache(now, reading);
            },
            Action::ReadHistory => {
                let outcome = transport.next_history();
                self.app.update_history(outcome);
            },
            Action::Noop => {},
        }
        self.app.loaded();
    }

    /// The scheduler-driven refresh: read the current values if the link is
    /// up, and keep serving the stale cache if the read fails. Leaves the
    /// in-flight mark alone — nothing was dispatched through the queue.
    pub fn update(&mut self, transport: &mut ScriptedTransport, now: u64)
        ensures
            final(self).spec_app().spec_status() == old(self).spec_app().spec_status(),
            final(self).spec_app().spec_cache() == spec_dispatch_cache(
                old(self).spec_app().spec_status(),
                Intent::RefreshCurrent,
                *old(transport),
                old(self).spec_app().spec_cache(),
            ),
            final(self).spec_app().spec_history() == old(self).spec_app().spec_history(),
            final(self).spec_app().spec_is_loading() == old(self).spec_app().spec_is_loading(),
            final(self).spec_app().spec_address() == old(self).spec_app().spec_address(),
            old(self).spec_app().spec_status() == ConnectionStatus::Connected ==> final(self).spec_app().spec_read_time() == Some(now) && final(transport).spec_currents()
                == spec_consumed(old(transport).spec_currents()),
            old(self).spec_app().spec_status() != ConnectionStatus::Connected ==> final(self).spec_app().spec_read_time() == old(self).spec_app().spec_read_time() && final(transport).spec_currents() == old(transport).spec_currents(),
            final(transport).spec_connects() == old(transport).spec_connects(),
            final(transport).spec_histories() == old(transport).spec_histories(),
    {
        let action = self.app.on_intent(Intent::RefreshCurrent);
        match action {
            Action::ReadCurrent => {
                let reading = transport.next_current();
                let _ = self.app.update_cache(now, reading);
            },
            _ => {},
        }
    }

    /// Drain the queue: the worker serves the pending intents one at a time,
    /// strictly in submission order. The returned vector is the processing
    /// order — exactly the queue's content at entry, oldest first.
    pub fn run(&mut self, queue: &mut CommandQueue, transport: &mut ScriptedTransport, now: u64)
        -> (processed: Vec<Intent>)
        ensures
            processed@ == old(queue).spec_items(),
            final(queue).spec_items().len() == 0,
            final(queue).spec_capacity() == old(queue).spec_capacity(),
            final(queue).spec_closed() == old(queue).spec_closed(),
    {
        let mut processed: Vec<Intent> = Vec::new();
        while queue.len() > 0
            invariant
                processed@ + queue.spec_items() == old(queue).spec_items(),
                queue.spec_capacity() == old(queue).spec_capacity(),
                queue.spec_closed() == old(queue).spec_closed(),
            decreases queue.spec_items().len(),
        {
            let next = queue.pop();
            match next {
                Some(intent) => {
                    self.handle_io_event(intent, transport, now);
                    processed.push(intent);
                    proof {
                        assert(processed@ + queue.spec_items() =~= old(queue).spec_items());
                    }
                },
                None => {},
            }
        }
        proof {
            assert(processed@ =~= old(queue).spec_items());
        }
        processed
    }
}

/// Accepting an intent either keeps the status or follows a documented edge.
pub proof fn lemma_intent_follows_edges(s: ConnectionStatus, intent: Intent)
    ensures
        spec_status_after_intent(s, intent) == s || status_edge(
            s,
            spec_status_after_intent(s, intent),
        ),
{
}

/// Resolving a connect attempt either keeps the status or follows a
/// documented edge.
pub proof fn lemma_connect_follows_edges(s: ConnectionStatus, ok: bool)
    ensures
        spec_status_after_connect(s, ok) == s || status_edge(s, spec_status_after_connect(s, ok)),
{
}

/// One whole dispatch keeps the status, follows one documented edge, or
/// chains two of them through `Connecting` — never anything else.
pub proof fn lemma_dispatch_follows_edges(s: ConnectionStatus, intent: Intent, ok: bool)
    ensures
        spec_dispatch_status(s, intent, ok) == s || status_edge(s, spec_dispatch_status(s, intent, ok))
            || (status_edge(s, ConnectionStatus::Connecting) && status_edge(
            ConnectionStatus::Connecting,
            spec_dispatch_status(s, intent, ok),
        )),
{
}

/// `ConnectionFailed -> Connecting` is the only way back: a state that is
/// not already connected reaches `Connected` only by resolving an attempt
/// that was under way, successfully.
pub proof fn lemma_reconnect_goes_through_connecting(s: ConnectionStatus, intent: Intent, ok: bool)
    ensures
        spec_status_after_intent(s, intent) == ConnectionStatus::Connected ==> s
            == ConnectionStatus::Connected,
        spec_status_after_connect(s, ok) == ConnectionStatus::Connected && s
            != ConnectionStatus::Connected ==> s == ConnectionStatus::Connecting && ok,
{
}

/// A failing read leaves the previously cached reading exactly as it was.
pub proof fn lemma_failed_refresh_keeps_cache(cache: Option<CurrentReading>, e: SensorError)
    ensures
        spec_cache_step(cache, Err::<CurrentReading, SensorError>(e)) == cache,
{
}

/// The cache after a whole trace of refresh outcomes, applied oldest first.
pub open spec fn spec_cache_after_trace(
    cache: Option<CurrentReading>,
    outcomes: Seq<Result<CurrentReading, SensorError>>,
) -> Option<CurrentReading>
    decreases outcomes.len(),
{
    if outcomes.len() == 0 {
        cache
    } else {
        spec_cache_after_trace(spec_cache_step(cache, outcomes[0]), outcomes.drop_first())
    }
}

/// The reading delivered by the last successful outcome of a trace, if any
/// outcome succeeded at all.
pub open spec fn spec_last_success(
    outcomes: Seq<Result<CurrentReading, SensorError>>,
) -> Option<CurrentReading>
    decreases outcomes.len(),
{
    if outcomes.len() == 0 {
        None
    } else {
        match outcomes.last() {
            Ok(v) => Some(v),
            Err(_) => spec_last_success(outcomes.drop_last()),
        }
    }
}

proof fn lemma_trace_push(
    cache: Option<CurrentReading>,
    outcomes: Seq<Result<CurrentReading, SensorError>>,
    outcome: Result<CurrentReading, SensorError>,
)
    ensures
        spec_cache_after_trace(cache, outcomes.push(outcome)) == spec_cache_step(
            spec_cache_after_trace(cache, outcomes),
            outcome,
        ),
    decreases outcomes.len(),
{
    let pushed = outcomes.push(outcome);
    if outcomes.len() == 0 {
        assert(pushed[0] == outcome);
        assert(pushed.drop_first() =~= Seq::<Result<CurrentReading, SensorError>>::empty());
        assert(spec_cache_after_trace(cache, pushed) == spec_cache_after_trace(
            spec_cache_step(cache, outcome),
            pushed.drop_first(),
        ));
        assert(spec_cache_after_trace(spec_cache_step(cache, outcome), pushed.drop_first())
            == spec_cache_step(cache, outcome));
    } else {
        assert(pushed[0] == outcomes[0]);
        assert(pushed.drop_first() =~= outcomes.drop_first().push(outcome));
        assert(spec_cache_after_trace(cache, pushed) == spec_cache_after_trace(
            spec_cache_step(cache, outcomes[0]),
            outcomes.drop_first().push(outcome),
        ));
        lemma_trace_push(spec_cache_step(cache, outcomes[0]), outcomes.drop_first(), outcome);
    }
}

/// After any trace of refresh outcomes the cache holds exactly the reading
/// of the last successful one — or what it held to begin with, if none
/// succeeded. The snapshot is therefore never newer than the last
/// successful refresh.
pub proof fn lemma_snapshot_never_newer(
    cache: Option<CurrentReading>,
    outcomes: Seq<Result<CurrentReading, SensorError>>,
)
    ensures
        spec_cache_after_trace(cache, outcomes) == match spec_last_success(outcomes) {
            Some(v) => Some(v),
            None => cache,
        },
    decreases outcomes.len(),
{
    if outcomes.len() > 0 {
        let init = outcomes.drop_last();
        let last = outcomes.last();
        assert(outcomes =~= init.push(last));
        lemma_trace_push(cache, init, last);
        lemma_snapshot_never_newer(cache, init);
    }
}

} // verus!
