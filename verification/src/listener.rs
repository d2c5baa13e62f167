//! The listener's decisions: what to do with each outcome of waiting on the session.
//!
//! The listener itself touches neither the network nor the channels. Its owner waits on
//! the session, hands each outcome to `Listener::receive`, carries out the step that comes
//! back, and reports what identification answered with `Listener::identify_done`.
use crate::clock::epoch_seconds;
use crate::record::{DateMessage, LogRecord};
use crate::session::{Event, Fault, SessionError, SessionEvent};
use vstd::prelude::*;

verus! {

/// The listener's state as mathematical values.
pub struct ListenerState {
    /// Identification was attempted and reported success.
    pub identified: bool,
    /// The session failed; nothing is processed any more.
    pub stopped: bool,
    /// Events are echoed to the console.
    pub debug: bool,
}

/// What the listener's owner has to do after one outcome, as mathematical values.
pub enum Action {
    /// Send `record` on the log channel; then, if `identify` is set, attempt identification
    /// and report its answer; then, if `echo` is set, print the raw event.
    Forward { record: LogRecord, identify: bool, echo: bool },
    /// Send `fault` on the error channel and stop waiting on the session.
    Report { fault: Fault },
    /// Nothing: the listener had stopped before.
    Nothing,
}

/// What the listener's owner has to do after one outcome.
#[derive(Debug, PartialEq, Eq)]
pub enum Step {
    /// Send `record` on the log channel; then, if `identify` is set, attempt identification
    /// and report its answer; then, if `echo` is set, print the raw event.
    Forward { record: DateMessage, identify: bool, echo: bool },
    /// Send `error` on the error channel and stop waiting on the session.
    Report { error: SessionError },
    /// Nothing: the listener had stopped before.
    Nothing,
}

impl View for Step {
    type V = Action;

    open spec fn view(&self) -> Action {
        match self {
            Step::Forward { record, identify, echo } => Action::Forward {
                record: record@,
                identify: *identify,
                echo: *echo,
            },
            Step::Report { error } => Action::Report { fault: error@ },
            Step::Nothing => Action::Nothing,
        }
    }
}

/// The state a listener starts in.
pub open spec fn initial_state(debug: bool) -> ListenerState {
    ListenerState { identified: false, stopped: false, debug }
}

/// The listener's reaction to one outcome that arrived at the time `now`: the state after
/// it and what is to be done.
pub open spec fn listener_step(state: ListenerState, event: Event, now: i64) -> (
    ListenerState,
    Action,
) {
    if state.stopped {
        (state, Action::Nothing)
    } else {
        match event {
            Event::Received(text) => (
                state,
                Action::Forward {
                    record: LogRecord { time: now, line: text },
                    identify: !state.identified,
                    echo: state.debug,
                },
            ),
            Event::Failed(fault) => (ListenerState { stopped: true, ..state }, Action::Report {
                fault,
            }),
        }
    }
}

/// The state after identification was attempted and answered `ok`: success is recorded,
/// a failure leaves the state as it was.
pub open spec fn identify_step(state: ListenerState, ok: bool) -> ListenerState {
    if state.identified {
        state
    } else {
        ListenerState { identified: ok, ..state }
    }
}

/// The decisions of the component that owns the network session.
#[derive(Debug)]
pub struct Listener {
    identified: bool,
    stopped: bool,
    debug: bool,
}

impl View for Listener {
    type V = ListenerState;

    closed spec fn view(&self) -> ListenerState {
        ListenerState { identified: self.identified, stopped: self.stopped, debug: self.debug }
    }
}

impl Listener {
    /// A listener that has seen nothing yet.
    pub fn new(debug: bool) -> (listener: Listener)
        ensures
            listener@ == initial_state(debug),
    {
        Listener { identified: false, stopped: false, debug }
    }

    /// Whether the session has failed.
    pub fn is_stopped(&self) -> (stopped: bool)
        ensures
            stopped == self@.stopped,
    {
        self.stopped
    }

    /// Whether identification has reported success.
    pub fn is_identified(&self) -> (identified: bool)
        ensures
            identified == self@.identified,
    {
        self.identified
    }

    /// Reacts to one outcome of waiting on the session, which arrived at the time `now`.
    pub fn on_event(&mut self, event: SessionEvent, now: i64) -> (step: Step)
        ensures
            (final(self)@, step@) == listener_step(old(self)@, event@, now),
    {
        if self.stopped {
            return Step::Nothing;
        }
        match event {
            SessionEvent::Received(text) => Step::Forward {
                record: DateMessage { time: now, message: text },
                identify: !self.identified,
                echo: self.debug,
            },
            SessionEvent::Failed(error) => {
                self.stopped = true;
                Step::Report { error }
            },
        }
    }

    /// Reacts to one outcome of waiting on the session, stamped with the wall clock's
    /// time at this call.
    pub fn receive(&mut self, event: SessionEvent) -> (step: Step)
        ensures
            exists|now: i64| (final(self)@, step@) == #[trigger] listener_step(old(self)@, event@, now),
    {
        let now = epoch_seconds();
        self.on_event(event, now)
    }

    /// Takes note of what an attempt at identification answered.
    pub fn identify_done(&mut self, ok: bool)
        ensures
            final(self)@ == identify_step(old(self)@, ok),
    {
        if !self.identified {
            self.identified = ok;
        }
    }
}

/// One turn of the listener's loop: the outcome of waiting, the clock's time at that
/// moment, and what identification answers if it is attempted in this turn.
pub struct Arrival {
    pub event: Event,
    pub at: i64,
    pub identify_ok: bool,
}

/// What a listener has done over a number of turns.
pub struct ListenerTrace {
    /// The listener's state after the last turn.
    pub state: ListenerState,
    /// The records sent on the log channel, in the order of sending.
    pub records: Seq<LogRecord>,
    /// The faults sent on the error channel, in the order of sending.
    pub faults: Seq<Fault>,
    /// How often identification was attempted.
    pub attempts: nat,
}

/// The record that a received event is forwarded as; for a failure, an empty line.
pub open spec fn stamped(arrival: Arrival) -> LogRecord {
    LogRecord {
        time: arrival.at,
        line: match arrival.event {
            Event::Received(text) => text,
            Event::Failed(_) => Seq::empty(),
        },
    }
}

/// The trace after one more turn.
pub open spec fn after_arrival(before: ListenerTrace, arrival: Arrival) -> ListenerTrace {
    let (state, action) = listener_step(before.state, arrival.event, arrival.at);
    match action {
        Action::Forward { record, identify, echo } => ListenerTrace {
            state: if identify {
                identify_step(state, arrival.identify_ok)
            } else {
                state
            },
            records: before.records.push(record),
            faults: before.faults,
            attempts: if identify {
                before.attempts + 1
            } else {
                before.attempts
            },
        },
        Action::Report { fault } => ListenerTrace {
            state,
            records: before.records,
            faults: before.faults.push(fault),
            attempts: before.attempts,
        },
        Action::Nothing => ListenerTrace {
            state,
            records: before.records,
            faults: before.faults,
            attempts: before.attempts,
        },
    }
}

/// What a listener that starts in `start` does over the turns `arrivals`.
pub open spec fn listener_run(start: ListenerState, arrivals: Seq<Arrival>) -> ListenerTrace
    decreases arrivals.len(),
{
    if arrivals.len() == 0 {
        ListenerTrace { state: start, records: Seq::empty(), faults: Seq::empty(), attempts: 0 }
    } else {
        after_arrival(listener_run(start, arrivals.drop_last()), arrivals.last())
    }
}

/// Every one of the turns brought an event, none a failure.
pub open spec fn all_received(arrivals: Seq<Arrival>) -> bool {
    forall|i: int| 0 <= i < arrivals.len() ==> (#[trigger] arrivals[i]).event is Received
}

/// Ordering and completeness: as long as the session does not fail, each received event
/// is forwarded as one record, stamped with its time of receipt, in the order of receipt;
/// nothing goes to the error channel and the listener keeps running.
pub proof fn lemma_received_events_are_forwarded(start: ListenerState, arrivals: Seq<Arrival>)
    requires
        !start.stopped,
        all_received(arrivals),
    ensures
        listener_run(start, arrivals).records.len() == arrivals.len(),
        forall|i: int|
            0 <= i < arrivals.len() ==> #[trigger] listener_run(start, arrivals).records[i]
                == stamped(arrivals[i]),
        listener_run(start, arrivals).faults.len() == 0,
        !listener_run(start, arrivals).state.stopped,
        listener_run(start, arrivals).state.debug == start.debug,
    decreases arrivals.len(),
{
    if arrivals.len() > 0 {
        let front = arrivals.drop_last();
        assert forall|i: int| 0 <= i < front.len() implies (#[trigger] front[i]).event
            is Received by {
            assert(front[i] == arrivals[i]);
        }
        lemma_received_events_are_forwarded(start, front);
        assert(arrivals.last() == arrivals[arrivals.len() - 1]);
        assert forall|i: int| 0 <= i < arrivals.len() implies #[trigger] listener_run(
            start,
            arrivals,
        ).records[i] == stamped(arrivals[i]) by {
            if i < front.len() {
                assert(front[i] == arrivals[i]);
                assert(listener_run(start, front).records[i] == stamped(front[i]));
            }
        }
    }
}

/// Without any event no identification is attempted.
pub proof fn lemma_no_event_no_identification(start: ListenerState)
    ensures
        listener_run(start, Seq::empty()).attempts == 0,
{
}

/// The first received event is followed by one attempt at identification.
pub proof fn lemma_first_event_is_followed_by_identification(debug: bool, first: Arrival)
    requires
        first.event is Received,
    ensures
        listener_run(initial_state(debug), seq![first]).attempts == 1,
{
    assert(seq![first].drop_last() =~= Seq::<Arrival>::empty());
    assert(listener_run(initial_state(debug), seq![first].drop_last()).attempts == 0);
}

/// Once identification has reported success it is never attempted again.
pub proof fn lemma_no_attempt_once_identified(start: ListenerState, arrivals: Seq<Arrival>)
    requires
        start.identified,
    ensures
        listener_run(start, arrivals).attempts == 0,
        listener_run(start, arrivals).state.identified,
    decreases arrivals.len(),
{
    if arrivals.len() > 0 {
        lemma_no_attempt_once_identified(start, arrivals.drop_last());
    }
}

/// Exactly one attempt at identification is made where the attempt that follows the
/// first received event reports success, however many turns come after it.
pub proof fn lemma_identified_with_one_attempt(debug: bool, arrivals: Seq<Arrival>)
    requires
        arrivals.len() > 0,
        arrivals[0].event is Received,
        arrivals[0].identify_ok,
    ensures
        listener_run(initial_state(debug), arrivals).attempts == 1,
        listener_run(initial_state(debug), arrivals).state.identified,
    decreases arrivals.len(),
{
    let front = arrivals.drop_last();
    if arrivals.len() == 1 {
        assert(arrivals.last() == arrivals[0]);
        assert(listener_run(initial_state(debug), front).attempts == 0);
    } else {
        assert(front[0] == arrivals[0]);
        lemma_identified_with_one_attempt(debug, front);
    }
}

/// As long as no attempt at identification reports success, one is made after every
/// received event.
pub proof fn lemma_identification_is_retried(debug: bool, arrivals: Seq<Arrival>)
    requires
        all_received(arrivals),
        forall|i: int| 0 <= i < arrivals.len() ==> !(#[trigger] arrivals[i]).identify_ok,
    ensures
        listener_run(initial_state(debug), arrivals).attempts == arrivals.len(),
        !listener_run(initial_state(debug), arrivals).state.identified,
        !listener_run(initial_state(debug), arrivals).state.stopped,
    decreases arrivals.len(),
{
    if arrivals.len() > 0 {
        let front = arrivals.drop_last();
        assert forall|i: int| 0 <= i < front.len() implies (#[trigger] front[i]).event
            is Received && !front[i].identify_ok by {
            assert(front[i] == arrivals[i]);
        }
        lemma_identification_is_retried(debug, front);
        assert(arrivals.last() == arrivals[arrivals.len() - 1]);
    }
}

/// A listener that has stopped does nothing more, whatever arrives.
pub proof fn lemma_stopped_is_final(start: ListenerState, arrivals: Seq<Arrival>, k: int)
    requires
        0 <= k <= arrivals.len(),
        listener_run(start, arrivals.take(k)).state.stopped,
    ensures
        listener_run(start, arrivals) == listener_run(start, arrivals.take(k)),
    decreases arrivals.len(),
{
    if k == arrivals.len() {
        assert(arrivals.take(k) =~= arrivals);
    } else {
        let front = arrivals.drop_last();
        assert(front.take(k) =~= arrivals.take(k));
        lemma_stopped_is_final(start, front, k);
    }
}

/// From the moment the session fails no further record is sent on the log channel: the
/// failure goes to the error channel, the listener stops, and the turns after it change
/// nothing.
pub proof fn lemma_failure_ends_forwarding(start: ListenerState, arrivals: Seq<Arrival>, k: int)
    requires
        0 <= k < arrivals.len(),
        arrivals[k].event is Failed,
        !listener_run(start, arrivals.take(k)).state.stopped,
    ensures
        listener_run(start, arrivals).records == listener_run(start, arrivals.take(k)).records,
        listener_run(start, arrivals).attempts == listener_run(start, arrivals.take(k)).attempts,
        listener_run(start, arrivals).faults == listener_run(start, arrivals.take(k)).faults.push(
            arrivals[k].event->Failed_0,
        ),
        listener_run(start, arrivals).state.stopped,
{
    let upto = arrivals.take(k + 1);
    assert(upto.drop_last() =~= arrivals.take(k));
    assert(upto.last() == arrivals[k]);
    lemma_stopped_is_final(start, arrivals, k + 1);
}

/// The error channel carries at most one fault, and carries one exactly when the listener
/// has stopped.
pub proof fn lemma_at_most_one_fault(start: ListenerState, arrivals: Seq<Arrival>)
    requires
        !start.stopped,
    ensures
        listener_run(start, arrivals).faults.len() == if listener_run(start, arrivals).state.stopped {
            1nat
        } else {
            0nat
        },
    decreases arrivals.len(),
{
    if arrivals.len() > 0 {
        lemma_at_most_one_fault(start, arrivals.drop_last());
    }
}

} // verus!
