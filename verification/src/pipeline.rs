//! The listener and the writer joined by the log channel.
//!
//! The channel is a queue without bound that hands records out in the order in which they
//! were put in: the writer's turns take the listener's records one by one, in their order.
use crate::listener::{
    all_received, initial_state, lemma_failure_ends_forwarding,
    lemma_received_events_are_forwarded, listener_run, stamped, Arrival,
};
use crate::record::{record_fields, LogRecord};
use crate::writer::{
    lemma_all_persisted_without_failure, lemma_failed_record_is_dropped,
    lemma_one_attempt_per_record, writer_run, Delivery,
};
use vstd::prelude::*;

verus! {

/// The writer's turns for the records that the log channel hands over, where `failures`
/// says for each insert what the database answers.
pub open spec fn hand_over(records: Seq<LogRecord>, failures: Seq<Option<Seq<char>>>) -> Seq<
    Delivery,
>
    recommends
        records.len() == failures.len(),
{
    Seq::new(records.len(), |i: int| Delivery { record: records[i], failure: failures[i] })
}

/// The answers of a database that takes each of `n` documents.
pub open spec fn no_failures(n: nat) -> Seq<Option<Seq<char>>> {
    Seq::new(n, |i: int| None)
}

/// For any number of received events the writer attempts as many inserts, one for each
/// event and in the order of receipt, each with the event's text and its time of receipt;
/// where no insert fails, these are the documents persisted.
pub proof fn lemma_events_are_persisted_in_order(debug: bool, arrivals: Seq<Arrival>)
    requires
        all_received(arrivals),
    ensures
        ({
            let records = listener_run(initial_state(debug), arrivals).records;
            let written = writer_run(hand_over(records, no_failures(records.len())));
            &&& written.attempts.len() == arrivals.len()
            &&& forall|i: int|
                0 <= i < arrivals.len() ==> #[trigger] written.attempts[i] == record_fields(
                    stamped(arrivals[i]),
                )
            &&& written.persisted == written.attempts
        }),
{
    let records = listener_run(initial_state(debug), arrivals).records;
    let deliveries = hand_over(records, no_failures(records.len()));
    lemma_received_events_are_forwarded(initial_state(debug), arrivals);
    lemma_one_attempt_per_record(deliveries);
    lemma_all_persisted_without_failure(deliveries);
    let written = writer_run(deliveries);
    assert forall|i: int| 0 <= i < arrivals.len() implies #[trigger] written.attempts[i]
        == record_fields(stamped(arrivals[i])) by {
        assert(deliveries[i].record == records[i]);
    }
}

/// Whatever the database answers, the writer attempts one insert for each received event;
/// after a failed insert it goes on with the record that comes next.
pub proof fn lemma_failed_insert_does_not_stop_the_pipeline(
    debug: bool,
    arrivals: Seq<Arrival>,
    failures: Seq<Option<Seq<char>>>,
    k: int,
)
    requires
        all_received(arrivals),
        failures.len() == arrivals.len(),
        0 <= k < arrivals.len(),
        failures[k] is Some,
    ensures
        ({
            let records = listener_run(initial_state(debug), arrivals).records;
            let written = writer_run(hand_over(records, failures));
            &&& written.attempts.len() == arrivals.len()
            &&& forall|i: int|
                0 <= i < arrivals.len() ==> #[trigger] written.attempts[i] == record_fields(
                    stamped(arrivals[i]),
                )
            &&& written.persisted == writer_run(hand_over(records, failures).remove(k)).persisted
        }),
{
    let records = listener_run(initial_state(debug), arrivals).records;
    let deliveries = hand_over(records, failures);
    lemma_received_events_are_forwarded(initial_state(debug), arrivals);
    lemma_one_attempt_per_record(deliveries);
    lemma_failed_record_is_dropped(deliveries, k);
    let written = writer_run(deliveries);
    assert forall|i: int| 0 <= i < arrivals.len() implies #[trigger] written.attempts[i]
        == record_fields(stamped(arrivals[i])) by {
        assert(deliveries[i].record == records[i]);
    }
}

/// After the session's first failure the writer is handed nothing new: the records it can
/// take are those of the events received before the failure.
pub proof fn lemma_nothing_is_written_after_failure(debug: bool, arrivals: Seq<Arrival>, k: int)
    requires
        0 <= k < arrivals.len(),
        all_received(arrivals.take(k)),
        arrivals[k].event is Failed,
    ensures
        ({
            let records = listener_run(initial_state(debug), arrivals).records;
            &&& records.len() == k
            &&& forall|i: int| 0 <= i < k ==> #[trigger] records[i] == stamped(arrivals[i])
        }),
{
    lemma_received_events_are_forwarded(initial_state(debug), arrivals.take(k));
    lemma_failure_ends_forwarding(initial_state(debug), arrivals, k);
    let records = listener_run(initial_state(debug), arrivals).records;
    assert forall|i: int| 0 <= i < k implies #[trigger] records[i] == stamped(arrivals[i]) by {
        assert(arrivals.take(k)[i] == arrivals[i]);
    }
}

} // verus!
