//! The writer's decisions: one document per record, and what to do when an insert fails.
//!
//! The writer's owner takes each record from the log channel, stores the document of
//! `DateMessage::to_document`, hands the database's answer to `after_insert`, prints the
//! report if there is one, and goes on with the next record.
use crate::document::FieldValue;
use crate::record::{record_fields, LogRecord};
use vstd::prelude::*;
use vstd::string::StringExecFns;

verus! {

/// The line that reports a failed insert, given the database's description of the failure.
pub open spec fn report_text(failure: Seq<char>) -> Seq<char> {
    "Cannot insert to DB due to error: "@ + failure
}

/// What is reported after an insert: nothing if it succeeded, else the report's line.
pub open spec fn insert_report(failure: Option<Seq<char>>) -> Option<Seq<char>> {
    match failure {
        None => None,
        Some(description) => Some(report_text(description)),
    }
}

/// The failure in the answer of an insert, if it is one.
pub open spec fn failure_of(outcome: Result<(), String>) -> Option<Seq<char>> {
    match outcome {
        Ok(_) => None,
        Err(description) => Some(description@),
    }
}

/// Decides what follows the answer of an insert. A failure is reported and nothing else:
/// the record is neither retried nor queued again, and the writer goes on.
pub fn after_insert(outcome: Result<(), String>) -> (report: Option<String>)
    ensures
        match report {
            Some(line) => insert_report(failure_of(outcome)) == Some(line@),
            None => insert_report(failure_of(outcome)) is None,
        },
{
    match outcome {
        Ok(_) => None,
        Err(description) => Some(
            String::from_str("Cannot insert to DB due to error: ").concat(description.as_str()),
        ),
    }
}

/// One turn of the writer's loop: the record taken from the log channel and the failure
/// that the database answered the insert with, if it failed.
pub struct Delivery {
    pub record: LogRecord,
    pub failure: Option<Seq<char>>,
}

/// What a writer has done over a number of turns.
pub struct WriterTrace {
    /// The documents that an insert was attempted for, in the order of the attempts.
    pub attempts: Seq<Seq<(Seq<char>, FieldValue)>>,
    /// The documents that the database took, in the order of the attempts.
    pub persisted: Seq<Seq<(Seq<char>, FieldValue)>>,
    /// The lines reported for the failed inserts.
    pub reports: Seq<Seq<char>>,
}

/// The trace after one more turn.
pub open spec fn after_delivery(before: WriterTrace, delivery: Delivery) -> WriterTrace {
    let document = record_fields(delivery.record);
    WriterTrace {
        attempts: before.attempts.push(document),
        persisted: if delivery.failure is None {
            before.persisted.push(document)
        } else {
            before.persisted
        },
        reports: match insert_report(delivery.failure) {
            Some(line) => before.reports.push(line),
            None => before.reports,
        },
    }
}

/// What the writer does over the turns `deliveries`.
pub open spec fn writer_run(deliveries: Seq<Delivery>) -> WriterTrace
    decreases deliveries.len(),
{
    if deliveries.len() == 0 {
        WriterTrace { attempts: Seq::empty(), persisted: Seq::empty(), reports: Seq::empty() }
    } else {
        after_delivery(writer_run(deliveries.drop_last()), deliveries.last())
    }
}

/// Whatever the database answers, the writer attempts exactly one insert for each record,
/// in the order in which the records arrive: a failure stops nothing, and no record is
/// tried a second time.
pub proof fn lemma_one_attempt_per_record(deliveries: Seq<Delivery>)
    ensures
        writer_run(deliveries).attempts.len() == deliveries.len(),
        forall|i: int|
            0 <= i < deliveries.len() ==> #[trigger] writer_run(deliveries).attempts[i]
                == record_fields(deliveries[i].record),
    decreases deliveries.len(),
{
    if deliveries.len() > 0 {
        let front = deliveries.drop_last();
        lemma_one_attempt_per_record(front);
        assert forall|i: int| 0 <= i < deliveries.len() implies #[trigger] writer_run(
            deliveries,
        ).attempts[i] == record_fields(deliveries[i].record) by {
            if i < front.len() {
                assert(front[i] == deliveries[i]);
                assert(writer_run(front).attempts[i] == record_fields(front[i].record));
            }
        }
    }
}

/// Where no insert fails, every attempted document is persisted, in the order of the
/// attempts, and nothing is reported.
pub proof fn lemma_all_persisted_without_failure(deliveries: Seq<Delivery>)
    requires
        forall|i: int| 0 <= i < deliveries.len() ==> (#[trigger] deliveries[i]).failure is None,
    ensures
        writer_run(deliveries).persisted == writer_run(deliveries).attempts,
        writer_run(deliveries).reports.len() == 0,
    decreases deliveries.len(),
{
    if deliveries.len() > 0 {
        let front = deliveries.drop_last();
        assert forall|i: int| 0 <= i < front.len() implies (#[trigger] front[i]).failure
            is None by {
            assert(front[i] == deliveries[i]);
        }
        lemma_all_persisted_without_failure(front);
        assert(deliveries.last() == deliveries[deliveries.len() - 1]);
    }
}

/// A record whose insert fails is lost to the database and to nothing else: what is
/// persisted is what would be persisted had the record never arrived.
pub proof fn lemma_failed_record_is_dropped(deliveries: Seq<Delivery>, k: int)
    requires
        0 <= k < deliveries.len(),
        deliveries[k].failure is Some,
    ensures
        writer_run(deliveries).persisted == writer_run(deliveries.remove(k)).persisted,
        writer_run(deliveries).reports.len() == writer_run(deliveries.remove(k)).reports.len() + 1,
    decreases deliveries.len(),
{
    let front = deliveries.drop_last();
    if k == deliveries.len() - 1 {
        assert(deliveries.remove(k) =~= front);
        assert(deliveries.last() == deliveries[k]);
    } else {
        assert(front[k] == deliveries[k]);
        lemma_failed_record_is_dropped(front, k);
        assert(deliveries.remove(k).drop_last() =~= front.remove(k));
        assert(deliveries.remove(k).last() == deliveries.last());
    }
}

} // verus!
