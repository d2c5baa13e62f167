//! One captured line of traffic and the document it is stored as.
use crate::document::{
    document_fields, empty_document, insert_i64, insert_text, without_field, FieldValue,
};
use vstd::prelude::*;

verus! {

/// One captured line as mathematical values.
pub struct LogRecord {
    /// Seconds since the epoch at which the line was received.
    pub time: i64,
    /// The line as it is rendered.
    pub line: Seq<char>,
}

/// One captured line of traffic: the text of an event and the time of its receipt.
#[derive(Debug, PartialEq, Eq)]
pub struct DateMessage {
    /// Seconds since the epoch at which the event was received.
    pub time: i64,
    /// The event rendered as text.
    pub message: String,
}

impl View for DateMessage {
    type V = LogRecord;

    open spec fn view(&self) -> LogRecord {
        LogRecord { time: self.time, line: self.message@ }
    }
}

/// The fields of the document that stores a record: the time under `time`, then the line
/// under `line`.
pub open spec fn record_fields(record: LogRecord) -> Seq<(Seq<char>, FieldValue)> {
    seq![("time"@, FieldValue::Int64(record.time)), ("line"@, FieldValue::Text(record.line))]
}

/// The name of the collection that the documents are stored in.
pub fn collection_name() -> (name: &'static str)
    ensures
        name@ == "raw"@,
{
    "raw"
}

impl DateMessage {
    /// The document that stores this record.
    pub fn to_document(self) -> (doc: bson::ordered::OrderedDocument)
        ensures
            document_fields(doc) == record_fields(self@),
    {
        let mut doc = empty_document();
        insert_i64(&mut doc, "time", self.time);
        insert_text(&mut doc, "line", self.message);
        proof {
            reveal_strlit("time");
            reveal_strlit("line");
            reveal_with_fuel(without_field, 3);
            assert("time"@[0] != "line"@[0]);
        }
        doc
    }
}

} // verus!
