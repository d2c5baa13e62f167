//! Database documents: ordered lists of named fields, held in `bson` documents.
use vstd::prelude::*;

verus! {

/// The value of one field of a document.
pub enum FieldValue {
    /// A 64-bit integer.
    Int64(i64),
    /// A text.
    Text(Seq<char>),
    /// A value of any other kind.
    Other,
}

/// `bson::ordered::OrderedDocument`, which `bson::Document` names: a map from field names
/// to values that keeps the order in which the fields were put in. Its inside is not
/// looked at here.
#[verifier::external_type_specification]
#[verifier::external_body]
pub struct ExOrderedDocument(bson::ordered::OrderedDocument);

/// The fields of a document, in the order in which the document hands them out.
pub uninterp spec fn document_fields(doc: bson::ordered::OrderedDocument) -> Seq<
    (Seq<char>, FieldValue),
>;

/// The fields without those named `name`, the others in their old order.
pub open spec fn without_field(fields: Seq<(Seq<char>, FieldValue)>, name: Seq<char>) -> Seq<
    (Seq<char>, FieldValue),
>
    decreases fields.len(),
{
    if fields.len() == 0 {
        fields
    } else if fields.last().0 == name {
        without_field(fields.drop_last(), name)
    } else {
        without_field(fields.drop_last(), name).push(fields.last())
    }
}

/// The fields after `name` was given `value`: the field comes last, and an earlier field
/// of that name is gone.
pub open spec fn with_field(
    fields: Seq<(Seq<char>, FieldValue)>,
    name: Seq<char>,
    value: FieldValue,
) -> Seq<(Seq<char>, FieldValue)> {
    without_field(fields, name).push((name, value))
}

/// Calls `bson::ordered::OrderedDocument::new`. Trusted: the new document has no field.
#[verifier::external_body]
pub(crate) fn empty_document() -> (doc: bson::ordered::OrderedDocument)
    ensures
        document_fields(doc) == Seq::<(Seq<char>, FieldValue)>::empty(),
{
    bson::ordered::OrderedDocument::new()
}

/// Calls `bson::ordered::OrderedDocument::insert` with a 64-bit integer. Trusted: the
/// integer is stored as `Bson::I64` under `name`; a new name is appended after the fields
/// that were there, and a name that was there loses its old value and moves to the end.
#[verifier::external_body]
pub(crate) fn insert_i64(doc: &mut bson::ordered::OrderedDocument, name: &str, value: i64)
    ensures
        document_fields(*final(doc)) == with_field(
            document_fields(*old(doc)),
            name@,
            FieldValue::Int64(value),
        ),
{
    doc.insert(name, value);
}

/// Calls `bson::ordered::OrderedDocument::insert` with a text. Trusted: the text is stored
/// as `Bson::String` under `name`; a new name is appended after the fields that were
/// there, and a name that was there loses its old value and moves to the end.
#[verifier::external_body]
pub(crate) fn insert_text(doc: &mut bson::ordered::OrderedDocument, name: &str, value: String)
    ensures
        document_fields(*final(doc)) == with_field(
            document_fields(*old(doc)),
            name@,
            FieldValue::Text(value@),
        ),
{
    doc.insert(name, value);
}

} // verus!
