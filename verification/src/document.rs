//! The store's documents: ordered maps from field names to values, kept in
//! `bson::Document` and read and written through a typed view.

use crate::object_id::ObjectId;
use bson::{Bson, Document};
use vstd::prelude::*;

verus! {

#[verifier::external_type_specification]
#[verifier::external_body]
pub struct ExDocument(bson::Document);

#[verifier::external_type_specification]
#[verifier::external_body]
pub struct ExBson(bson::Bson);

/// What a field of a document holds, as contracts see it.
pub enum Datum {
    /// A string.
    Text(Seq<char>),
    /// A record identifier, by its bytes.
    Id(Seq<u8>),
    /// A point in time, in milliseconds since the epoch.
    Instant(int),
    /// A 32-bit integer.
    Int32(int),
    /// The null value.
    Null,
    /// An embedded document, by its fields.
    Nested(Map<Seq<char>, Datum>),
    /// A value of a kind that this library does not read.
    Unsupported,
}

/// The fields of a document: the value under each name.
pub uninterp spec fn fields(doc: Document) -> Map<Seq<char>, Datum>;

/// The names of a document's fields, in the order in which it holds them.
pub uninterp spec fn key_order(doc: Document) -> Seq<Seq<char>>;

/// The fields of an empty document.
pub open spec fn no_fields() -> Map<Seq<char>, Datum> {
    Map::empty()
}

/// A value of a kind that this library does not read. It comes out of a
/// document and can be put into one, unchanged.
#[derive(Clone, Debug)]
pub struct Opaque {
    raw: Bson,
}

/// A value that can be read from and written to a document.
#[derive(Clone, Debug)]
pub enum FieldValue {
    Text(String),
    Id(ObjectId),
    Instant(i64),
    Int32(i32),
    Null,
    Nested(Document),
    Other(Opaque),
}

impl View for FieldValue {
    type V = Datum;

    open spec fn view(&self) -> Datum {
        match self {
            FieldValue::Text(s) => Datum::Text(s@),
            FieldValue::Id(id) => Datum::Id(id@),
            FieldValue::Instant(ms) => Datum::Instant(*ms as int),
            FieldValue::Int32(n) => Datum::Int32(*n as int),
            FieldValue::Null => Datum::Null,
            FieldValue::Nested(d) => Datum::Nested(fields(*d)),
            FieldValue::Other(_) => Datum::Unsupported,
        }
    }
}

/// The order of the names after a value has been set under `key`: a name
/// that was there keeps its place, a new one goes to the end.
pub open spec fn placed(order: Seq<Seq<char>>, key: Seq<char>) -> Seq<Seq<char>> {
    if order.contains(key) {
        order
    } else {
        order.push(key)
    }
}

/// `bson::Document::new`: a document without fields.
#[verifier::external_body]
pub(crate) fn doc_new() -> (out: Document)
    ensures
        fields(out) == no_fields(),
        key_order(out).len() == 0,
{
    Document::new()
}

/// `bson::Document::get`: the value under the name, if the document has
/// the field, handed out by kind.
#[verifier::external_body]
pub(crate) fn doc_get(doc: &Document, key: &str) -> (out: Option<FieldValue>)
    ensures
        out is Some <==> fields(*doc).contains_key(key@),
        out is Some ==> out.unwrap()@ == fields(*doc)[key@],
        out is Some ==> key_order(*doc).contains(key@),
{
    doc.get(key).map(|value| match value {
        Bson::String(s) => FieldValue::Text(s.clone()),
        Bson::ObjectId(id) => FieldValue::Id(ObjectId { bytes: id.bytes() }),
        Bson::DateTime(t) => FieldValue::Instant(t.timestamp_millis()),
        Bson::Int32(n) => FieldValue::Int32(*n),
        Bson::Null => FieldValue::Null,
        Bson::Document(d) => FieldValue::Nested(d.clone()),
        other => FieldValue::Other(Opaque { raw: other.clone() }),
    })
}

/// `bson::Document::insert`: sets the value under the name. A name that
/// the document already has keeps its place in the order; a new one goes to
/// the end.
#[verifier::external_body]
pub(crate) fn doc_insert(doc: &mut Document, key: &str, value: FieldValue)
    ensures
        fields(*final(doc)) == fields(*old(doc)).insert(key@, value@),
        key_order(*final(doc)) == placed(key_order(*old(doc)), key@),
{
    let value = match value {
        FieldValue::Text(s) => Bson::String(s),
        FieldValue::Id(id) => Bson::ObjectId(bson::oid::ObjectId::from_bytes(id.bytes)),
        FieldValue::Instant(ms) => Bson::DateTime(bson::DateTime::from_millis(ms)),
        FieldValue::Int32(n) => Bson::Int32(n),
        FieldValue::Null => Bson::Null,
        FieldValue::Nested(d) => Bson::Document(d),
        FieldValue::Other(o) => o.raw,
    };
    doc.insert(key, value);
}

/// `bson::Document::remove`: takes the field with the name out, keeping
/// the order of the others.
#[verifier::external_body]
pub(crate) fn doc_remove(doc: &mut Document, key: &str)
    ensures
        fields(*final(doc)) == fields(*old(doc)).remove(key@),
        key_order(*final(doc)) == key_order(*old(doc)).remove_value(key@),
{
    doc.remove(key);
}

/// `bson::Document::keys`: the names of the fields, in the document's
/// order; each of them names a field, and every field's name is among them.
#[verifier::external_body]
pub(crate) fn doc_keys(doc: &Document) -> (out: Vec<String>)
    ensures
        out@.len() == key_order(*doc).len(),
        forall|i: int| 0 <= i < out@.len() ==> (#[trigger] out@[i])@ == key_order(*doc)[i],
        forall|i: int| 0 <= i < out@.len() ==> fields(*doc).contains_key((#[trigger] out@[i])@),
        forall|k: Seq<char>| #[trigger]
            fields(*doc).contains_key(k) ==> exists|i: int| 0 <= i < out@.len() && out@[i]@ == k,
{
    doc.keys().cloned().collect()
}

/// `Clone::clone` of `bson::Document`: a document with the same fields in
/// the same order.
pub assume_specification[ <bson::Document as Clone>::clone ](doc: &bson::Document) -> (out:
    bson::Document)
    ensures
        fields(out) == fields(*doc),
        key_order(out) == key_order(*doc),
;

/// `Clone::clone` of `bson::Bson`; nothing is claimed of the copy.
pub assume_specification[ <bson::Bson as Clone>::clone ](value: &bson::Bson) -> (out: bson::Bson)
;

} // verus!
