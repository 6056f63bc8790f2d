//! Moving between a record's own field layout and the layout the store
//! keeps: the identifier under the store's reserved name, and points in time
//! as native values instead of text.

use crate::date::{day_of, from_date_time, start_of, to_date_time, Date};
use crate::document::{
    doc_get, doc_insert, doc_keys, doc_new, doc_remove, fields, key_order, no_fields, placed,
    Datum, FieldValue,
};
use crate::object_id::ObjectId;
use crate::text::str_eq;
use bson::Document;
use vstd::prelude::*;

verus! {

/// Why a document and a record could not be mapped to each other.
#[derive(Clone, Copy, Debug, PartialEq, Eq, Structural)]
pub enum CodecError {
    /// A document cannot be brought into the store's layout.
    Encode,
    /// A stored document lacks a field, has one too many, or holds a value
    /// of the wrong kind.
    Decode,
    /// A text that stands where a point in time is expected is not one.
    Parse,
}

/// The point in time that a text denotes, in milliseconds since the epoch,
/// if the text is a timestamp.
pub uninterp spec fn timestamp_of_text(text: Seq<char>) -> Option<i64>;

/// The text written for a point in time given in milliseconds since the
/// epoch, if the calendar reaches that far.
pub uninterp spec fn text_of_timestamp(millis: i64) -> Option<Seq<char>>;

/// `FromStr` of `chrono::DateTime<Utc>`, then `timestamp_millis`: reads a
/// timestamp in the relaxed RFC 3339 form that chrono accepts. The outcome
/// depends on the text alone.
#[verifier::external_body]
pub(crate) fn parse_timestamp(text: &str) -> (out: Option<i64>)
    ensures
        out == timestamp_of_text(text@),
{
    text.parse::<chrono::DateTime<chrono::Utc>>().ok().map(|t| t.timestamp_millis())
}

/// `chrono::DateTime::from_timestamp_millis`, then `to_string`: writes a
/// point in time in UTC, or nothing where chrono's calendar does not reach it.
/// The outcome depends on the number alone.
#[verifier::external_body]
pub(crate) fn format_timestamp(millis: i64) -> (out: Option<String>)
    ensures
        out is Some <==> text_of_timestamp(millis) is Some,
        out is Some ==> out.unwrap()@ == text_of_timestamp(millis).unwrap(),
{
    chrono::DateTime::from_timestamp_millis(millis).map(|t| t.to_string())
}

/// A timestamp field as the store keeps it: a text is read as a point in
/// time, any other value stays.
pub open spec fn stored_stamp(v: Datum) -> Result<Datum, CodecError> {
    match v {
        Datum::Text(s) => match timestamp_of_text(s) {
            Some(ms) => Ok(Datum::Instant(ms as int)),
            None => Err(CodecError::Parse),
        },
        _ => Ok(v),
    }
}

/// A timestamp field as a record's layout has it: a point in time is
/// written as text, any other value stays.
pub open spec fn plain_stamp(v: Datum) -> Result<Datum, CodecError> {
    match v {
        Datum::Instant(ms) => if i64::MIN <= ms <= i64::MAX {
            match text_of_timestamp(ms as i64) {
                Some(s) => Ok(Datum::Text(s)),
                None => Err(CodecError::Decode),
            }
        } else {
            Err(CodecError::Decode)
        },
        _ => Ok(v),
    }
}

/// The fields with the timestamp under `key`, if there is one, in the
/// store's form.
pub open spec fn with_stored_stamp(m: Map<Seq<char>, Datum>, key: Seq<char>) -> Result<
    Map<Seq<char>, Datum>,
    CodecError,
> {
    if m.contains_key(key) {
        match stored_stamp(m[key]) {
            Ok(v) => Ok(m.insert(key, v)),
            Err(e) => Err(e),
        }
    } else {
        Ok(m)
    }
}

/// The fields with the timestamp under `key`, if there is one, in the
/// record's form.
pub open spec fn with_plain_stamp(m: Map<Seq<char>, Datum>, key: Seq<char>) -> Result<
    Map<Seq<char>, Datum>,
    CodecError,
> {
    if m.contains_key(key) {
        match plain_stamp(m[key]) {
            Ok(v) => Ok(m.insert(key, v)),
            Err(e) => Err(e),
        }
    } else {
        Ok(m)
    }
}

/// The fields of a document in the store's layout: the identifier moves
/// from `id` to `_id`, and the two timestamps are read where they are text.
pub open spec fn to_store_fields(m: Map<Seq<char>, Datum>) -> Result<
    Map<Seq<char>, Datum>,
    CodecError,
> {
    if !m.contains_key("id"@) || !(m["id"@] is Id) {
        Err(CodecError::Encode)
    } else {
        match with_stored_stamp(m.remove("id"@).insert("_id"@, m["id"@]), "created_at"@) {
            Err(e) => Err(e),
            Ok(m1) => with_stored_stamp(m1, "updated_at"@),
        }
    }
}

/// The fields of a stored document in a record's layout: the identifier
/// moves from `_id` to `id`, and the two timestamps are written as text
/// where they are points in time.
pub open spec fn from_store_fields(m: Map<Seq<char>, Datum>) -> Result<
    Map<Seq<char>, Datum>,
    CodecError,
> {
    if !m.contains_key("_id"@) || !(m["_id"@] is Id) {
        Err(CodecError::Decode)
    } else {
        match with_plain_stamp(m.remove("_id"@).insert("id"@, m["_id"@]), "created_at"@) {
            Err(e) => Err(e),
            Ok(m1) => with_plain_stamp(m1, "updated_at"@),
        }
    }
}

/// Brings the timestamp under `key` into the store's form.
fn store_stamp(doc: &mut Document, key: &str) -> (out: Result<(), CodecError>)
    ensures
        match out {
            Ok(_) => with_stored_stamp(fields(*old(doc)), key@) == Ok::<_, CodecError>(
                fields(*final(doc)),
            ) && key_order(*final(doc)) == key_order(*old(doc)),
            Err(e) => with_stored_stamp(fields(*old(doc)), key@) == Err::<Map<Seq<char>, Datum>, _>(e)
                && fields(*final(doc)) == fields(*old(doc)) && key_order(*final(doc))
                == key_order(*old(doc)),
        },
{
    match doc_get(doc, key) {
        Some(FieldValue::Text(text)) => {
            match parse_timestamp(text.as_str()) {
                Some(ms) => {
                    doc_insert(doc, key, FieldValue::Instant(ms));
                    Ok(())
                },
                None => Err(CodecError::Parse),
            }
        },
        Some(_) => {
            assert(fields(*doc).insert(key@, fields(*doc)[key@]) =~= fields(*doc));
            Ok(())
        },
        None => Ok(()),
    }
}

/// Brings the timestamp under `key` into a record's form.
fn plain_stamp_in(doc: &mut Document, key: &str) -> (out: Result<(), CodecError>)
    ensures
        match out {
            Ok(_) => with_plain_stamp(fields(*old(doc)), key@) == Ok::<_, CodecError>(
                fields(*final(doc)),
            ) && key_order(*final(doc)) == key_order(*old(doc)),
            Err(e) => with_plain_stamp(fields(*old(doc)), key@) == Err::<Map<Seq<char>, Datum>, _>(e)
                && fields(*final(doc)) == fields(*old(doc)) && key_order(*final(doc))
                == key_order(*old(doc)),
        },
{
    match doc_get(doc, key) {
        Some(FieldValue::Instant(ms)) => {
            match format_timestamp(ms) {
                Some(text) => {
                    doc_insert(doc, key, FieldValue::Text(text));
                    Ok(())
                },
                None => Err(CodecError::Decode),
            }
        },
        Some(_) => {
            assert(fields(*doc).insert(key@, fields(*doc)[key@]) =~= fields(*doc));
            Ok(())
        },
        None => Ok(()),
    }
}

/// Brings a document from a record's layout into the store's: the
/// identifier under `id` moves to `_id`, and `created_at` and `updated_at`
/// become points in time where they are text. A document without an
/// identifier under `id` is refused, and so is a timestamp text that cannot
/// be read. All other fields stay as they are.
pub fn to_store_form(doc: Document) -> (out: Result<Document, CodecError>)
    ensures
        match out {
            Ok(stored) => to_store_fields(fields(doc)) == Ok::<_, CodecError>(fields(stored))
                && key_order(stored) == placed(key_order(doc).remove_value("id"@), "_id"@),
            Err(e) => to_store_fields(fields(doc)) == Err::<Map<Seq<char>, Datum>, _>(e),
        },
{
    let mut doc = doc;
    let id = match doc_get(&doc, "id") {
        Some(FieldValue::Id(id)) => id,
        _ => { return Err(CodecError::Encode); },
    };
    proof {
        lemma_layout_names();
    }
    doc_remove(&mut doc, "id");
    doc_insert(&mut doc, "_id", FieldValue::Id(id));
    match store_stamp(&mut doc, "created_at") {
        Ok(_) => {},
        Err(e) => { return Err(e); },
    }
    match store_stamp(&mut doc, "updated_at") {
        Ok(_) => {},
        Err(e) => { return Err(e); },
    }
    Ok(doc)
}

/// Brings a stored document into a record's layout: the identifier under
/// `_id` moves to `id`, and `created_at` and `updated_at` become text where
/// they are points in time. A document without an identifier under `_id` is
/// refused, and so is a point in time that cannot be written. All other
/// fields stay as they are.
pub fn from_store_form(doc: Document) -> (out: Result<Document, CodecError>)
    ensures
        match out {
            Ok(plain) => from_store_fields(fields(doc)) == Ok::<_, CodecError>(fields(plain))
                && key_order(plain) == placed(key_order(doc).remove_value("_id"@), "id"@),
            Err(e) => from_store_fields(fields(doc)) == Err::<Map<Seq<char>, Datum>, _>(e),
        },
{
    let mut doc = doc;
    let id = match doc_get(&doc, "_id") {
        Some(FieldValue::Id(id)) => id,
        _ => { return Err(CodecError::Decode); },
    };
    proof {
        lemma_layout_names();
    }
    doc_remove(&mut doc, "_id");
    doc_insert(&mut doc, "id", FieldValue::Id(id));
    match plain_stamp_in(&mut doc, "created_at") {
        Ok(_) => {},
        Err(e) => { return Err(e); },
    }
    match plain_stamp_in(&mut doc, "updated_at") {
        Ok(_) => {},
        Err(e) => { return Err(e); },
    }
    Ok(doc)
}

/// The failure of an outcome, if it is one.
pub open spec fn failure<T>(r: Result<T, CodecError>) -> Option<CodecError> {
    match r {
        Ok(_) => None,
        Err(e) => Some(e),
    }
}

/// The earlier failure if there is one, else the later.
pub open spec fn or_later(earlier: Option<CodecError>, later: Option<CodecError>) -> Option<
    CodecError,
> {
    if earlier is Some {
        earlier
    } else {
        later
    }
}

/// The identifier under `key`: the field must be there and hold one.
pub open spec fn want_id(m: Map<Seq<char>, Datum>, key: Seq<char>) -> Result<Seq<u8>, CodecError> {
    if m.contains_key(key) {
        match m[key] {
            Datum::Id(bytes) => Ok(bytes),
            _ => Err(CodecError::Decode),
        }
    } else {
        Err(CodecError::Decode)
    }
}

/// The text under `key`: the field must be there and hold one.
pub open spec fn want_text(m: Map<Seq<char>, Datum>, key: Seq<char>) -> Result<
    Seq<char>,
    CodecError,
> {
    if m.contains_key(key) {
        match m[key] {
            Datum::Text(s) => Ok(s),
            _ => Err(CodecError::Decode),
        }
    } else {
        Err(CodecError::Decode)
    }
}

/// The text under `key`, where the field may be missing or null.
pub open spec fn want_optional_text(m: Map<Seq<char>, Datum>, key: Seq<char>) -> Result<
    Option<Seq<char>>,
    CodecError,
> {
    if m.contains_key(key) {
        match m[key] {
            Datum::Text(s) => Ok(Some(s)),
            Datum::Null => Ok(None),
            _ => Err(CodecError::Decode),
        }
    } else {
        Ok(None)
    }
}

/// The point in time under `key`: the field must be there and hold one,
/// or a text that reads as one.
pub open spec fn want_instant(m: Map<Seq<char>, Datum>, key: Seq<char>) -> Result<int, CodecError> {
    if m.contains_key(key) {
        match m[key] {
            Datum::Instant(ms) => Ok(ms),
            Datum::Text(s) => match timestamp_of_text(s) {
                Some(ms) => Ok(ms as int),
                None => Err(CodecError::Parse),
            },
            _ => Err(CodecError::Decode),
        }
    } else {
        Err(CodecError::Decode)
    }
}

/// The identifier of the record that the field under `key` refers to: the
/// field must be there and hold a document with an identifier under `id`.
pub open spec fn want_reference(m: Map<Seq<char>, Datum>, key: Seq<char>) -> Result<
    Seq<u8>,
    CodecError,
> {
    if m.contains_key(key) {
        match m[key] {
            Datum::Nested(inner) => want_id(inner, "id"@),
            _ => Err(CodecError::Decode),
        }
    } else {
        Err(CodecError::Decode)
    }
}

/// Reads the identifier under `key`.
pub fn read_id(doc: &Document, key: &str) -> (out: Result<ObjectId, CodecError>)
    ensures
        match out {
            Ok(id) => want_id(fields(*doc), key@) == Ok::<_, CodecError>(id@),
            Err(e) => want_id(fields(*doc), key@) == Err::<Seq<u8>, _>(e),
        },
{
    match doc_get(doc, key) {
        Some(FieldValue::Id(id)) => Ok(id),
        _ => Err(CodecError::Decode),
    }
}

/// Reads the text under `key`.
pub fn read_text(doc: &Document, key: &str) -> (out: Result<String, CodecError>)
    ensures
        match out {
            Ok(s) => want_text(fields(*doc), key@) == Ok::<_, CodecError>(s@),
            Err(e) => want_text(fields(*doc), key@) == Err::<Seq<char>, _>(e),
        },
{
    match doc_get(doc, key) {
        Some(FieldValue::Text(s)) => Ok(s),
        _ => Err(CodecError::Decode),
    }
}

/// Reads the text under `key`, where the field may be missing or null.
pub fn read_optional_text(doc: &Document, key: &str) -> (out: Result<
    Option<String>,
    CodecError,
>)
    ensures
        match out {
            Ok(Some(s)) => want_optional_text(fields(*doc), key@) == Ok::<_, CodecError>(Some(s@)),
            Ok(None) => want_optional_text(fields(*doc), key@) == Ok::<Option<Seq<char>>, CodecError>(
                None,
            ),
            Err(e) => want_optional_text(fields(*doc), key@) == Err::<Option<Seq<char>>, _>(e),
        },
{
    match doc_get(doc, key) {
        Some(FieldValue::Text(s)) => Ok(Some(s)),
        Some(FieldValue::Null) => Ok(None),
        None => Ok(None),
        _ => Err(CodecError::Decode),
    }
}

/// Reads the point in time under `key`.
pub fn read_instant(doc: &Document, key: &str) -> (out: Result<i64, CodecError>)
    ensures
        match out {
            Ok(ms) => want_instant(fields(*doc), key@) == Ok::<_, CodecError>(ms as int),
            Err(e) => want_instant(fields(*doc), key@) == Err::<int, _>(e),
        },
{
    match doc_get(doc, key) {
        Some(FieldValue::Instant(ms)) => Ok(ms),
        Some(FieldValue::Text(s)) => match parse_timestamp(s.as_str()) {
            Some(ms) => Ok(ms),
            None => Err(CodecError::Parse),
        },
        _ => Err(CodecError::Decode),
    }
}

/// Reads the identifier of the record that the field under `key` refers to.
pub fn read_reference(doc: &Document, key: &str) -> (out: Result<ObjectId, CodecError>)
    ensures
        match out {
            Ok(id) => want_reference(fields(*doc), key@) == Ok::<_, CodecError>(id@),
            Err(e) => want_reference(fields(*doc), key@) == Err::<Seq<u8>, _>(e),
        },
{
    match doc_get(doc, key) {
        Some(FieldValue::Nested(inner)) => read_id(&inner, "id"),
        _ => Err(CodecError::Decode),
    }
}

/// The day under `key`, counted from the epoch: the field must hold a
/// point in time, or a text that reads as one, that falls on a day which a
/// date can hold.
pub open spec fn want_date(m: Map<Seq<char>, Datum>, key: Seq<char>) -> Result<int, CodecError> {
    match want_instant(m, key) {
        Err(e) => Err(e),
        Ok(ms) => if i32::MIN <= day_of(ms) <= i32::MAX {
            Ok(day_of(ms))
        } else {
            Err(CodecError::Decode)
        },
    }
}

/// Reads the date under `key`.
pub fn read_date(doc: &Document, key: &str) -> (out: Result<Date, CodecError>)
    ensures
        match out {
            Ok(date) => want_date(fields(*doc), key@) == Ok::<_, CodecError>(date.days as int),
            Err(e) => want_date(fields(*doc), key@) == Err::<int, _>(e),
        },
{
    let ms = match read_instant(doc, key) {
        Ok(ms) => ms,
        Err(e) => { return Err(e); },
    };
    match from_date_time(ms) {
        Some(date) => Ok(date),
        None => Err(CodecError::Decode),
    }
}

/// The stored value of a reference to the record with the given identifier.
pub open spec fn reference_value(id: Seq<u8>) -> Datum {
    Datum::Nested(no_fields().insert("id"@, Datum::Id(id)))
}

/// Sets a reference to the record with the given identifier.
pub fn put_reference(doc: &mut Document, key: &str, id: ObjectId)
    ensures
        fields(*final(doc)) == fields(*old(doc)).insert(key@, reference_value(id@)),
        key_order(*final(doc)) == placed(key_order(*old(doc)), key@),
{
    let mut inner = doc_new();
    doc_insert(&mut inner, "id", FieldValue::Id(id));
    doc_insert(doc, key, FieldValue::Nested(inner));
}

/// Sets a date, as the point in time at which it starts in UTC.
pub fn put_date(doc: &mut Document, key: &str, date: Date)
    ensures
        fields(*final(doc)) == fields(*old(doc)).insert(
            key@,
            Datum::Instant(start_of(date.days as int)),
        ),
        key_order(*final(doc)) == placed(key_order(*old(doc)), key@),
{
    doc_insert(doc, key, FieldValue::Instant(to_date_time(date)));
}

/// The view of a text that may be missing.
pub open spec fn optional_text(s: Option<String>) -> Option<Seq<char>> {
    match s {
        Some(s) => Some(s@),
        None => None,
    }
}

/// The stored value of a text that may be missing: null where it is.
pub open spec fn optional_value(s: Option<Seq<char>>) -> Datum {
    match s {
        Some(s) => Datum::Text(s),
        None => Datum::Null,
    }
}

/// Sets a text that may be missing: null where it is.
pub fn put_optional_text(doc: &mut Document, key: &str, value: &Option<String>)
    ensures
        fields(*final(doc)) == fields(*old(doc)).insert(key@, optional_value(optional_text(*value))),
        key_order(*final(doc)) == placed(key_order(*old(doc)), key@),
{
    match value {
        Some(s) => doc_insert(doc, key, FieldValue::Text(s.clone())),
        None => doc_insert(doc, key, FieldValue::Null),
    }
}

/// Whether every field of the document has one of the given names.
pub fn only_fields(doc: &Document, names: &Vec<&'static str>) -> (out: bool)
    ensures
        out == only_named(key_order(*doc), names@.map_values(|s: &'static str| s@)),
{
    let ghost allowed = names@.map_values(|s: &'static str| s@);
    let keys = doc_keys(doc);
    let mut i: usize = 0;
    while i < keys.len()
        invariant
            i <= keys.len(),
            keys@.len() == key_order(*doc).len(),
            allowed == names@.map_values(|s: &'static str| s@),
            forall|k: int| 0 <= k < keys@.len() ==> (#[trigger] keys@[k])@ == key_order(*doc)[k],
            forall|k: int| 0 <= k < i ==> allowed.contains(#[trigger] key_order(*doc)[k]),
        decreases keys.len() - i,
    {
        let mut j: usize = 0;
        let mut found = false;
        while j < names.len() && !found
            invariant
                j <= names.len(),
                i < keys.len(),
                allowed == names@.map_values(|s: &'static str| s@),
                found ==> allowed.contains(keys@[i as int]@),
                !found ==> forall|k: int| 0 <= k < j ==> allowed[k] != keys@[i as int]@,
            decreases names.len() - j + (if found { 0int } else { 1int }),
        {
            if str_eq(keys[i].as_str(), names[j]) {
                assert(allowed[j as int] == keys@[i as int]@);
                found = true;
            } else {
                j += 1;
            }
        }
        if !found {
            assert(!allowed.contains(key_order(*doc)[i as int]));
            return false;
        }
        i += 1;
    }
    true
}

/// Whether every name in the order is one of the allowed names.
pub open spec fn only_named(order: Seq<Seq<char>>, allowed: Seq<Seq<char>>) -> bool {
    forall|i: int| 0 <= i < order.len() ==> allowed.contains(#[trigger] order[i])
}

/// Moving the identifier to the store's name and back gives the same
/// fields, for a document that has an identifier under `id`, nothing under
/// `_id`, and neither of the two timestamps.
pub proof fn lemma_rename_round_trip(m: Map<Seq<char>, Datum>)
    requires
        m.contains_key("id"@),
        m["id"@] is Id,
        !m.contains_key("_id"@),
        !m.contains_key("created_at"@),
        !m.contains_key("updated_at"@),
    ensures
        to_store_fields(m) is Ok,
        from_store_fields(to_store_fields(m).unwrap()) == Ok::<_, CodecError>(m),
{
    lemma_layout_names();
    reveal_strlit("id");
    reveal_strlit("_id");
    reveal_strlit("created_at");
    reveal_strlit("updated_at");
    let stored = m.remove("id"@).insert("_id"@, m["id"@]);
    assert("_id"@.len() != "created_at"@.len());
    assert("_id"@.len() != "updated_at"@.len());
    assert(!stored.contains_key("created_at"@));
    assert(!stored.contains_key("updated_at"@));
    assert(to_store_fields(m) == Ok::<_, CodecError>(stored));
    let back = stored.remove("_id"@).insert("id"@, stored["_id"@]);
    assert(back =~= m);
}

/// The two names of the identifier differ.
pub proof fn lemma_layout_names()
    ensures
        "id"@ != "_id"@,
{
    reveal_strlit("id");
    reveal_strlit("_id");
    assert("id"@.len() != "_id"@.len());
}

} // verus!
