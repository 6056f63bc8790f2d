//! What every persisted record can do: name its schema and its identifier,
//! and map itself to and from the document that the store keeps.

use crate::codec::CodecError;
use crate::document::{doc_insert, doc_new, fields, key_order, no_fields, Datum, FieldValue};
use crate::global_id::ObjectType;
use crate::object_id::ObjectId;
use crate::query::{is_new_query, FindOneQuery, FindQuery};
use bson::Document;
use vstd::prelude::*;

verus! {

/// A record with an identity and a stored form. The view of a record is
/// what it holds, as plain mathematical values.
pub trait Object: Sized + View {
    /// The schema that records of this type belong to.
    spec fn kind() -> ObjectType;

    /// The bytes of the record's identifier.
    spec fn id(&self) -> Seq<u8>;

    /// The fields of the document that stands for a record.
    spec fn encoded(v: Self::V) -> Map<Seq<char>, Datum>;

    /// The names of those fields, in the order in which the document holds
    /// them.
    spec fn field_names() -> Seq<Seq<char>>;

    /// The record that a document stands for, given the document's fields
    /// and the order of their names, or the reason why it stands for none.
    spec fn decoded(m: Map<Seq<char>, Datum>, order: Seq<Seq<char>>) -> Result<Self::V, CodecError>;

    /// The schema that records of this type belong to.
    fn object_type() -> (t: ObjectType)
        ensures
            t == Self::kind(),
    ;

    /// The record's identifier.
    fn object_id(&self) -> (id: ObjectId)
        ensures
            id@ == self.id(),
    ;

    /// The document that stands for the record in the store.
    fn to_document(&self) -> (out: Result<Document, CodecError>)
        ensures
            out is Ok,
            fields(out.unwrap()) == Self::encoded(self@),
            key_order(out.unwrap()) == Self::field_names(),
    ;

    /// The record that a stored document stands for. A document that lacks
    /// a field of the schema, has a field that the schema does not know, or
    /// holds a value of the wrong kind is refused.
    fn from_document(doc: Document) -> (out: Result<Self, CodecError>)
        ensures
            match out {
                Ok(record) => Self::decoded(fields(doc), key_order(doc)) == Ok::<_, CodecError>(
                    record@,
                ),
                Err(e) => Self::decoded(fields(doc), key_order(doc)) == Err::<Self::V, _>(e),
            },
    ;

    /// Reading the document written for a record gives the record back.
    proof fn lemma_round_trip(&self)
        ensures
            Self::decoded(Self::encoded(self@), Self::field_names()) == Ok::<_, CodecError>(self@),
    ;

    /// The document written for a record holds the record's identifier
    /// under the store's reserved name.
    proof fn lemma_identified(&self)
        ensures
            Self::encoded(self@).contains_key("_id"@),
            Self::encoded(self@)["_id"@] == Datum::Id(self.id()),
    ;
}

#[verifier::external_type_specification]
#[verifier::external_body]
pub struct ExDatabase(mongodb::Database);

/// What the operations on records need at hand: the database that holds
/// them.
pub struct Context {
    pub database: mongodb::Database,
}

impl Context {
    /// The context for the given database.
    pub fn new(database: mongodb::Database) -> (out: Context)
        ensures
            out.database == database,
    {
        Context { database }
    }
}

/// Why a record was not written or removed.
#[derive(Clone, Copy, Debug, PartialEq, Eq, Structural)]
pub enum EntityError {
    /// The schema's rules refuse the change.
    ValidationFailed,
}

/// Whether a document is the filter that matches the record with the given
/// identifier and no other: the identifier under the store's reserved name,
/// and nothing else.
pub open spec fn is_id_filter(doc: Document, id: Seq<u8>) -> bool {
    &&& fields(doc) == no_fields().insert("_id"@, Datum::Id(id))
    &&& key_order(doc) == seq!["_id"@]
}

/// The filter that matches the record with the given identifier.
pub fn id_filter(id: &ObjectId) -> (out: Document)
    ensures
        is_id_filter(out, id@),
{
    let mut doc = doc_new();
    doc_insert(&mut doc, "_id", FieldValue::Id(*id));
    assert(key_order(doc) =~= seq!["_id"@]);
    doc
}

/// A write for the store to perform: put the replacement in the place of
/// the one document that the filter matches, or add it where none matches.
#[derive(Debug)]
pub struct ReplaceOne {
    pub collection: &'static str,
    pub filter: Document,
    pub replacement: Document,
    pub upsert: bool,
}

/// A removal for the store to perform: of the one document that the filter
/// matches.
#[derive(Debug)]
pub struct DeleteOne {
    pub collection: &'static str,
    pub filter: Document,
}

/// A record that is kept in a collection of the store. The store itself is
/// not reached from here: `save` and `delete` decide whether the change may
/// happen and say which single write carries it out.
pub trait Entity: Object {
    /// The name of the collection that holds the records of this schema.
    spec fn stored_in() -> Seq<char>;

    /// Whether the schema's rules let the record be written.
    spec fn savable(&self) -> bool;

    /// Whether the schema's rules let the record be removed while the given
    /// number of other records refer to it.
    spec fn deletable(&self, references: nat) -> bool;

    /// The name of the collection that holds the records of this schema.
    fn collection_name() -> (name: &'static str)
        ensures
            name@ == Self::stored_in(),
    ;

    /// Runs before a record is written, and may refuse the write.
    fn before_save(&self) -> (out: Result<(), EntityError>)
        ensures
            out is Ok <==> self.savable(),
            out is Err ==> out == Err::<(), _>(EntityError::ValidationFailed),
    ;

    /// Runs after a record has been written.
    fn after_save(&self) -> (out: Result<(), EntityError>)
    ;

    /// Runs before a record is removed, and may refuse the removal.
    /// `references` is the number of records that refer to this one.
    fn before_delete(&self, references: u64) -> (out: Result<(), EntityError>)
        ensures
            out is Ok <==> self.deletable(references as nat),
            out is Err ==> out == Err::<(), _>(EntityError::ValidationFailed),
    ;

    /// Runs after a record has been removed.
    fn after_delete(&self) -> (out: Result<(), EntityError>)
    ;

    /// Decides whether the record may be written and, if so, says how: one
    /// replacement, keyed by the record's identifier alone, that adds the
    /// document where the store has none. The write is refused exactly when
    /// the schema's rules refuse it.
    fn save(&self) -> (out: Result<ReplaceOne, EntityError>)
        ensures
            match out {
                Ok(write) => {
                    &&& self.savable()
                    &&& write.collection@ == Self::stored_in()
                    &&& is_id_filter(write.filter, self.id())
                    &&& fields(write.replacement) == Self::encoded(self@)
                    &&& key_order(write.replacement) == Self::field_names()
                    &&& write.upsert
                },
                Err(e) => !self.savable() && e == EntityError::ValidationFailed,
            },
    {
        match self.before_save() {
            Ok(_) => {},
            Err(e) => { return Err(e); },
        }
        let replacement = self.to_document().unwrap();
        let id = self.object_id();
        Ok(
            ReplaceOne {
                collection: Self::collection_name(),
                filter: id_filter(&id),
                replacement,
                upsert: true,
            },
        )
    }

    /// Decides whether the record may be removed while `references` other
    /// records refer to it and, if so, says how: one removal keyed by the
    /// record's identifier alone. The removal is refused exactly when the
    /// schema's rules refuse it.
    fn delete(&self, references: u64) -> (out: Result<DeleteOne, EntityError>)
        ensures
            match out {
                Ok(removal) => {
                    &&& self.deletable(references as nat)
                    &&& removal.collection@ == Self::stored_in()
                    &&& is_id_filter(removal.filter, self.id())
                },
                Err(e) => !self.deletable(references as nat) && e == EntityError::ValidationFailed,
            },
    {
        match self.before_delete(references) {
            Ok(_) => {},
            Err(e) => { return Err(e); },
        }
        let id = self.object_id();
        Ok(DeleteOne { collection: Self::collection_name(), filter: id_filter(&id) })
    }
}

/// A lookup of the one record of a schema that meets the conditions.
pub fn find_by<T: Entity>(conditions: Document) -> (out: FindOneQuery<T>)
    ensures
        out.conditions == conditions,
{
    FindOneQuery::new(conditions)
}

/// A lookup of the record of a schema that has the given identifier.
pub fn find<T: Entity>(id: &ObjectId) -> (out: FindOneQuery<T>)
    ensures
        is_id_filter(out.conditions, id@),
{
    find_by(id_filter(id))
}

/// A query for all records of a schema: no conditions, no paging, no
/// order.
pub fn all<T: Entity>() -> (out: FindQuery<T>)
    ensures
        fields(out.conditions) == no_fields(),
        key_order(out.conditions).len() == 0,
        out.skip is None,
        out.limit is None,
        out.sort is None,
{
    filter(doc_new())
}

/// A query for the records of a schema that meet the conditions, ranked by
/// relevance where the conditions hold a text search.
pub fn filter<T: Entity>(conditions: Document) -> (out: FindQuery<T>)
    ensures
        is_new_query(out, conditions),
{
    FindQuery::new(conditions)
}

} // verus!
