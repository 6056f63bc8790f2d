//! Queries as values: what to look for, in which order, and how much of
//! it. A query is built first and carried out by whoever holds the store;
//! what the store hands back is turned into records here.

use crate::codec::CodecError;
use crate::document::{
    doc_get, doc_insert, doc_keys, doc_new, fields, key_order, no_fields, placed, Datum,
    FieldValue,
};
use crate::entity::Entity;
use bson::Document;
use core::marker::PhantomData;
use vstd::prelude::*;

verus! {

/// The direction of a sort.
#[derive(Clone, Copy, Debug, Hash, PartialEq, Eq, Structural)]
pub enum SortingOrder {
    Asc,
    Desc,
}

impl Default for SortingOrder {
    fn default() -> (out: SortingOrder)
        ensures
            out == SortingOrder::Asc,
    {
        SortingOrder::Asc
    }
}

/// The number that the store reads as a direction.
pub open spec fn sorting_number(order: SortingOrder) -> int {
    match order {
        SortingOrder::Asc => 1,
        SortingOrder::Desc => -1,
    }
}

impl SortingOrder {
    /// The value that stands for the direction in a sort document: 1 for
    /// ascending, -1 for descending.
    pub fn to_value(self) -> (out: FieldValue)
        ensures
            out@ == Datum::Int32(sorting_number(self)),
    {
        match self {
            SortingOrder::Asc => FieldValue::Int32(1),
            SortingOrder::Desc => FieldValue::Int32(-1),
        }
    }

    /// The direction that a value of a sort document stands for, if it
    /// stands for one.
    pub fn from_value(value: &FieldValue) -> (out: Option<SortingOrder>)
        ensures
            out == match value@ {
                Datum::Int32(n) => if n == 1 {
                    Some(SortingOrder::Asc)
                } else if n == -1 {
                    Some(SortingOrder::Desc)
                } else {
                    None
                },
                _ => None,
            },
    {
        match value {
            FieldValue::Int32(n) => if *n == 1 {
                Some(SortingOrder::Asc)
            } else if *n == -1 {
                Some(SortingOrder::Desc)
            } else {
                None
            },
            _ => None,
        }
    }
}

/// A lookup of at most one record.
#[derive(Debug)]
pub struct FindOneQuery<T: Entity> {
    pub conditions: Document,
    pub phantom: PhantomData<T>,
}

impl<T: Entity> FindOneQuery<T> {
    /// A lookup of the one record that meets the conditions.
    pub fn new(conditions: Document) -> (out: Self)
        ensures
            out.conditions == conditions,
    {
        FindOneQuery { conditions, phantom: PhantomData }
    }

    /// Turns what the store found into a record. Nothing found is no
    /// failure; a document that is no record of the schema is one.
    pub fn load(self, found: Option<Document>) -> (out: Result<Option<T>, CodecError>)
        ensures
            match found {
                None => out == Ok::<Option<T>, CodecError>(None),
                Some(doc) => match out {
                    Ok(Some(record)) => T::decoded(fields(doc), key_order(doc)) == Ok::<
                        _,
                        CodecError,
                    >(record@),
                    Ok(None) => false,
                    Err(e) => T::decoded(fields(doc), key_order(doc)) == Err::<T::V, _>(e),
                },
            },
    {
        match found {
            None => Ok(None),
            Some(doc) => match T::from_document(doc) {
                Ok(record) => Ok(Some(record)),
                Err(e) => Err(e),
            },
        }
    }

    /// Whether any record meets the conditions, given the number of
    /// documents that the store counted.
    pub fn has_match(self, count: u64) -> (out: bool)
        ensures
            out == (count > 0),
    {
        count > 0
    }
}

/// The fields of the sort document that ranks by relevance to a text
/// search.
pub open spec fn relevance_fields() -> Map<Seq<char>, Datum> {
    no_fields().insert(
        "score"@,
        Datum::Nested(no_fields().insert("$meta"@, Datum::Text("textScore"@))),
    )
}

/// Whether a document is the sort by relevance alone.
pub open spec fn is_relevance_sort(doc: Document) -> bool {
    &&& fields(doc) == relevance_fields()
    &&& key_order(doc) == seq!["score"@]
}

/// Whether conditions hold a text search.
pub open spec fn searches_text(conditions: Document) -> bool {
    fields(conditions).contains_key("$text"@)
}

/// The names of a sort after the names of another have been merged into
/// it, one after the other: a name that the sort has keeps its place, a new
/// one goes to the end.
pub open spec fn merged_order(order: Seq<Seq<char>>, incoming: Seq<Seq<char>>) -> Seq<Seq<char>>
    decreases incoming.len(),
{
    if incoming.len() == 0 {
        order
    } else {
        placed(merged_order(order, incoming.drop_last()), incoming.last())
    }
}

/// A query for any number of records.
#[derive(Debug)]
pub struct FindQuery<T: Entity> {
    pub conditions: Document,
    /// How many matches to pass over.
    pub skip: Option<u64>,
    /// How many matches to hand out at most.
    pub limit: Option<i64>,
    /// The fields to sort by, first the most significant.
    pub sort: Option<Document>,
    pub phantom: PhantomData<T>,
}

/// Whether a query is the one that `FindQuery::new` builds from the
/// conditions: no paging, and a sort by relevance exactly where the
/// conditions hold a text search.
pub open spec fn is_new_query<T: Entity>(query: FindQuery<T>, conditions: Document) -> bool {
    &&& query.conditions == conditions
    &&& query.skip is None
    &&& query.limit is None
    &&& searches_text(conditions) ==> query.sort is Some && is_relevance_sort(query.sort.unwrap())
    &&& !searches_text(conditions) ==> query.sort is None
}

/// Whether `out` is `query` with the given sort merged into its own: the
/// conditions and the paging stay; without a given sort the order stays
/// too; a query without an order takes the given one; otherwise each field
/// of the given sort replaces the field of the same name or goes behind the
/// fields that are there.
pub open spec fn is_sorted_query<T: Entity>(
    out: FindQuery<T>,
    query: FindQuery<T>,
    sorting: Option<Document>,
) -> bool {
    &&& out.conditions == query.conditions
    &&& out.skip == query.skip
    &&& out.limit == query.limit
    &&& match (sorting, query.sort) {
        (None, _) => out.sort == query.sort,
        (Some(incoming), None) => out.sort == Some(incoming),
        (Some(incoming), Some(existing)) => {
            &&& out.sort is Some
            &&& fields(out.sort.unwrap()) == fields(existing).union_prefer_right(fields(incoming))
            &&& key_order(out.sort.unwrap()) == merged_order(
                key_order(existing),
                key_order(incoming),
            )
        },
    }
}

impl<T: Entity> FindQuery<T> {
    /// A query for the records that meet the conditions. Where the
    /// conditions hold a text search, the matches are ranked by relevance.
    pub fn new(conditions: Document) -> (out: Self)
        ensures
            is_new_query(out, conditions),
    {
        let sort = match doc_get(&conditions, "$text") {
            Some(_) => {
                let mut meta = doc_new();
                doc_insert(&mut meta, "$meta", FieldValue::Text("textScore".to_owned()));
                let mut sort = doc_new();
                doc_insert(&mut sort, "score", FieldValue::Nested(meta));
                assert(key_order(sort) =~= seq!["score"@]);
                Some(sort)
            },
            None => None,
        };
        FindQuery { conditions, skip: None, limit: None, sort, phantom: PhantomData }
    }

    /// The query that passes over the first `n` matches, or over none.
    pub fn skip(self, n: Option<u32>) -> (out: Self)
        ensures
            out.conditions == self.conditions,
            out.limit == self.limit,
            out.sort == self.sort,
            out.skip == match n {
                Some(n) => Some(n as u64),
                None => None,
            },
    {
        let skip = match n {
            Some(n) => Some(n as u64),
            None => None,
        };
        FindQuery {
            conditions: self.conditions,
            skip,
            limit: self.limit,
            sort: self.sort,
            phantom: PhantomData,
        }
    }

    /// The query that hands out at most `n` matches, or all of them.
    pub fn take(self, n: Option<u32>) -> (out: Self)
        ensures
            out.conditions == self.conditions,
            out.skip == self.skip,
            out.sort == self.sort,
            out.limit == match n {
                Some(n) => Some(n as i64),
                None => None,
            },
    {
        let limit = match n {
            Some(n) => Some(n as i64),
            None => None,
        };
        FindQuery {
            conditions: self.conditions,
            skip: self.skip,
            limit,
            sort: self.sort,
            phantom: PhantomData,
        }
    }

    /// The query with the given sort merged into the one it has. Each field
    /// of the given sort takes the place of the field with the same name, or
    /// goes behind the fields that are there; the other fields stay, so a
    /// ranking by relevance is kept unless the given sort names the same
    /// field. Without a given sort the query is unchanged.
    pub fn sort(self, sorting: Option<Document>) -> (out: Self)
        ensures
            is_sorted_query(out, self, sorting),
    {
        let sort = match sorting {
            None => self.sort,
            Some(incoming) => match self.sort {
                None => Some(incoming),
                Some(existing) => Some(merge_sort(existing, &incoming)),
            },
        };
        FindQuery {
            conditions: self.conditions,
            skip: self.skip,
            limit: self.limit,
            sort,
            phantom: PhantomData,
        }
    }

    /// Turns the documents that the store found into records, one outcome
    /// for each document and in the same order. A document that is no record
    /// of the schema gives a failure in its place and leaves the others as
    /// they are.
    pub fn find(self, documents: &Vec<Document>) -> (out: Vec<Result<T, CodecError>>)
        ensures
            out@.len() == documents@.len(),
            forall|i: int|
                0 <= i < out@.len() ==> match #[trigger] out@[i] {
                    Ok(record) => T::decoded(fields(documents@[i]), key_order(documents@[i])) == Ok::<
                        _,
                        CodecError,
                    >(record@),
                    Err(e) => T::decoded(fields(documents@[i]), key_order(documents@[i])) == Err::<
                        T::V,
                        _,
                    >(e),
                },
    {
        let mut out: Vec<Result<T, CodecError>> = Vec::new();
        let mut i: usize = 0;
        while i < documents.len()
            invariant
                i <= documents@.len(),
                out@.len() == i,
                forall|k: int|
                    0 <= k < i ==> match #[trigger] out@[k] {
                        Ok(record) => T::decoded(fields(documents@[k]), key_order(documents@[k]))
                            == Ok::<_, CodecError>(record@),
                        Err(e) => T::decoded(fields(documents@[k]), key_order(documents@[k]))
                            == Err::<T::V, _>(e),
                    },
            decreases documents@.len() - i,
        {
            let doc = documents[i].clone();
            out.push(T::from_document(doc));
            i += 1;
        }
        out
    }
}

/// Merges the fields of `incoming` into `existing`, in the order of
/// `incoming`.
fn merge_sort(existing: Document, incoming: &Document) -> (out: Document)
    ensures
        fields(out) == fields(existing).union_prefer_right(fields(*incoming)),
        key_order(out) == merged_order(key_order(existing), key_order(*incoming)),
{
    let mut merged = existing;
    let keys = doc_keys(incoming);
    let mut i: usize = 0;
    while i < keys.len()
        invariant
            i <= keys@.len(),
            keys@.len() == key_order(*incoming).len(),
            forall|k: int| 0 <= k < keys@.len() ==> (#[trigger] keys@[k])@ == key_order(*incoming)[k],
            forall|k: int|
                0 <= k < keys@.len() ==> fields(*incoming).contains_key((#[trigger] keys@[k])@),
            key_order(merged) == merged_order(key_order(existing), key_order(*incoming).take(i as int)),
            forall|name: Seq<char>| #[trigger]
                fields(merged).contains_key(name) <==> fields(existing).contains_key(name) || (
                exists|k: int| 0 <= k < i && keys@[k]@ == name),
            forall|name: Seq<char>| #[trigger]
                fields(merged).contains_key(name) ==> fields(merged)[name] == if (exists|k: int|
                    0 <= k < i && keys@[k]@ == name) {
                    fields(*incoming)[name]
                } else {
                    fields(existing)[name]
                },
        decreases keys@.len() - i,
    {
        let key = keys[i].as_str();
        let ghost before = merged;
        match doc_get(incoming, key) {
            Some(value) => {
                doc_insert(&mut merged, key, value);
            },
            None => {},
        }
        proof {
            let order = key_order(*incoming);
            assert(order.take(i as int + 1).drop_last() =~= order.take(i as int));
            assert(order.take(i as int + 1).last() == key@);
            assert(fields(merged) == fields(before).insert(key@, fields(*incoming)[key@]));
            assert forall|name: Seq<char>| #[trigger]
                fields(merged).contains_key(name) <==> fields(existing).contains_key(name) || (
                exists|k: int| 0 <= k < i + 1 && keys@[k]@ == name) by {
                if name == key@ {
                    assert(keys@[i as int]@ == name);
                }
            }
            assert forall|name: Seq<char>| #[trigger]
                fields(merged).contains_key(name) implies fields(merged)[name] == if (exists|k: int|
                0 <= k < i + 1 && keys@[k]@ == name) {
                fields(*incoming)[name]
            } else {
                fields(existing)[name]
            } by {
                if name == key@ {
                    assert(keys@[i as int]@ == name);
                }
            }
        }
        i += 1;
    }
    proof {
        assert(key_order(*incoming).take(i as int) =~= key_order(*incoming));
        assert(fields(merged) =~= fields(existing).union_prefer_right(fields(*incoming)));
    }
    merged
}

/// Merging names into a sort leaves the names that the sort has where
/// they are.
pub proof fn lemma_merged_order_keeps(order: Seq<Seq<char>>, incoming: Seq<Seq<char>>)
    ensures
        merged_order(order, incoming).len() >= order.len(),
        forall|i: int| 0 <= i < order.len() ==> merged_order(order, incoming)[i] == order[i],
    decreases incoming.len(),
{
    if incoming.len() > 0 {
        lemma_merged_order_keeps(order, incoming.drop_last());
    }
}

/// A text search is ranked by relevance whatever sort is merged in
/// afterwards: in a query built from conditions with a text search and then
/// sorted, the most significant field of the order is the relevance score,
/// and it ranks by relevance unless the given sort names that field itself,
/// in which case the given sort's value stands.
pub proof fn lemma_text_search_ranked<T: Entity>(
    conditions: Document,
    query: FindQuery<T>,
    sorting: Option<Document>,
    sorted: FindQuery<T>,
)
    requires
        searches_text(conditions),
        is_new_query(query, conditions),
        is_sorted_query(sorted, query, sorting),
    ensures
        sorted.sort is Some,
        key_order(sorted.sort.unwrap()).len() > 0,
        key_order(sorted.sort.unwrap())[0] == "score"@,
        fields(sorted.sort.unwrap()).contains_key("score"@),
        fields(sorted.sort.unwrap())["score"@] == match sorting {
            Some(incoming) => if fields(incoming).contains_key("score"@) {
                fields(incoming)["score"@]
            } else {
                relevance_fields()["score"@]
            },
            None => relevance_fields()["score"@],
        },
{
    let existing = query.sort.unwrap();
    assert(key_order(existing).len() == 1 && key_order(existing)[0] == "score"@);
    match sorting {
        Some(incoming) => {
            lemma_merged_order_keeps(key_order(existing), key_order(incoming));
        },
        None => {},
    }
}

} // verus!
