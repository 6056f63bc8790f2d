use bson::{Bson, Document};
use lattice::codec::CodecError;
use lattice::document::FieldValue;
use lattice::entity::{all, filter, find, find_by, Object};
use lattice::membership::{MemberRole, Membership, MembershipConditions, MembershipSorting};
use lattice::object_id::{ObjectId, ObjectRef};
use lattice::query::{FindOneQuery, FindQuery, SortingOrder};
use lattice::user::{User, UserConditions};

fn oid(last: u8) -> ObjectId {
    ObjectId::from_bytes([1, 2, 3, 4, 5, 6, 7, 8, 9, 10, 11, last])
}

fn raw(id: ObjectId) -> bson::oid::ObjectId {
    bson::oid::ObjectId::from_bytes(id.bytes)
}

fn keys(doc: &Document) -> Vec<String> {
    doc.keys().cloned().collect()
}

fn relevance() -> Document {
    let mut meta = Document::new();
    meta.insert("$meta", "textScore");
    let mut sort = Document::new();
    sort.insert("score", meta);
    sort
}

fn search(text: &str) -> Document {
    UserConditions { query: Some(text.to_owned()) }.to_document()
}

fn role(last: u8) -> MemberRole {
    MemberRole {
        id: oid(last),
        created_at: 1,
        updated_at: 2,
        name: "Developer".to_owned(),
        description: "Writes the code".to_owned(),
    }
}

#[test]
fn sorting_order_defaults_to_ascending() {
    assert_eq!(SortingOrder::default(), SortingOrder::Asc);
}

#[test]
fn sorting_order_as_a_value() {
    assert!(matches!(SortingOrder::Asc.to_value(), FieldValue::Int32(1)));
    assert!(matches!(SortingOrder::Desc.to_value(), FieldValue::Int32(-1)));
    assert_eq!(SortingOrder::from_value(&FieldValue::Int32(1)), Some(SortingOrder::Asc));
    assert_eq!(SortingOrder::from_value(&FieldValue::Int32(-1)), Some(SortingOrder::Desc));
    assert_eq!(SortingOrder::from_value(&FieldValue::Int32(0)), None);
    assert_eq!(SortingOrder::from_value(&FieldValue::Int32(2)), None);
    assert_eq!(SortingOrder::from_value(&FieldValue::Null), None);
    assert_eq!(SortingOrder::from_value(&FieldValue::Text("1".to_owned())), None);
}

#[test]
fn user_conditions_as_a_filter() {
    let mut inner = Document::new();
    inner.insert("$search", "ada");
    let mut expected = Document::new();
    expected.insert("$text", inner);
    assert_eq!(search("ada"), expected);
    assert_eq!(UserConditions { query: None }.to_document(), Document::new());
}

#[test]
fn membership_conditions_as_a_filter() {
    let both = MembershipConditions {
        user: Some(ObjectRef::new(oid(1))),
        role: Some(ObjectRef::new(oid(2))),
    };
    let doc = both.to_document();
    assert_eq!(keys(&doc), ["user.id", "role.id"]);
    assert_eq!(doc.get("user.id"), Some(&Bson::ObjectId(raw(oid(1)))));
    assert_eq!(doc.get("role.id"), Some(&Bson::ObjectId(raw(oid(2)))));
    let only_role = MembershipConditions { user: None, role: Some(ObjectRef::new(oid(2))) };
    assert_eq!(keys(&only_role.to_document()), ["role.id"]);
    let none = MembershipConditions { user: None, role: None };
    assert_eq!(none.to_document(), Document::new());
}

#[test]
fn membership_sorting_as_a_sort() {
    let mut expected = Document::new();
    expected.insert("start", Bson::Int32(-1));
    assert_eq!(MembershipSorting::Start(SortingOrder::Desc).to_document(), expected);
    let mut expected = Document::new();
    expected.insert("end", Bson::Int32(1));
    assert_eq!(MembershipSorting::End(SortingOrder::Asc).to_document(), expected);
}

#[test]
fn find_looks_for_the_identifier_alone() {
    let query: FindOneQuery<User> = find(&oid(7));
    let mut expected = Document::new();
    expected.insert("_id", raw(oid(7)));
    assert_eq!(query.conditions, expected);
}

#[test]
fn find_by_keeps_the_conditions() {
    let query: FindOneQuery<User> = find_by(search("ada"));
    assert_eq!(query.conditions, search("ada"));
    let query = User::find_by_email("ada@uwblueprint.org");
    let mut expected = Document::new();
    expected.insert("email", "ada@uwblueprint.org");
    assert_eq!(query.conditions, expected);
}

#[test]
fn all_has_no_conditions() {
    let query: FindQuery<MemberRole> = all();
    assert_eq!(query.conditions, Document::new());
    assert_eq!(query.skip, None);
    assert_eq!(query.limit, None);
    assert_eq!(query.sort, None);
}

#[test]
fn plain_filter_has_no_order() {
    let conditions = MembershipConditions { user: Some(ObjectRef::new(oid(1))), role: None };
    let query: FindQuery<Membership> = filter(conditions.to_document());
    assert_eq!(query.sort, None);
    assert_eq!(keys(&query.conditions), ["user.id"]);
}

#[test]
fn text_search_is_ranked_by_relevance() {
    let query: FindQuery<User> = filter(search("ada"));
    assert_eq!(query.sort, Some(relevance()));
    assert_eq!(query.conditions, search("ada"));
}

#[test]
fn skip_and_take_set_the_paging() {
    let query: FindQuery<User> = filter(search("ada"));
    let query = query.skip(Some(20)).take(Some(10));
    assert_eq!(query.skip, Some(20));
    assert_eq!(query.limit, Some(10));
    assert_eq!(query.sort, Some(relevance()));
    let query = query.skip(None);
    assert_eq!(query.skip, None);
    assert_eq!(query.limit, Some(10));
    let query = query.take(Some(u32::MAX)).skip(Some(u32::MAX));
    assert_eq!(query.limit, Some(4_294_967_295));
    assert_eq!(query.skip, Some(4_294_967_295));
    let query = query.take(None);
    assert_eq!(query.limit, None);
}

#[test]
fn sort_on_a_query_without_order_takes_the_given_one() {
    let query: FindQuery<Membership> = all();
    let sorting = MembershipSorting::Start(SortingOrder::Desc).to_document();
    let query = query.sort(Some(sorting.clone()));
    assert_eq!(query.sort, Some(sorting));
}

#[test]
fn sort_merges_into_the_order_that_is_there() {
    let query: FindQuery<Membership> = all();
    let query = query.sort(Some(MembershipSorting::Start(SortingOrder::Desc).to_document()));
    let query = query.sort(Some(MembershipSorting::End(SortingOrder::Asc).to_document()));
    let sort = query.sort.clone().unwrap();
    assert_eq!(keys(&sort), ["start", "end"]);
    assert_eq!(sort.get("start"), Some(&Bson::Int32(-1)));
    assert_eq!(sort.get("end"), Some(&Bson::Int32(1)));
    let query = query.sort(Some(MembershipSorting::Start(SortingOrder::Asc).to_document()));
    let sort = query.sort.unwrap();
    assert_eq!(keys(&sort), ["start", "end"]);
    assert_eq!(sort.get("start"), Some(&Bson::Int32(1)));
    assert_eq!(sort.get("end"), Some(&Bson::Int32(1)));
}

#[test]
fn sort_keeps_the_relevance_ranking_first() {
    let query: FindQuery<User> = filter(search("ada"));
    let mut by_name = Document::new();
    by_name.insert("last_name", Bson::Int32(1));
    by_name.insert("first_name", Bson::Int32(-1));
    let query = query.sort(Some(by_name));
    let sort = query.sort.unwrap();
    assert_eq!(keys(&sort), ["score", "last_name", "first_name"]);
    assert_eq!(sort.get("score"), relevance().get("score"));
    assert_eq!(sort.get("last_name"), Some(&Bson::Int32(1)));
    assert_eq!(sort.get("first_name"), Some(&Bson::Int32(-1)));
}

#[test]
fn explicit_sort_by_score_takes_precedence() {
    let query: FindQuery<User> = filter(search("ada"));
    let mut by_score = Document::new();
    by_score.insert("email", Bson::Int32(1));
    by_score.insert("score", Bson::Int32(-1));
    let query = query.sort(Some(by_score));
    let sort = query.sort.unwrap();
    assert_eq!(keys(&sort), ["score", "email"]);
    assert_eq!(sort.get("score"), Some(&Bson::Int32(-1)));
}

#[test]
fn sort_without_a_sorting_changes_nothing() {
    let query: FindQuery<User> = filter(search("ada"));
    let query = query.sort(None);
    assert_eq!(query.sort, Some(relevance()));
    let query: FindQuery<User> = all();
    let query = query.sort(None);
    assert_eq!(query.sort, None);
}

#[test]
fn sort_carries_values_of_any_kind() {
    let query: FindQuery<User> = filter(search("ada"));
    let mut sorting = Document::new();
    sorting.insert("weight", Bson::Double(1.0));
    sorting.insert("rank", Bson::Int64(-1));
    let query = query.sort(Some(sorting));
    let sort = query.sort.unwrap();
    assert_eq!(keys(&sort), ["score", "weight", "rank"]);
    assert_eq!(sort.get("weight"), Some(&Bson::Double(1.0)));
    assert_eq!(sort.get("rank"), Some(&Bson::Int64(-1)));
}

#[test]
fn load_turns_a_document_into_a_record() {
    let query: FindOneQuery<MemberRole> = find(&oid(3));
    let found = query.load(Some(role(3).to_document().unwrap())).unwrap().unwrap();
    assert_eq!(found.id.bytes, oid(3).bytes);
    assert_eq!(found.name, "Developer");
}

#[test]
fn load_of_nothing_is_no_failure() {
    let query: FindOneQuery<MemberRole> = find(&oid(3));
    assert!(query.load(None).unwrap().is_none());
}

#[test]
fn load_of_a_bad_document_fails() {
    let query: FindOneQuery<MemberRole> = find(&oid(3));
    let mut doc = role(3).to_document().unwrap();
    doc.remove("name");
    assert_eq!(query.load(Some(doc)).unwrap_err(), CodecError::Decode);
}

#[test]
fn has_match_is_a_positive_count() {
    let query: FindOneQuery<User> = find(&oid(3));
    assert!(!query.has_match(0));
    let query: FindOneQuery<User> = find(&oid(3));
    assert!(query.has_match(1));
    let query: FindOneQuery<User> = find(&oid(3));
    assert!(query.has_match(u64::MAX));
}

#[test]
fn find_gives_one_outcome_for_each_document() {
    let mut bad = role(5).to_document().unwrap();
    bad.insert("created_at", "never");
    let documents = vec![role(4).to_document().unwrap(), bad, role(6).to_document().unwrap()];
    let query: FindQuery<MemberRole> = all();
    let found = query.find(&documents);
    assert_eq!(found.len(), 3);
    assert_eq!(found[0].as_ref().unwrap().id.bytes, oid(4).bytes);
    assert_eq!(found[1].as_ref().unwrap_err(), &CodecError::Parse);
    assert_eq!(found[2].as_ref().unwrap().id.bytes, oid(6).bytes);
    let query: FindQuery<MemberRole> = all();
    assert!(query.find(&Vec::new()).is_empty());
}

#[test]
fn memberships_of_a_user_and_of_a_role() {
    let user = User::new(1, "Ada".to_owned(), "Lovelace".to_owned(), "ada@uwblueprint.org".to_owned());
    let query = user.memberships();
    assert_eq!(keys(&query.conditions), ["user.id"]);
    assert_eq!(query.conditions.get("user.id"), Some(&Bson::ObjectId(raw(user.id))));
    assert_eq!(query.sort, None);
    let query = role(9).memberships();
    assert_eq!(keys(&query.conditions), ["role.id"]);
    assert_eq!(query.conditions.get("role.id"), Some(&Bson::ObjectId(raw(oid(9)))));
}

#[test]
fn membership_points_at_its_user_and_role() {
    let membership = Membership::new(
        0,
        ObjectRef::new(oid(1)),
        ObjectRef::new(oid(2)),
        lattice::date::Date { days: 0 },
        lattice::date::Date { days: 1 },
    );
    assert_eq!(membership.user().conditions.get("_id"), Some(&Bson::ObjectId(raw(oid(1)))));
    assert_eq!(membership.role().conditions.get("_id"), Some(&Bson::ObjectId(raw(oid(2)))));
    assert_eq!(User::object_type(), lattice::global_id::ObjectType::User);
}
