use bson::{Bson, Document};
use lattice::date::Date;
use lattice::entity::{id_filter, Entity, EntityError, Object};
use lattice::global_id::{GlobalId, ObjectType};
use lattice::membership::{MemberRole, Membership};
use lattice::object_id::{ObjectId, ObjectRef};
use lattice::user::User;

fn oid(last: u8) -> ObjectId {
    ObjectId::from_bytes([1, 2, 3, 4, 5, 6, 7, 8, 9, 10, 11, last])
}

fn raw(id: ObjectId) -> bson::oid::ObjectId {
    bson::oid::ObjectId::from_bytes(id.bytes)
}

fn only_id(id: ObjectId) -> Document {
    let mut doc = Document::new();
    doc.insert("_id", Bson::ObjectId(raw(id)));
    doc
}

fn role() -> MemberRole {
    MemberRole {
        id: oid(3),
        created_at: 1,
        updated_at: 2,
        name: "Developer".to_owned(),
        description: "Writes the code".to_owned(),
    }
}

fn membership() -> Membership {
    Membership {
        id: oid(2),
        created_at: 1,
        updated_at: 2,
        user: ObjectRef::new(oid(1)),
        role: ObjectRef::new(oid(3)),
        start: Date { days: 10 },
        end: Date { days: 20 },
    }
}

#[test]
fn collections_are_named() {
    assert_eq!(User::collection_name(), "users");
    assert_eq!(Membership::collection_name(), "memberships");
    assert_eq!(MemberRole::collection_name(), "member_roles");
}

#[test]
fn records_know_their_type_and_identifier() {
    assert_eq!(User::object_type(), ObjectType::User);
    assert_eq!(Membership::object_type(), ObjectType::Membership);
    assert_eq!(MemberRole::object_type(), ObjectType::MemberRole);
    assert_eq!(role().object_id().bytes, oid(3).bytes);
    assert_eq!(GlobalId::of(&role()).to_text(), "MemberRole:0102030405060708090a0b03");
    assert_eq!(GlobalId::of(&membership()).get::<Membership>().unwrap().bytes, oid(2).bytes);
    assert!(GlobalId::of(&membership()).get::<User>().is_none());
}

#[test]
fn id_filter_holds_the_identifier_alone() {
    assert_eq!(id_filter(&oid(8)), only_id(oid(8)));
}

#[test]
fn save_replaces_by_primary_key_and_upserts() {
    let role = role();
    let write = role.save().unwrap();
    assert_eq!(write.collection, "member_roles");
    assert_eq!(write.filter, only_id(oid(3)));
    assert_eq!(write.replacement, role.to_document().unwrap());
    assert!(write.upsert);
    let write = membership().save().unwrap();
    assert_eq!(write.collection, "memberships");
    assert_eq!(write.filter, only_id(oid(2)));
}

#[test]
fn deleting_a_role_in_use_fails() {
    assert_eq!(role().delete(1).unwrap_err(), EntityError::ValidationFailed);
    assert_eq!(role().delete(25).unwrap_err(), EntityError::ValidationFailed);
    assert_eq!(role().delete(u64::MAX).unwrap_err(), EntityError::ValidationFailed);
    assert_eq!(role().before_delete(1), Err(EntityError::ValidationFailed));
}

#[test]
fn deleting_an_unused_role_succeeds() {
    let removal = role().delete(0).unwrap();
    assert_eq!(removal.collection, "member_roles");
    assert_eq!(removal.filter, only_id(oid(3)));
    assert_eq!(role().before_delete(0), Ok(()));
}

#[test]
fn other_records_go_whatever_refers_to_them() {
    let removal = membership().delete(0).unwrap();
    assert_eq!(removal.collection, "memberships");
    assert_eq!(removal.filter, only_id(oid(2)));
    assert!(membership().delete(7).is_ok());
    let user = User::new(1, "Ada".to_owned(), "Lovelace".to_owned(), "ada@uwblueprint.org".to_owned());
    let removal = user.delete(3).unwrap();
    assert_eq!(removal.collection, "users");
    assert_eq!(removal.filter, only_id(user.id));
}

#[test]
fn default_hooks_do_nothing() {
    assert_eq!(role().before_save(), Ok(()));
    assert_eq!(role().after_save(), Ok(()));
    assert_eq!(role().after_delete(), Ok(()));
    assert_eq!(membership().before_save(), Ok(()));
    assert_eq!(membership().before_delete(5), Ok(()));
    assert_eq!(membership().after_save(), Ok(()));
    assert_eq!(membership().after_delete(), Ok(()));
}

#[test]
fn role_in_use_is_found_by_its_memberships() {
    let query = role().memberships();
    let mut expected = Document::new();
    expected.insert("role.id", Bson::ObjectId(raw(oid(3))));
    assert_eq!(query.conditions, expected);
}
