use bson::{Bson, Document};
use lattice::date::{Date, DateScalar};
use lattice::global_id::{GlobalId, ObjectType};
use lattice::graph::{
    expect_id, viewer_query, with_identity, with_viewer, BuildQueries, CreateMemberRoleInput,
    CreateMembershipInput, MembershipMutations, MembershipQueries, Mutation, OptionExt, Query,
    RegisterUserInput, ResultExt, ServerError, UpdateMemberRoleInput, UpdateMembershipInput,
    UpdateUserInput, UserMutations, UserQueries,
};
use lattice::identity::{Claims, Identity};
use lattice::membership::{MemberRole, Membership};
use lattice::node_id::NodeId;
use lattice::object_id::{ObjectId, ObjectRef};
use lattice::user::User;

fn oid(last: u8) -> ObjectId {
    ObjectId::from_bytes([1, 2, 3, 4, 5, 6, 7, 8, 9, 10, 11, last])
}

fn node(last: u8, object_type: ObjectType) -> NodeId {
    NodeId(GlobalId::new(oid(last), object_type))
}

fn claims(email: &str) -> Claims {
    Claims {
        exp: 2,
        iat: 1,
        aud: "project".to_owned(),
        iss: "issuer".to_owned(),
        sub: "subject".to_owned(),
        user_id: "subject".to_owned(),
        email: email.to_owned(),
        email_verified: true,
    }
}

fn user(last: u8) -> User {
    User {
        id: oid(last),
        created_at: 100,
        updated_at: 200,
        first_name: "Ada".to_owned(),
        last_name: "Lovelace".to_owned(),
        email: "ada@uwblueprint.org".to_owned(),
        phone: Some("555-0100".to_owned()),
        photo_url: None,
        website_url: Some("https://example.org".to_owned()),
        twitter_handle: Some("@ada".to_owned()),
        instagram_handle: None,
        bio: Some("First programmer".to_owned()),
    }
}

fn role(last: u8) -> MemberRole {
    MemberRole {
        id: oid(last),
        created_at: 1,
        updated_at: 2,
        name: "Developer".to_owned(),
        description: "Writes the code".to_owned(),
    }
}

fn membership(last: u8, user: u8) -> Membership {
    Membership {
        id: oid(last),
        created_at: 1,
        updated_at: 2,
        user: ObjectRef::new(oid(user)),
        role: ObjectRef::new(oid(30)),
        start: Date { days: 10 },
        end: Date { days: 20 },
    }
}

fn message<T>(out: Result<T, ServerError>) -> String {
    match out {
        Ok(_) => panic!("expected a refusal"),
        Err(error) => error.message,
    }
}

#[test]
fn roots_hold_their_parts() {
    assert_eq!(Query::new(), Query(BuildQueries, UserQueries, MembershipQueries));
    assert_eq!(Mutation::new(), Mutation(UserMutations, MembershipMutations));
}

#[test]
fn ensure_turns_nothing_into_a_refusal() {
    assert_eq!(Some(5).ensure("missing").unwrap(), 5);
    assert_eq!(message(None::<u8>.ensure("missing")), "missing");
    assert_eq!(ServerError::new("not found").message, "not found");
}

#[test]
fn extend_puts_the_context_first() {
    let ok: Result<u8, ServerError> = Ok(3);
    assert_eq!(ok.extend("failed to count").unwrap(), 3);
    let failed: Result<u8, ServerError> = Err(ServerError::new("store unreachable"));
    assert_eq!(message(failed.extend("failed to count")), "failed to count: store unreachable");
    let empty: Result<u8, ServerError> = Err(ServerError::new(""));
    assert_eq!(message(empty.extend("")), ": ");
}

#[test]
fn full_name_joins_first_and_last() {
    assert_eq!(user(1).full_name(), "Ada Lovelace");
    let mut user = user(1);
    user.first_name = String::new();
    assert_eq!(user.full_name(), " Lovelace");
}

#[test]
fn with_identity_needs_an_identity() {
    let identity = Identity::new(claims("ada@uwblueprint.org"));
    assert_eq!(with_identity(Some(&identity)).unwrap().email, "ada@uwblueprint.org");
    assert_eq!(message(with_identity(None)), "not authorized");
}

#[test]
fn viewer_is_looked_up_by_address() {
    let mut expected = Document::new();
    expected.insert("email", "ada@uwblueprint.org");
    assert_eq!(viewer_query(&claims("ada@uwblueprint.org")).conditions, expected);
    let identity = Identity::new(claims("ada@uwblueprint.org"));
    assert_eq!(UserQueries.viewer(Some(&identity)).unwrap().conditions, expected);
    assert!(UserQueries.viewer(None).is_none());
}

#[test]
fn with_viewer_needs_a_record() {
    assert_eq!(with_viewer(Some(user(1))).unwrap().id.bytes, oid(1).bytes);
    assert_eq!(message(with_viewer(None)), "user not registered");
}

#[test]
fn users_query_searches_text() {
    let query = UserQueries.users(Some("ada".to_owned()));
    let mut inner = Document::new();
    inner.insert("$search", "ada");
    assert_eq!(query.conditions.get("$text"), Some(&Bson::Document(inner)));
    let sort = query.sort.unwrap();
    assert_eq!(sort.keys().cloned().collect::<Vec<_>>(), ["score"]);
    let query = UserQueries.users(None);
    assert_eq!(query.conditions, Document::new());
    assert_eq!(query.sort, None);
}

#[test]
fn expect_id_checks_the_type() {
    let id = expect_id::<User>(node(1, ObjectType::User), "invalid user ID").unwrap();
    assert_eq!(id.bytes, oid(1).bytes);
    assert_eq!(
        message(expect_id::<User>(node(1, ObjectType::Membership), "invalid user ID")),
        "invalid user ID"
    );
}

#[test]
fn registration_needs_the_organisations_domain() {
    let input = RegisterUserInput {
        first_name: "Eve".to_owned(),
        last_name: "Moneypenny".to_owned(),
        phone: None,
        photo_url: None,
    };
    for email in ["eve@example.org", "eve@uwblueprint.org.evil.com", "uwblueprint.org", ""] {
        let out = UserMutations.register_user(&claims(email), None, input.clone(), 5);
        assert_eq!(message(out), "invalid email domain");
    }
}

#[test]
fn registration_makes_a_new_record() {
    let input = RegisterUserInput {
        first_name: "Grace".to_owned(),
        last_name: "Hopper".to_owned(),
        phone: Some("555-0199".to_owned()),
        photo_url: Some("https://example.org/grace.png".to_owned()),
    };
    let (user, is_new) =
        UserMutations.register_user(&claims("grace@uwblueprint.org"), None, input, 77).unwrap();
    assert!(is_new);
    assert_eq!(user.first_name, "Grace");
    assert_eq!(user.last_name, "Hopper");
    assert_eq!(user.email, "grace@uwblueprint.org");
    assert_eq!(user.phone, Some("555-0199".to_owned()));
    assert_eq!(user.photo_url, Some("https://example.org/grace.png".to_owned()));
    assert_eq!((user.created_at, user.updated_at), (77, 77));
    assert_eq!(user.bio, None);
    assert_eq!(user.website_url, None);
}

#[test]
fn registration_again_keeps_the_record() {
    let input = RegisterUserInput {
        first_name: "Augusta".to_owned(),
        last_name: "King".to_owned(),
        phone: None,
        photo_url: Some("https://example.org/ada.png".to_owned()),
    };
    let existing = user(4);
    let (changed, is_new) = UserMutations
        .register_user(&claims("ada@uwblueprint.org"), Some(existing.clone()), input, 999)
        .unwrap();
    assert!(!is_new);
    assert_eq!(changed.id.bytes, existing.id.bytes);
    assert_eq!((changed.created_at, changed.updated_at), (100, 200));
    assert_eq!(changed.first_name, "Augusta");
    assert_eq!(changed.last_name, "King");
    assert_eq!(changed.phone, None);
    assert_eq!(changed.photo_url, Some("https://example.org/ada.png".to_owned()));
    assert_eq!(changed.website_url, existing.website_url);
    assert_eq!(changed.twitter_handle, existing.twitter_handle);
    assert_eq!(changed.bio, existing.bio);
}

fn update_input(id: NodeId) -> UpdateUserInput {
    UpdateUserInput {
        user_id: id,
        website_url: None,
        twitter_handle: Some("@countess".to_owned()),
        instagram_handle: Some("ada.l".to_owned()),
        bio: None,
    }
}

#[test]
fn update_user_changes_the_callers_record() {
    let viewer = user(1);
    let changed =
        UserMutations.update_user(viewer.clone(), update_input(node(1, ObjectType::User))).unwrap();
    assert_eq!(changed.id.bytes, viewer.id.bytes);
    assert_eq!(changed.first_name, viewer.first_name);
    assert_eq!(changed.email, viewer.email);
    assert_eq!(changed.phone, viewer.phone);
    assert_eq!(changed.website_url, None);
    assert_eq!(changed.twitter_handle, Some("@countess".to_owned()));
    assert_eq!(changed.instagram_handle, Some("ada.l".to_owned()));
    assert_eq!(changed.bio, None);
    assert_eq!((changed.created_at, changed.updated_at), (100, 200));
}

#[test]
fn update_user_refuses_other_records() {
    let out = UserMutations.update_user(user(1), update_input(node(2, ObjectType::User)));
    assert_eq!(message(out), "not authorized");
    let out = UserMutations.update_user(user(1), update_input(node(1, ObjectType::MemberRole)));
    assert_eq!(message(out), "invalid user ID");
}

#[test]
fn member_roles_query_is_for_all() {
    let query = MembershipQueries.member_roles();
    assert_eq!(query.conditions, Document::new());
    assert_eq!(query.sort, None);
    assert_eq!((query.skip, query.limit), (None, None));
}

#[test]
fn member_role_is_created_and_updated() {
    let input = CreateMemberRoleInput { name: "Lead".to_owned(), description: "Leads".to_owned() };
    let made = MembershipMutations.create_member_role(input, 11);
    assert_eq!(made.name, "Lead");
    assert_eq!(made.description, "Leads");
    assert_eq!((made.created_at, made.updated_at), (11, 11));
    let input = UpdateMemberRoleInput {
        role_id: node(3, ObjectType::MemberRole),
        name: "Engineer".to_owned(),
        description: "Builds".to_owned(),
    };
    let changed = MembershipMutations.update_member_role(Some(role(3)), input.clone()).unwrap();
    assert_eq!(changed.id.bytes, oid(3).bytes);
    assert_eq!(changed.name, "Engineer");
    assert_eq!(changed.description, "Builds");
    assert_eq!((changed.created_at, changed.updated_at), (1, 2));
    assert_eq!(message(MembershipMutations.update_member_role(None, input)), "member role not found");
}

#[test]
fn member_role_in_use_stays() {
    let out = MembershipMutations.delete_member_role(Some(role(3)), 2);
    assert_eq!(message(out), "failed to delete member role: member role currently in use");
    let out = MembershipMutations.delete_member_role(None, 0);
    assert_eq!(message(out), "member role not found");
}

#[test]
fn unused_member_role_goes() {
    let (removal, id) = MembershipMutations.delete_member_role(Some(role(3)), 0).unwrap();
    assert_eq!(removal.collection, "member_roles");
    assert_eq!(removal.filter.len(), 1);
    assert_eq!(
        removal.filter.get("_id"),
        Some(&Bson::ObjectId(bson::oid::ObjectId::from_bytes(oid(3).bytes)))
    );
    assert_eq!(id.0.to_text(), "MemberRole:0102030405060708090a0b03");
}

fn create_input(user: NodeId, role: NodeId) -> CreateMembershipInput {
    CreateMembershipInput {
        user_id: user,
        role_id: role,
        start: DateScalar(Date { days: 100 }),
        end: DateScalar(Date { days: 200 }),
    }
}

#[test]
fn membership_is_created_for_the_caller() {
    let viewer = user(1);
    let input = create_input(node(1, ObjectType::User), node(30, ObjectType::MemberRole));
    let made = MembershipMutations.create_membership(&viewer, input, 55).unwrap();
    assert_eq!(made.user.id.bytes, oid(1).bytes);
    assert_eq!(made.role.id.bytes, oid(30).bytes);
    assert_eq!(made.start, Date { days: 100 });
    assert_eq!(made.end, Date { days: 200 });
    assert_eq!((made.created_at, made.updated_at), (55, 55));
}

#[test]
fn membership_is_not_created_for_others() {
    let viewer = user(1);
    let input = create_input(node(2, ObjectType::User), node(30, ObjectType::MemberRole));
    assert_eq!(message(MembershipMutations.create_membership(&viewer, input, 55)), "not authorized");
    let input = create_input(node(1, ObjectType::Membership), node(30, ObjectType::MemberRole));
    assert_eq!(message(MembershipMutations.create_membership(&viewer, input, 55)), "invalid user ID");
    let input = create_input(node(1, ObjectType::User), node(30, ObjectType::User));
    assert_eq!(
        message(MembershipMutations.create_membership(&viewer, input, 55)),
        "invalid member role ID"
    );
    let input = create_input(node(2, ObjectType::Membership), node(30, ObjectType::User));
    assert_eq!(message(MembershipMutations.create_membership(&viewer, input, 55)), "invalid user ID");
}

fn change_input(role: NodeId) -> UpdateMembershipInput {
    UpdateMembershipInput {
        membership_id: node(9, ObjectType::Membership),
        role_id: role,
        start: DateScalar(Date { days: 1 }),
        end: DateScalar(Date { days: 2 }),
    }
}

#[test]
fn membership_is_updated_by_its_holder() {
    let viewer = user(1);
    let changed = MembershipMutations
        .update_membership(&viewer, Some(membership(9, 1)), change_input(node(31, ObjectType::MemberRole)))
        .unwrap();
    assert_eq!(changed.id.bytes, oid(9).bytes);
    assert_eq!(changed.user.id.bytes, oid(1).bytes);
    assert_eq!(changed.role.id.bytes, oid(31).bytes);
    assert_eq!(changed.start, Date { days: 1 });
    assert_eq!(changed.end, Date { days: 2 });
    assert_eq!((changed.created_at, changed.updated_at), (1, 2));
}

#[test]
fn membership_is_not_updated_by_others() {
    let viewer = user(1);
    let role = node(31, ObjectType::MemberRole);
    let out = MembershipMutations.update_membership(&viewer, Some(membership(9, 2)), change_input(role));
    assert_eq!(message(out), "not authorized");
    let out = MembershipMutations.update_membership(&viewer, None, change_input(role));
    assert_eq!(message(out), "membership not found");
    let out = MembershipMutations.update_membership(
        &viewer,
        Some(membership(9, 1)),
        change_input(node(31, ObjectType::User)),
    );
    assert_eq!(message(out), "invalid role ID");
    let out = MembershipMutations.update_membership(
        &viewer,
        Some(membership(9, 2)),
        change_input(node(31, ObjectType::User)),
    );
    assert_eq!(message(out), "invalid role ID");
}

#[test]
fn membership_is_deleted_by_its_identifier() {
    let (removal, id) = MembershipMutations.delete_membership(Some(membership(9, 1))).unwrap();
    assert_eq!(removal.collection, "memberships");
    assert_eq!(removal.filter.len(), 1);
    assert_eq!(
        removal.filter.get("_id"),
        Some(&Bson::ObjectId(bson::oid::ObjectId::from_bytes(oid(9).bytes)))
    );
    assert_eq!(id.0.to_text(), "Membership:0102030405060708090a0b09");
    assert_eq!(message(MembershipMutations.delete_membership(None)), "membership not found");
}
