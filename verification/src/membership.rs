//! Roles that users can hold, and the records of who held which role
//! when.

use crate::codec::{
    failure, only_fields, only_named, or_later, put_date, put_reference, read_date, read_id,
    read_instant, read_reference, read_text, reference_value, want_date, want_id, want_instant,
    want_reference, want_text, CodecError,
};
use crate::date::{lemma_day_of_start, start_of, Date};
use crate::document::{doc_insert, doc_new, fields, key_order, no_fields, Datum, FieldValue};
use crate::entity::{filter, find, Entity, EntityError, Object};
use crate::global_id::ObjectType;
use crate::object_id::{ObjectId, ObjectRef};
use crate::query::{sorting_number, FindOneQuery, FindQuery, SortingOrder};
use crate::user::User;
use bson::Document;
use vstd::prelude::*;

verus! {

/// The record that a user holds a role from one date to another.
#[derive(Clone, Debug)]
pub struct Membership {
    pub id: ObjectId,
    /// When the record was created, in milliseconds since the epoch.
    pub created_at: i64,
    /// When the record was last changed, in milliseconds since the epoch.
    pub updated_at: i64,
    pub user: ObjectRef,
    pub role: ObjectRef,
    pub start: Date,
    pub end: Date,
}

/// What a membership record holds.
pub struct MembershipView {
    pub id: Seq<u8>,
    pub created_at: int,
    pub updated_at: int,
    pub user: Seq<u8>,
    pub role: Seq<u8>,
    /// Days since the epoch.
    pub start: int,
    /// Days since the epoch.
    pub end: int,
}

impl View for Membership {
    type V = MembershipView;

    open spec fn view(&self) -> MembershipView {
        MembershipView {
            id: self.id@,
            created_at: self.created_at as int,
            updated_at: self.updated_at as int,
            user: self.user.id@,
            role: self.role.id@,
            start: self.start.days as int,
            end: self.end.days as int,
        }
    }
}

/// The names of a membership document's fields.
pub open spec fn membership_field_names() -> Seq<Seq<char>> {
    seq!["_id"@, "created_at"@, "updated_at"@, "user"@, "role"@, "start"@, "end"@]
}

/// The fields of the document that stands for a membership.
pub open spec fn membership_fields(v: MembershipView) -> Map<Seq<char>, Datum> {
    no_fields().insert("_id"@, Datum::Id(v.id)).insert(
        "created_at"@,
        Datum::Instant(v.created_at),
    ).insert("updated_at"@, Datum::Instant(v.updated_at)).insert(
        "user"@,
        reference_value(v.user),
    ).insert("role"@, reference_value(v.role)).insert(
        "start"@,
        Datum::Instant(start_of(v.start)),
    ).insert("end"@, Datum::Instant(start_of(v.end)))
}

/// The first failure among a membership document's fields, taken in the
/// order of the schema.
pub open spec fn membership_failure(m: Map<Seq<char>, Datum>) -> Option<CodecError> {
    let e = failure(want_id(m, "_id"@));
    let e = or_later(e, failure(want_instant(m, "created_at"@)));
    let e = or_later(e, failure(want_instant(m, "updated_at"@)));
    let e = or_later(e, failure(want_reference(m, "user"@)));
    let e = or_later(e, failure(want_reference(m, "role"@)));
    let e = or_later(e, failure(want_date(m, "start"@)));
    or_later(e, failure(want_date(m, "end"@)))
}

/// The membership that a document stands for. A field that the schema does
/// not know refuses the document; so does the first field, in the order of
/// the schema, that is missing or holds the wrong kind of value.
pub open spec fn membership_decoded(m: Map<Seq<char>, Datum>, order: Seq<Seq<char>>) -> Result<
    MembershipView,
    CodecError,
> {
    if !only_named(order, membership_field_names()) {
        Err(CodecError::Decode)
    } else {
        match membership_failure(m) {
            Some(e) => Err(e),
            None => Ok(
                MembershipView {
                    id: want_id(m, "_id"@).unwrap(),
                    created_at: want_instant(m, "created_at"@).unwrap(),
                    updated_at: want_instant(m, "updated_at"@).unwrap(),
                    user: want_reference(m, "user"@).unwrap(),
                    role: want_reference(m, "role"@).unwrap(),
                    start: want_date(m, "start"@).unwrap(),
                    end: want_date(m, "end"@).unwrap(),
                },
            ),
        }
    }
}

/// The names of a membership document's fields differ from each other.
pub proof fn lemma_membership_field_names()
    ensures
        membership_field_names().no_duplicates(),
        membership_field_names().len() == 7,
{
    reveal_strlit("_id");
    reveal_strlit("created_at");
    reveal_strlit("updated_at");
    reveal_strlit("user");
    reveal_strlit("role");
    reveal_strlit("start");
    reveal_strlit("end");
    let names = membership_field_names();
    assert(names[0] == "_id"@ && names[1] == "created_at"@ && names[2] == "updated_at"@
        && names[3] == "user"@ && names[4] == "role"@ && names[5] == "start"@ && names[6]
        == "end"@);
    assert("created_at"@[0] != "updated_at"@[0]);
    assert("user"@[0] != "role"@[0]);
    assert("_id"@[0] != "end"@[0]);
    assert forall|i: int, j: int| 0 <= i < names.len() && 0 <= j < names.len() && i != j implies names[i]
        != names[j] by {
        assert(names[i].len() == names[j].len() ==> names[i][0] != names[j][0]);
    }
}

impl Membership {
    /// A new membership of the user in the role, created and last changed
    /// at `now`, with a newly made identifier.
    pub fn new(now: i64, user: ObjectRef, role: ObjectRef, start: Date, end: Date) -> (out:
        Membership)
        ensures
            out.created_at == now,
            out.updated_at == now,
            out.user == user,
            out.role == role,
            out.start == start,
            out.end == end,
    {
        Membership {
            id: ObjectId::generate(),
            created_at: now,
            updated_at: now,
            user,
            role,
            start,
            end,
        }
    }

    /// A lookup of the user who holds the membership.
    pub fn user(&self) -> (out: FindOneQuery<User>)
        ensures
            crate::entity::is_id_filter(out.conditions, self.user.id@),
    {
        find(&self.user.id)
    }

    /// A lookup of the role that the membership is in.
    pub fn role(&self) -> (out: FindOneQuery<MemberRole>)
        ensures
            crate::entity::is_id_filter(out.conditions, self.role.id@),
    {
        find(&self.role.id)
    }
}

impl Object for Membership {
    open spec fn kind() -> ObjectType {
        ObjectType::Membership
    }

    open spec fn id(&self) -> Seq<u8> {
        self.id@
    }

    open spec fn encoded(v: MembershipView) -> Map<Seq<char>, Datum> {
        membership_fields(v)
    }

    open spec fn field_names() -> Seq<Seq<char>> {
        membership_field_names()
    }

    open spec fn decoded(m: Map<Seq<char>, Datum>, order: Seq<Seq<char>>) -> Result<
        MembershipView,
        CodecError,
    > {
        membership_decoded(m, order)
    }

    fn object_type() -> (t: ObjectType) {
        ObjectType::Membership
    }

    fn object_id(&self) -> (id: ObjectId) {
        self.id
    }

    fn to_document(&self) -> (out: Result<Document, CodecError>) {
        proof {
            lemma_membership_field_names();
        }
        let mut doc = doc_new();
        doc_insert(&mut doc, "_id", FieldValue::Id(self.id));
        doc_insert(&mut doc, "created_at", FieldValue::Instant(self.created_at));
        doc_insert(&mut doc, "updated_at", FieldValue::Instant(self.updated_at));
        put_reference(&mut doc, "user", self.user.id);
        put_reference(&mut doc, "role", self.role.id);
        put_date(&mut doc, "start", self.start);
        put_date(&mut doc, "end", self.end);
        proof {
            let names = membership_field_names();
            assert(forall|i: int, j: int|
                0 <= i < names.len() && 0 <= j < names.len() && i != j ==> names[i] != names[j]);
            assert(names[0] == "_id"@ && names[1] == "created_at"@ && names[2] == "updated_at"@
                && names[3] == "user"@ && names[4] == "role"@ && names[5] == "start"@ && names[6]
                == "end"@);
            assert(key_order(doc) =~= names);
        }
        Ok(doc)
    }

    fn from_document(doc: Document) -> (out: Result<Membership, CodecError>) {
        let names = vec!["_id", "created_at", "updated_at", "user", "role", "start", "end"];
        assert(names@.map_values(|s: &'static str| s@) =~= membership_field_names());
        if !only_fields(&doc, &names) {
            return Err(CodecError::Decode);
        }
        let id = read_id(&doc, "_id")?;
        let created_at = read_instant(&doc, "created_at")?;
        let updated_at = read_instant(&doc, "updated_at")?;
        let user = read_reference(&doc, "user")?;
        let role = read_reference(&doc, "role")?;
        let start = read_date(&doc, "start")?;
        let end = read_date(&doc, "end")?;
        Ok(
            Membership {
                id,
                created_at,
                updated_at,
                user: ObjectRef { id: user },
                role: ObjectRef { id: role },
                start,
                end,
            },
        )
    }

    proof fn lemma_round_trip(&self) {
        let v = self@;
        lemma_membership_field_names();
        lemma_day_of_start(v.start);
        lemma_day_of_start(v.end);
        let names = membership_field_names();
        let m = membership_fields(v);
        assert(forall|i: int, j: int|
            0 <= i < names.len() && 0 <= j < names.len() && i != j ==> names[i] != names[j]);
        assert(names[0] == "_id"@ && names[1] == "created_at"@ && names[2] == "updated_at"@
            && names[3] == "user"@ && names[4] == "role"@ && names[5] == "start"@ && names[6]
            == "end"@);
        assert(only_named(names, names)) by {
            assert forall|i: int| 0 <= i < names.len() implies names.contains(
                #[trigger] names[i],
            ) by {}
        }
        assert(membership_failure(m) is None);
        assert(membership_decoded(m, names).unwrap() == v);
    }

    proof fn lemma_identified(&self) {
        lemma_membership_field_names();
        let names = Self::field_names();
        assert(forall|i: int| 1 <= i < names.len() ==> #[trigger] names[i] != names[0]);
        assert(names[0] == "_id"@);
    }
}

impl Entity for Membership {
    open spec fn stored_in() -> Seq<char> {
        "memberships"@
    }

    open spec fn savable(&self) -> bool {
        true
    }

    open spec fn deletable(&self, references: nat) -> bool {
        true
    }

    fn collection_name() -> (name: &'static str) {
        "memberships"
    }

    fn before_save(&self) -> (out: Result<(), EntityError>) {
        Ok(())
    }

    /// Nothing is left to do once a record of this schema is written.
    fn after_save(&self) -> (out: Result<(), EntityError>)
        ensures
            out == Ok::<(), EntityError>(()),
    {
        Ok(())
    }

    fn before_delete(&self, references: u64) -> (out: Result<(), EntityError>) {
        Ok(())
    }

    /// Nothing is left to do once a record of this schema is removed.
    fn after_delete(&self) -> (out: Result<(), EntityError>)
        ensures
            out == Ok::<(), EntityError>(()),
    {
        Ok(())
    }
}

/// What to look for among the memberships: a user, a role, both or
/// neither. What is left out limits nothing.
#[derive(Clone, Copy, Debug)]
pub struct MembershipConditions {
    pub user: Option<ObjectRef>,
    pub role: Option<ObjectRef>,
}

/// The fields of the filter that stands for conditions on memberships.
pub open spec fn membership_filter_fields(c: MembershipConditions) -> Map<Seq<char>, Datum> {
    let m = match c.user {
        Some(user) => no_fields().insert("user.id"@, Datum::Id(user.id@)),
        None => no_fields(),
    };
    match c.role {
        Some(role) => m.insert("role.id"@, Datum::Id(role.id@)),
        None => m,
    }
}

/// The names of those fields, in the filter's order.
pub open spec fn membership_filter_names(c: MembershipConditions) -> Seq<Seq<char>> {
    let names = match c.user {
        Some(_) => seq!["user.id"@],
        None => Seq::empty(),
    };
    match c.role {
        Some(_) => names.push("role.id"@),
        None => names,
    }
}

impl MembershipConditions {
    /// The filter that stands for the conditions: the user's identifier
    /// under `user.id` and the role's under `role.id`, each where it is given.
    pub fn to_document(&self) -> (out: Document)
        ensures
            fields(out) == membership_filter_fields(*self),
            key_order(out) == membership_filter_names(*self),
            !crate::query::searches_text(out),
    {
        proof {
            reveal_strlit("user.id");
            reveal_strlit("role.id");
            reveal_strlit("$text");
        }
        let mut doc = doc_new();
        match self.user {
            Some(user) => {
                doc_insert(&mut doc, "user.id", FieldValue::Id(user.id));
            },
            None => {},
        }
        match self.role {
            Some(role) => {
                doc_insert(&mut doc, "role.id", FieldValue::Id(role.id));
            },
            None => {},
        }
        proof {
            assert("user.id"@[0] != "role.id"@[0]);
            assert("user.id"@[0] != "$text"@[0]);
            assert("role.id"@[0] != "$text"@[0]);
            assert(key_order(doc) =~= membership_filter_names(*self));
        }
        doc
    }
}

/// An order among memberships: by start or by end.
#[derive(Clone, Copy, Debug)]
pub enum MembershipSorting {
    Start(SortingOrder),
    End(SortingOrder),
}

impl MembershipSorting {
    /// The sort that stands for the order: the direction under `start` or
    /// under `end`.
    pub fn to_document(&self) -> (out: Document)
        ensures
            fields(out) == match *self {
                MembershipSorting::Start(order) => no_fields().insert(
                    "start"@,
                    Datum::Int32(sorting_number(order)),
                ),
                MembershipSorting::End(order) => no_fields().insert(
                    "end"@,
                    Datum::Int32(sorting_number(order)),
                ),
            },
            key_order(out) == match *self {
                MembershipSorting::Start(_) => seq!["start"@],
                MembershipSorting::End(_) => seq!["end"@],
            },
    {
        let mut doc = doc_new();
        match self {
            MembershipSorting::Start(order) => {
                doc_insert(&mut doc, "start", order.to_value());
                assert(key_order(doc) =~= seq!["start"@]);
            },
            MembershipSorting::End(order) => {
                doc_insert(&mut doc, "end", order.to_value());
                assert(key_order(doc) =~= seq!["end"@]);
            },
        }
        doc
    }
}

/// A role that members can hold.
#[derive(Clone, Debug)]
pub struct MemberRole {
    pub id: ObjectId,
    /// When the record was created, in milliseconds since the epoch.
    pub created_at: i64,
    /// When the record was last changed, in milliseconds since the epoch.
    pub updated_at: i64,
    pub name: String,
    pub description: String,
}

/// What a role record holds.
pub struct MemberRoleView {
    pub id: Seq<u8>,
    pub created_at: int,
    pub updated_at: int,
    pub name: Seq<char>,
    pub description: Seq<char>,
}

impl View for MemberRole {
    type V = MemberRoleView;

    open spec fn view(&self) -> MemberRoleView {
        MemberRoleView {
            id: self.id@,
            created_at: self.created_at as int,
            updated_at: self.updated_at as int,
            name: self.name@,
            description: self.description@,
        }
    }
}

/// The names of a role document's fields.
pub open spec fn role_field_names() -> Seq<Seq<char>> {
    seq!["_id"@, "created_at"@, "updated_at"@, "name"@, "description"@]
}

/// The fields of the document that stands for a role.
pub open spec fn role_fields(v: MemberRoleView) -> Map<Seq<char>, Datum> {
    no_fields().insert("_id"@, Datum::Id(v.id)).insert(
        "created_at"@,
        Datum::Instant(v.created_at),
    ).insert("updated_at"@, Datum::Instant(v.updated_at)).insert(
        "name"@,
        Datum::Text(v.name),
    ).insert("description"@, Datum::Text(v.description))
}

/// The first failure among a role document's fields, taken in the order of
/// the schema.
pub open spec fn role_failure(m: Map<Seq<char>, Datum>) -> Option<CodecError> {
    let e = failure(want_id(m, "_id"@));
    let e = or_later(e, failure(want_instant(m, "created_at"@)));
    let e = or_later(e, failure(want_instant(m, "updated_at"@)));
    let e = or_later(e, failure(want_text(m, "name"@)));
    or_later(e, failure(want_text(m, "description"@)))
}

/// The role that a document stands for. A field that the schema does not
/// know refuses the document; so does the first field, in the order of the
/// schema, that is missing or holds the wrong kind of value.
pub open spec fn role_decoded(m: Map<Seq<char>, Datum>, order: Seq<Seq<char>>) -> Result<
    MemberRoleView,
    CodecError,
> {
    if !only_named(order, role_field_names()) {
        Err(CodecError::Decode)
    } else {
        match role_failure(m) {
            Some(e) => Err(e),
            None => Ok(
                MemberRoleView {
                    id: want_id(m, "_id"@).unwrap(),
                    created_at: want_instant(m, "created_at"@).unwrap(),
                    updated_at: want_instant(m, "updated_at"@).unwrap(),
                    name: want_text(m, "name"@).unwrap(),
                    description: want_text(m, "description"@).unwrap(),
                },
            ),
        }
    }
}

/// The names of a role document's fields differ from each other.
pub proof fn lemma_role_field_names()
    ensures
        role_field_names().no_duplicates(),
        role_field_names().len() == 5,
{
    reveal_strlit("_id");
    reveal_strlit("created_at");
    reveal_strlit("updated_at");
    reveal_strlit("name");
    reveal_strlit("description");
    let names = role_field_names();
    assert(names[0] == "_id"@ && names[1] == "created_at"@ && names[2] == "updated_at"@
        && names[3] == "name"@ && names[4] == "description"@);
    assert("created_at"@[0] != "updated_at"@[0]);
    assert forall|i: int, j: int| 0 <= i < names.len() && 0 <= j < names.len() && i != j implies names[i]
        != names[j] by {
        assert(names[i].len() == names[j].len() ==> names[i][0] != names[j][0]);
    }
}

impl MemberRole {
    /// A new role with the given name and description, created and last
    /// changed at `now`, with a newly made identifier.
    pub fn new(now: i64, name: String, description: String) -> (out: MemberRole)
        ensures
            out.created_at == now,
            out.updated_at == now,
            out.name == name,
            out.description == description,
    {
        MemberRole { id: ObjectId::generate(), created_at: now, updated_at: now, name, description }
    }

    /// The query for the memberships that are in this role. Their number is
    /// what `delete` asks for.
    pub fn memberships(&self) -> (out: FindQuery<Membership>)
        ensures
            fields(out.conditions) == no_fields().insert("role.id"@, Datum::Id(self.id@)),
            key_order(out.conditions) == seq!["role.id"@],
            out.skip is None,
            out.limit is None,
            out.sort is None,
    {
        let conditions = MembershipConditions { user: None, role: Some(ObjectRef::new(self.id)) };
        let doc = conditions.to_document();
        assert(key_order(doc) =~= seq!["role.id"@]);
        filter(doc)
    }
}

impl Object for MemberRole {
    open spec fn kind() -> ObjectType {
        ObjectType::MemberRole
    }

    open spec fn id(&self) -> Seq<u8> {
        self.id@
    }

    open spec fn encoded(v: MemberRoleView) -> Map<Seq<char>, Datum> {
        role_fields(v)
    }

    open spec fn field_names() -> Seq<Seq<char>> {
        role_field_names()
    }

    open spec fn decoded(m: Map<Seq<char>, Datum>, order: Seq<Seq<char>>) -> Result<
        MemberRoleView,
        CodecError,
    > {
        role_decoded(m, order)
    }

    fn object_type() -> (t: ObjectType) {
        ObjectType::MemberRole
    }

    fn object_id(&self) -> (id: ObjectId) {
        self.id
    }

    fn to_document(&self) -> (out: Result<Document, CodecError>) {
        proof {
            lemma_role_field_names();
        }
        let mut doc = doc_new();
        doc_insert(&mut doc, "_id", FieldValue::Id(self.id));
        doc_insert(&mut doc, "created_at", FieldValue::Instant(self.created_at));
        doc_insert(&mut doc, "updated_at", FieldValue::Instant(self.updated_at));
        doc_insert(&mut doc, "name", FieldValue::Text(self.name.clone()));
        doc_insert(&mut doc, "description", FieldValue::Text(self.description.clone()));
        proof {
            let names = role_field_names();
            assert(forall|i: int, j: int|
                0 <= i < names.len() && 0 <= j < names.len() && i != j ==> names[i] != names[j]);
            assert(names[0] == "_id"@ && names[1] == "created_at"@ && names[2] == "updated_at"@
                && names[3] == "name"@ && names[4] == "description"@);
            assert(key_order(doc) =~= names);
        }
        Ok(doc)
    }

    fn from_document(doc: Document) -> (out: Result<MemberRole, CodecError>) {
        let names = vec!["_id", "created_at", "updated_at", "name", "description"];
        assert(names@.map_values(|s: &'static str| s@) =~= role_field_names());
        if !only_fields(&doc, &names) {
            return Err(CodecError::Decode);
        }
        let id = read_id(&doc, "_id")?;
        let created_at = read_instant(&doc, "created_at")?;
        let updated_at = read_instant(&doc, "updated_at")?;
        let name = read_text(&doc, "name")?;
        let description = read_text(&doc, "description")?;
        Ok(MemberRole { id, created_at, updated_at, name, description })
    }

    proof fn lemma_round_trip(&self) {
        let v = self@;
        lemma_role_field_names();
        let names = role_field_names();
        let m = role_fields(v);
        assert(forall|i: int, j: int|
            0 <= i < names.len() && 0 <= j < names.len() && i != j ==> names[i] != names[j]);
        assert(names[0] == "_id"@ && names[1] == "created_at"@ && names[2] == "updated_at"@
            && names[3] == "name"@ && names[4] == "description"@);
        assert(only_named(names, names)) by {
            assert forall|i: int| 0 <= i < names.len() implies names.contains(
                #[trigger] names[i],
            ) by {}
        }
        assert(role_failure(m) is None);
        assert(role_decoded(m, names).unwrap() == v);
    }

    proof fn lemma_identified(&self) {
        lemma_role_field_names();
        let names = Self::field_names();
        assert(forall|i: int| 1 <= i < names.len() ==> #[trigger] names[i] != names[0]);
        assert(names[0] == "_id"@);
    }
}

impl Entity for MemberRole {
    open spec fn stored_in() -> Seq<char> {
        "member_roles"@
    }

    open spec fn savable(&self) -> bool {
        true
    }

    /// A role can go only while no membership is in it.
    open spec fn deletable(&self, references: nat) -> bool {
        references == 0
    }

    fn collection_name() -> (name: &'static str) {
        "member_roles"
    }

    fn before_save(&self) -> (out: Result<(), EntityError>) {
        Ok(())
    }

    /// Nothing is left to do once a record of this schema is written.
    fn after_save(&self) -> (out: Result<(), EntityError>)
        ensures
            out == Ok::<(), EntityError>(()),
    {
        Ok(())
    }

    /// Refuses the removal of a role that memberships are in:
    /// `references` is the number of memberships that
    /// [`MemberRole::memberships`] finds.
    fn before_delete(&self, references: u64) -> (out: Result<(), EntityError>) {
        if references > 0 {
            Err(EntityError::ValidationFailed)
        } else {
            Ok(())
        }
    }

    /// Nothing is left to do once a record of this schema is removed.
    fn after_delete(&self) -> (out: Result<(), EntityError>)
        ensures
            out == Ok::<(), EntityError>(()),
    {
        Ok(())
    }
}

} // verus!
