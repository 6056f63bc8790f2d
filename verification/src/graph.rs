//! What the service's operations decide, apart from reaching the store:
//! who may do what, which record results, and which message a refusal
//! carries.

use crate::codec::optional_text;
use crate::date::DateScalar;
use crate::document::{fields, key_order, no_fields, Datum};
use crate::entity::{all, filter, is_id_filter, DeleteOne, Entity, Object};
use crate::identity::{Claims, Identity};
use crate::membership::{MemberRole, Membership};
use crate::node_id::NodeId;
use crate::object_id::{ObjectId, ObjectRef};
use crate::query::{FindOneQuery, FindQuery};
use crate::user::{user_filter_fields, User, UserConditions};
use vstd::prelude::*;
use vstd::string::*;

verus! {

/// A refusal as the client sees it.
#[derive(Clone, Debug)]
pub struct ServerError {
    pub message: String,
}

impl ServerError {
    /// The refusal with the given message.
    pub fn new(message: &str) -> (out: ServerError)
        ensures
            out.message@ == message@,
    {
        ServerError { message: message.to_owned() }
    }
}

/// Whether an outcome is the refusal with the given message.
pub open spec fn refused<T>(out: Result<T, ServerError>, message: Seq<char>) -> bool {
    out is Err && out->Err_0.message@ == message
}

/// Turning what may be missing into a refusal.
pub trait OptionExt<T> {
    /// The value, or the refusal with the given message where there is
    /// none.
    fn ensure(self, context: &str) -> (out: Result<T, ServerError>);
}

impl<T> OptionExt<T> for Option<T> {
    fn ensure(self, context: &str) -> (out: Result<T, ServerError>)
        ensures
            match self {
                Some(value) => out == Ok::<T, ServerError>(value),
                None => refused(out, context@),
            },
    {
        match self {
            Some(value) => Ok(value),
            None => Err(ServerError::new(context)),
        }
    }
}

/// Saying what was being done when something was refused.
pub trait ResultExt<T> {
    /// The outcome, with the refusal's message put behind the given
    /// context, a colon and a space.
    fn extend(self, context: &str) -> (out: Result<T, ServerError>);
}

impl<T> ResultExt<T> for Result<T, ServerError> {
    fn extend(self, context: &str) -> (out: Result<T, ServerError>)
        ensures
            match self {
                Ok(value) => out == Ok::<T, ServerError>(value),
                Err(error) => refused(out, context@ + ": "@ + error.message@),
            },
    {
        match self {
            Ok(value) => Ok(value),
            Err(error) => {
                let mut message = String::from_str(context);
                message.append(": ");
                message.append(error.message.as_str());
                Err(ServerError { message })
            },
        }
    }
}

/// The claims of the caller: a request without an identity is not
/// authorized.
pub fn with_identity<'a>(identity: Option<&'a Identity>) -> (out: Result<&'a Claims, ServerError>)
    ensures
        match identity {
            Some(identity) => out == Ok::<&Claims, ServerError>(&identity.claims),
            None => refused(out, "not authorized"@),
        },
{
    match identity {
        Some(identity) => Ok(identity.claims()),
        None => Err(ServerError::new("not authorized")),
    }
}

/// The lookup of the caller's own user record: by the address in the
/// caller's claims.
pub fn viewer_query(claims: &Claims) -> (out: FindOneQuery<User>)
    ensures
        fields(out.conditions) == no_fields().insert("email"@, Datum::Text(claims.email@)),
        key_order(out.conditions) == seq!["email"@],
{
    User::find_by_email(claims.email.as_str())
}

/// The caller's own user record, given what the lookup found: a caller
/// without a record is not registered.
pub fn with_viewer(found: Option<User>) -> (out: Result<User, ServerError>)
    ensures
        match found {
            Some(user) => out == Ok::<User, ServerError>(user),
            None => refused(out, "user not registered"@),
        },
{
    match found {
        Some(user) => Ok(user),
        None => Err(ServerError::new("user not registered")),
    }
}

/// `str::ends_with`: whether the text ends with the given text.
#[verifier::external_body]
fn ends_with(text: &str, suffix: &str) -> (out: bool)
    ensures
        out == suffix@.is_suffix_of(text@),
{
    text.ends_with(suffix)
}

/// The identifier in a client's reference, where the reference is to a
/// record of the schema `T`; the refusal with the given message otherwise.
pub fn expect_id<T: Object>(id: NodeId, message: &str) -> (out: Result<ObjectId, ServerError>)
    ensures
        match out {
            Ok(object_id) => id@.1 == T::kind() && object_id@ == id@.0,
            Err(e) => id@.1 != T::kind() && e.message@ == message@,
        },
{
    match id.get::<T>() {
        Some(object_id) => Ok(object_id),
        None => Err(ServerError::new(message)),
    }
}

/// Queries about the build.
#[derive(Clone, Copy, Debug, PartialEq, Eq, Structural)]
pub struct BuildQueries;

/// Queries about users.
#[derive(Clone, Copy, Debug, PartialEq, Eq, Structural)]
pub struct UserQueries;

/// Changes to users.
#[derive(Clone, Copy, Debug, PartialEq, Eq, Structural)]
pub struct UserMutations;

/// Queries about memberships and roles.
#[derive(Clone, Copy, Debug, PartialEq, Eq, Structural)]
pub struct MembershipQueries;

/// Changes to memberships and roles.
#[derive(Clone, Copy, Debug, PartialEq, Eq, Structural)]
pub struct MembershipMutations;

/// All queries of the service.
#[derive(Clone, Copy, Debug, PartialEq, Eq, Structural)]
pub struct Query(pub BuildQueries, pub UserQueries, pub MembershipQueries);

impl Query {
    /// All queries of the service.
    pub fn new() -> (out: Query)
        ensures
            out == Query(BuildQueries, UserQueries, MembershipQueries),
    {
        Query(BuildQueries, UserQueries, MembershipQueries)
    }
}

/// All changes that the service offers.
#[derive(Clone, Copy, Debug, PartialEq, Eq, Structural)]
pub struct Mutation(pub UserMutations, pub MembershipMutations);

impl Mutation {
    /// All changes that the service offers.
    pub fn new() -> (out: Mutation)
        ensures
            out == Mutation(UserMutations, MembershipMutations),
    {
        Mutation(UserMutations, MembershipMutations)
    }
}

impl UserQueries {
    /// The lookup of the caller's own record, or none for a caller without
    /// an identity.
    pub fn viewer(&self, identity: Option<&Identity>) -> (out: Option<FindOneQuery<User>>)
        ensures
            out is Some <==> identity is Some,
            out is Some ==> fields(out.unwrap().conditions) == no_fields().insert(
                "email"@,
                Datum::Text(identity.unwrap().claims.email@),
            ),
    {
        match identity {
            Some(identity) => Some(viewer_query(identity.claims())),
            None => None,
        }
    }

    /// The query for the users that match a free text, ranked by relevance,
    /// or for all users where no text is given.
    pub fn users(&self, query: Option<String>) -> (out: FindQuery<User>)
        ensures
            fields(out.conditions) == user_filter_fields(optional_text(query)),
            out.skip is None,
            out.limit is None,
            query is Some <==> out.sort is Some,
            out.sort is Some ==> crate::query::is_relevance_sort(out.sort.unwrap()),
    {
        let conditions = UserConditions { query };
        filter(conditions.to_document())
    }
}

/// What a caller gives to register.
#[derive(Clone, Debug)]
pub struct RegisterUserInput {
    pub first_name: String,
    pub last_name: String,
    pub phone: Option<String>,
    pub photo_url: Option<String>,
}

/// What a caller gives to change a user.
#[derive(Clone, Debug)]
pub struct UpdateUserInput {
    pub user_id: NodeId,
    pub website_url: Option<String>,
    pub twitter_handle: Option<String>,
    pub instagram_handle: Option<String>,
    pub bio: Option<String>,
}

/// Whether an address belongs to the organisation.
pub open spec fn in_domain(email: Seq<char>) -> bool {
    "@uwblueprint.org"@.is_suffix_of(email)
}

impl UserMutations {
    /// Registers the caller. Only addresses of the organisation may
    /// register. A caller who has a record keeps its identifier and its
    /// other fields and gets the given names, phone and photo; a caller
    /// without one gets a new record, made at `now`. The flag says whether
    /// the record is new.
    pub fn register_user(
        &self,
        claims: &Claims,
        existing: Option<User>,
        input: RegisterUserInput,
        now: i64,
    ) -> (out: Result<(User, bool), ServerError>)
        ensures
            !in_domain(claims.email@) ==> refused(out, "invalid email domain"@),
            in_domain(claims.email@) ==> out is Ok && {
                let (user, is_new) = out->Ok_0;
                &&& is_new == (existing is None)
                &&& user.first_name == input.first_name
                &&& user.last_name == input.last_name
                &&& user.email@ == claims.email@
                &&& user.phone == input.phone
                &&& user.photo_url == input.photo_url
                &&& match existing {
                    Some(old) => {
                        &&& user.id == old.id
                        &&& user.created_at == old.created_at
                        &&& user.updated_at == old.updated_at
                        &&& user.website_url == old.website_url
                        &&& user.twitter_handle == old.twitter_handle
                        &&& user.instagram_handle == old.instagram_handle
                        &&& user.bio == old.bio
                    },
                    None => {
                        &&& user.created_at == now
                        &&& user.updated_at == now
                        &&& user.website_url is None
                        &&& user.twitter_handle is None
                        &&& user.instagram_handle is None
                        &&& user.bio is None
                    },
                }
            },
    {
        if !ends_with(claims.email.as_str(), "@uwblueprint.org") {
            return Err(ServerError::new("invalid email domain"));
        }
        let is_new = existing.is_none();
        let user = match existing {
            Some(old) => User {
                id: old.id,
                created_at: old.created_at,
                updated_at: old.updated_at,
                first_name: input.first_name,
                last_name: input.last_name,
                email: claims.email.clone(),
                phone: input.phone,
                photo_url: input.photo_url,
                website_url: old.website_url,
                twitter_handle: old.twitter_handle,
                instagram_handle: old.instagram_handle,
                bio: old.bio,
            },
            None => {
                let mut user = User::new(now, input.first_name, input.last_name, claims.email.clone());
                user.phone = input.phone;
                user.photo_url = input.photo_url;
                user
            },
        };
        Ok((user, is_new))
    }

    /// Changes the caller's own record. The reference must be to a user,
    /// and to the caller: nobody changes another's record. The caller's
    /// record gets the given links and text and keeps everything else.
    pub fn update_user(&self, viewer: User, input: UpdateUserInput) -> (out: Result<
        User,
        ServerError,
    >)
        ensures
            input.user_id@.1 != User::kind() ==> refused(out, "invalid user ID"@),
            input.user_id@.1 == User::kind() && input.user_id@.0 != viewer.id@ ==> refused(
                out,
                "not authorized"@,
            ),
            input.user_id@.1 == User::kind() && input.user_id@.0 == viewer.id@ ==> out is Ok && {
                let user = out->Ok_0;
                &&& user.id == viewer.id
                &&& user.created_at == viewer.created_at
                &&& user.updated_at == viewer.updated_at
                &&& user.first_name == viewer.first_name
                &&& user.last_name == viewer.last_name
                &&& user.email == viewer.email
                &&& user.phone == viewer.phone
                &&& user.photo_url == viewer.photo_url
                &&& user.website_url == input.website_url
                &&& user.twitter_handle == input.twitter_handle
                &&& user.instagram_handle == input.instagram_handle
                &&& user.bio == input.bio
            },
    {
        let user_id = match expect_id::<User>(input.user_id, "invalid user ID") {
            Ok(id) => id,
            Err(e) => { return Err(e); },
        };
        if viewer.id != user_id {
            return Err(ServerError::new("not authorized"));
        }
        Ok(
            User {
                id: viewer.id,
                created_at: viewer.created_at,
                updated_at: viewer.updated_at,
                first_name: viewer.first_name,
                last_name: viewer.last_name,
                email: viewer.email,
                phone: viewer.phone,
                photo_url: viewer.photo_url,
                website_url: input.website_url,
                twitter_handle: input.twitter_handle,
                instagram_handle: input.instagram_handle,
                bio: input.bio,
            },
        )
    }
}

/// What a caller gives to make a role.
#[derive(Clone, Debug)]
pub struct CreateMemberRoleInput {
    pub name: String,
    pub description: String,
}

/// What a caller gives to change a role.
#[derive(Clone, Debug)]
pub struct UpdateMemberRoleInput {
    pub role_id: NodeId,
    pub name: String,
    pub description: String,
}

/// What a caller gives to make a membership.
#[derive(Clone, Copy, Debug)]
pub struct CreateMembershipInput {
    pub user_id: NodeId,
    pub role_id: NodeId,
    pub start: DateScalar,
    pub end: DateScalar,
}

/// What a caller gives to change a membership.
#[derive(Clone, Copy, Debug)]
pub struct UpdateMembershipInput {
    pub membership_id: NodeId,
    pub role_id: NodeId,
    pub start: DateScalar,
    pub end: DateScalar,
}

impl MembershipQueries {
    /// The query for all roles.
    pub fn member_roles(&self) -> (out: FindQuery<MemberRole>)
        ensures
            fields(out.conditions) == no_fields(),
            out.skip is None,
            out.limit is None,
            out.sort is None,
    {
        all()
    }
}

impl MembershipMutations {
    /// A new role with the given name and description, made at `now`.
    pub fn create_member_role(&self, input: CreateMemberRoleInput, now: i64) -> (out: MemberRole)
        ensures
            out.name == input.name,
            out.description == input.description,
            out.created_at == now,
            out.updated_at == now,
    {
        MemberRole::new(now, input.name, input.description)
    }

    /// The role with the given name and description in the place of the
    /// ones it had, given what the lookup of the role found.
    pub fn update_member_role(&self, found: Option<MemberRole>, input: UpdateMemberRoleInput) -> (out:
        Result<MemberRole, ServerError>)
        ensures
            match found {
                None => refused(out, "member role not found"@),
                Some(role) => out is Ok && {
                    let changed = out->Ok_0;
                    &&& changed.id == role.id
                    &&& changed.created_at == role.created_at
                    &&& changed.updated_at == role.updated_at
                    &&& changed.name == input.name
                    &&& changed.description == input.description
                },
            },
    {
        let role = match found.ensure("member role not found") {
            Ok(role) => role,
            Err(e) => { return Err(e); },
        };
        Ok(
            MemberRole {
                id: role.id,
                created_at: role.created_at,
                updated_at: role.updated_at,
                name: input.name,
                description: input.description,
            },
        )
    }

    /// Decides the removal of a role, given what the lookup of the role
    /// found and the number of memberships that are in it. A role that was
    /// not found cannot go, and neither can one that memberships are in.
    /// Otherwise the removal is keyed by the role's identifier alone.
    pub fn delete_member_role(&self, found: Option<MemberRole>, references: u64) -> (out: Result<
        (DeleteOne, NodeId),
        ServerError,
    >)
        ensures
            match found {
                None => refused(out, "member role not found"@),
                Some(role) => if references > 0 {
                    refused(
                        out,
                        "failed to delete member role"@ + ": "@ + "member role currently in use"@,
                    )
                } else {
                    &&& out is Ok
                    &&& is_id_filter(out->Ok_0.0.filter, role.id@)
                    &&& out->Ok_0.0.collection@ == "member_roles"@
                    &&& out->Ok_0.1@ == (role.id@, MemberRole::kind())
                },
            },
    {
        let role = match found.ensure("member role not found") {
            Ok(role) => role,
            Err(e) => { return Err(e); },
        };
        let removal = match role.delete(references) {
            Ok(removal) => Ok(removal),
            Err(_) => Err(ServerError::new("member role currently in use")),
        };
        match removal.extend("failed to delete member role") {
            Ok(removal) => Ok((removal, NodeId(crate::global_id::GlobalId::of(&role)))),
            Err(e) => Err(e),
        }
    }

    /// A new membership of the caller in a role, made at `now`. Both
    /// references must be of the right schema, and the user must be the
    /// caller: nobody enrols another.
    pub fn create_membership(&self, viewer: &User, input: CreateMembershipInput, now: i64) -> (out:
        Result<Membership, ServerError>)
        ensures
            input.user_id@.1 != User::kind() ==> refused(out, "invalid user ID"@),
            input.user_id@.1 == User::kind() && input.role_id@.1 != MemberRole::kind() ==> refused(
                out,
                "invalid member role ID"@,
            ),
            input.user_id@.1 == User::kind() && input.role_id@.1 == MemberRole::kind()
                && input.user_id@.0 != viewer.id@ ==> refused(out, "not authorized"@),
            input.user_id@.1 == User::kind() && input.role_id@.1 == MemberRole::kind()
                && input.user_id@.0 == viewer.id@ ==> out is Ok && {
                let membership = out->Ok_0;
                &&& membership.user.id@ == viewer.id@
                &&& membership.role.id@ == input.role_id@.0
                &&& membership.start == input.start.0
                &&& membership.end == input.end.0
                &&& membership.created_at == now
                &&& membership.updated_at == now
            },
    {
        let user_id = match expect_id::<User>(input.user_id, "invalid user ID") {
            Ok(id) => id,
            Err(e) => { return Err(e); },
        };
        let role_id = match expect_id::<MemberRole>(input.role_id, "invalid member role ID") {
            Ok(id) => id,
            Err(e) => { return Err(e); },
        };
        if viewer.id != user_id {
            return Err(ServerError::new("not authorized"));
        }
        Ok(
            Membership::new(
                now,
                ObjectRef::new(user_id),
                ObjectRef::new(role_id),
                input.start.0,
                input.end.0,
            ),
        )
    }

    /// The caller's membership with another role and other dates, given
    /// what the lookup of the membership found. The membership must exist
    /// and be the caller's own, and the role's reference must be to a role.
    pub fn update_membership(
        &self,
        viewer: &User,
        found: Option<Membership>,
        input: UpdateMembershipInput,
    ) -> (out: Result<Membership, ServerError>)
        ensures
            match found {
                None => refused(out, "membership not found"@),
                Some(membership) => if input.role_id@.1 != MemberRole::kind() {
                    refused(out, "invalid role ID"@)
                } else if membership.user.id@ != viewer.id@ {
                    refused(out, "not authorized"@)
                } else {
                    &&& out is Ok
                    &&& out->Ok_0.id == membership.id
                    &&& out->Ok_0.created_at == membership.created_at
                    &&& out->Ok_0.updated_at == membership.updated_at
                    &&& out->Ok_0.user == membership.user
                    &&& out->Ok_0.role.id@ == input.role_id@.0
                    &&& out->Ok_0.start == input.start.0
                    &&& out->Ok_0.end == input.end.0
                },
            },
    {
        let membership = match found.ensure("membership not found") {
            Ok(membership) => membership,
            Err(e) => { return Err(e); },
        };
        let role_id = match expect_id::<MemberRole>(input.role_id, "invalid role ID") {
            Ok(id) => id,
            Err(e) => { return Err(e); },
        };
        if viewer.id != membership.user.id {
            return Err(ServerError::new("not authorized"));
        }
        Ok(
            Membership {
                id: membership.id,
                created_at: membership.created_at,
                updated_at: membership.updated_at,
                user: membership.user,
                role: ObjectRef::new(role_id),
                start: input.start.0,
                end: input.end.0,
            },
        )
    }

    /// Decides the removal of a membership, given what the lookup found: a
    /// membership that was not found cannot go; one that was goes by its
    /// identifier alone.
    pub fn delete_membership(&self, found: Option<Membership>) -> (out: Result<
        (DeleteOne, NodeId),
        ServerError,
    >)
        ensures
            match found {
                None => refused(out, "membership not found"@),
                Some(membership) => {
                    &&& out is Ok
                    &&& is_id_filter(out->Ok_0.0.filter, membership.id@)
                    &&& out->Ok_0.0.collection@ == "memberships"@
                    &&& out->Ok_0.1@ == (membership.id@, Membership::kind())
                },
            },
    {
        let membership = match found.ensure("membership not found") {
            Ok(membership) => membership,
            Err(e) => { return Err(e); },
        };
        match membership.delete(0) {
            Ok(removal) => Ok((removal, NodeId(crate::global_id::GlobalId::of(&membership)))),
            Err(_) => Err(ServerError::new("failed to delete membership")),
        }
    }
}

} // verus!
