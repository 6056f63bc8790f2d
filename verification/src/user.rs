//! The people who use the service.

use crate::codec::{
    failure, only_fields, only_named, optional_text, optional_value, or_later,
    put_optional_text, read_id, read_instant, read_optional_text, read_text, want_id,
    want_instant, want_optional_text, want_text, CodecError,
};
use crate::document::{doc_insert, doc_new, fields, key_order, no_fields, Datum, FieldValue};
use crate::entity::{filter, find_by, Entity, EntityError, Object};
use crate::global_id::ObjectType;
use crate::membership::{Membership, MembershipConditions};
use crate::object_id::{ObjectId, ObjectRef};
use crate::query::{FindOneQuery, FindQuery};
use bson::Document;
use vstd::prelude::*;
use vstd::string::*;

verus! {

/// A registered user.
#[derive(Clone, Debug)]
pub struct User {
    pub id: ObjectId,
    /// When the record was created, in milliseconds since the epoch.
    pub created_at: i64,
    /// When the record was last changed, in milliseconds since the epoch.
    pub updated_at: i64,
    pub first_name: String,
    pub last_name: String,
    pub email: String,
    pub phone: Option<String>,
    pub photo_url: Option<String>,
    pub website_url: Option<String>,
    pub twitter_handle: Option<String>,
    pub instagram_handle: Option<String>,
    pub bio: Option<String>,
}

/// What a user record holds.
pub struct UserView {
    pub id: Seq<u8>,
    pub created_at: int,
    pub updated_at: int,
    pub first_name: Seq<char>,
    pub last_name: Seq<char>,
    pub email: Seq<char>,
    pub phone: Option<Seq<char>>,
    pub photo_url: Option<Seq<char>>,
    pub website_url: Option<Seq<char>>,
    pub twitter_handle: Option<Seq<char>>,
    pub instagram_handle: Option<Seq<char>>,
    pub bio: Option<Seq<char>>,
}

impl View for User {
    type V = UserView;

    open spec fn view(&self) -> UserView {
        UserView {
            id: self.id@,
            created_at: self.created_at as int,
            updated_at: self.updated_at as int,
            first_name: self.first_name@,
            last_name: self.last_name@,
            email: self.email@,
            phone: optional_text(self.phone),
            photo_url: optional_text(self.photo_url),
            website_url: optional_text(self.website_url),
            twitter_handle: optional_text(self.twitter_handle),
            instagram_handle: optional_text(self.instagram_handle),
            bio: optional_text(self.bio),
        }
    }
}

/// The names of a user document's fields.
pub open spec fn user_field_names() -> Seq<Seq<char>> {
    seq![
        "_id"@,
        "created_at"@,
        "updated_at"@,
        "first_name"@,
        "last_name"@,
        "email"@,
        "phone"@,
        "photo_url"@,
        "website_url"@,
        "twitter_handle"@,
        "instagram_handle"@,
        "bio"@,
    ]
}

/// The fields of the document that stands for a user.
pub open spec fn user_fields(v: UserView) -> Map<Seq<char>, Datum> {
    no_fields().insert("_id"@, Datum::Id(v.id)).insert(
        "created_at"@,
        Datum::Instant(v.created_at),
    ).insert("updated_at"@, Datum::Instant(v.updated_at)).insert(
        "first_name"@,
        Datum::Text(v.first_name),
    ).insert("last_name"@, Datum::Text(v.last_name)).insert("email"@, Datum::Text(v.email)).insert(
        "phone"@,
        optional_value(v.phone),
    ).insert("photo_url"@, optional_value(v.photo_url)).insert(
        "website_url"@,
        optional_value(v.website_url),
    ).insert("twitter_handle"@, optional_value(v.twitter_handle)).insert(
        "instagram_handle"@,
        optional_value(v.instagram_handle),
    ).insert("bio"@, optional_value(v.bio))
}

/// The first failure among a user document's fields, taken in the order of
/// the schema.
pub open spec fn user_failure(m: Map<Seq<char>, Datum>) -> Option<CodecError> {
    let e = failure(want_id(m, "_id"@));
    let e = or_later(e, failure(want_instant(m, "created_at"@)));
    let e = or_later(e, failure(want_instant(m, "updated_at"@)));
    let e = or_later(e, failure(want_text(m, "first_name"@)));
    let e = or_later(e, failure(want_text(m, "last_name"@)));
    let e = or_later(e, failure(want_text(m, "email"@)));
    let e = or_later(e, failure(want_optional_text(m, "phone"@)));
    let e = or_later(e, failure(want_optional_text(m, "photo_url"@)));
    let e = or_later(e, failure(want_optional_text(m, "website_url"@)));
    let e = or_later(e, failure(want_optional_text(m, "twitter_handle"@)));
    let e = or_later(e, failure(want_optional_text(m, "instagram_handle"@)));
    or_later(e, failure(want_optional_text(m, "bio"@)))
}

/// The user that a document stands for. A field that the schema does not
/// know refuses the document; so does the first field, in the order of the
/// schema, that is missing or holds the wrong kind of value.
pub open spec fn user_decoded(m: Map<Seq<char>, Datum>, order: Seq<Seq<char>>) -> Result<
    UserView,
    CodecError,
> {
    if !only_named(order, user_field_names()) {
        Err(CodecError::Decode)
    } else {
        match user_failure(m) {
            Some(e) => Err(e),
            None => Ok(
                UserView {
                    id: want_id(m, "_id"@).unwrap(),
                    created_at: want_instant(m, "created_at"@).unwrap(),
                    updated_at: want_instant(m, "updated_at"@).unwrap(),
                    first_name: want_text(m, "first_name"@).unwrap(),
                    last_name: want_text(m, "last_name"@).unwrap(),
                    email: want_text(m, "email"@).unwrap(),
                    phone: want_optional_text(m, "phone"@).unwrap(),
                    photo_url: want_optional_text(m, "photo_url"@).unwrap(),
                    website_url: want_optional_text(m, "website_url"@).unwrap(),
                    twitter_handle: want_optional_text(m, "twitter_handle"@).unwrap(),
                    instagram_handle: want_optional_text(m, "instagram_handle"@).unwrap(),
                    bio: want_optional_text(m, "bio"@).unwrap(),
                },
            ),
        }
    }
}

/// The names of a user document's fields differ from each other.
pub proof fn lemma_user_field_names()
    ensures
        user_field_names().no_duplicates(),
        user_field_names().len() == 12,
{
    reveal_strlit("_id");
    reveal_strlit("created_at");
    reveal_strlit("updated_at");
    reveal_strlit("first_name");
    reveal_strlit("last_name");
    reveal_strlit("email");
    reveal_strlit("phone");
    reveal_strlit("photo_url");
    reveal_strlit("website_url");
    reveal_strlit("twitter_handle");
    reveal_strlit("instagram_handle");
    reveal_strlit("bio");
    let names = user_field_names();
    assert(names[0] == "_id"@ && names[1] == "created_at"@ && names[2] == "updated_at"@
        && names[3] == "first_name"@ && names[4] == "last_name"@ && names[5] == "email"@
        && names[6] == "phone"@ && names[7] == "photo_url"@ && names[8] == "website_url"@
        && names[9] == "twitter_handle"@ && names[10] == "instagram_handle"@ && names[11]
        == "bio"@);
    assert("created_at"@[0] != "updated_at"@[0]);
    assert("created_at"@[0] != "first_name"@[0]);
    assert("updated_at"@[0] != "first_name"@[0]);
    assert("last_name"@[0] != "photo_url"@[0]);
    assert("email"@[0] != "phone"@[0]);
    assert("_id"@[0] != "bio"@[0]);
    assert forall|i: int, j: int| 0 <= i < names.len() && 0 <= j < names.len() && i != j implies names[i]
        != names[j] by {
        assert(names[i].len() == names[j].len() ==> names[i][0] != names[j][0]);
    }
}

impl User {
    /// A new user with the given name and address, created and last changed
    /// at `now`, with a newly made identifier and nothing else filled in.
    pub fn new(now: i64, first_name: String, last_name: String, email: String) -> (out: User)
        ensures
            out.created_at == now,
            out.updated_at == now,
            out.first_name == first_name,
            out.last_name == last_name,
            out.email == email,
            out.phone is None,
            out.photo_url is None,
            out.website_url is None,
            out.twitter_handle is None,
            out.instagram_handle is None,
            out.bio is None,
    {
        User {
            id: ObjectId::generate(),
            created_at: now,
            updated_at: now,
            first_name,
            last_name,
            email,
            phone: None,
            photo_url: None,
            website_url: None,
            twitter_handle: None,
            instagram_handle: None,
            bio: None,
        }
    }
}

impl User {
    /// The user's first and last name with a space between them.
    pub fn full_name(&self) -> (out: String)
        ensures
            out@ == self.first_name@ + " "@ + self.last_name@,
    {
        let mut out = self.first_name.clone();
        out.append(" ");
        out.append(self.last_name.as_str());
        out
    }

    /// A lookup of the user with the given address.
    pub fn find_by_email(email: &str) -> (out: FindOneQuery<User>)
        ensures
            fields(out.conditions) == no_fields().insert("email"@, Datum::Text(email@)),
            key_order(out.conditions) == seq!["email"@],
    {
        let mut doc = doc_new();
        doc_insert(&mut doc, "email", FieldValue::Text(email.to_owned()));
        assert(key_order(doc) =~= seq!["email"@]);
        find_by(doc)
    }

    /// The query for the memberships that the user holds.
    pub fn memberships(&self) -> (out: FindQuery<Membership>)
        ensures
            fields(out.conditions) == no_fields().insert("user.id"@, Datum::Id(self.id@)),
            key_order(out.conditions) == seq!["user.id"@],
            out.skip is None,
            out.limit is None,
            out.sort is None,
    {
        let conditions = MembershipConditions { user: Some(ObjectRef::new(self.id)), role: None };
        filter(conditions.to_document())
    }
}

/// What to look for among the users: a free text, or nothing in
/// particular.
#[derive(Clone, Debug)]
pub struct UserConditions {
    pub query: Option<String>,
}

/// The fields of the filter that stands for conditions on users.
pub open spec fn user_filter_fields(query: Option<Seq<char>>) -> Map<Seq<char>, Datum> {
    match query {
        Some(q) => no_fields().insert(
            "$text"@,
            Datum::Nested(no_fields().insert("$search"@, Datum::Text(q))),
        ),
        None => no_fields(),
    }
}

impl UserConditions {
    /// The filter that stands for the conditions: a text search for the
    /// query where one is given, and no constraint otherwise.
    pub fn to_document(&self) -> (out: Document)
        ensures
            fields(out) == user_filter_fields(optional_text(self.query)),
            key_order(out) == match self.query {
                Some(_) => seq!["$text"@],
                None => Seq::empty(),
            },
            crate::query::searches_text(out) <==> self.query is Some,
    {
        let mut doc = doc_new();
        match &self.query {
            Some(query) => {
                let mut search = doc_new();
                doc_insert(&mut search, "$search", FieldValue::Text(query.clone()));
                doc_insert(&mut doc, "$text", FieldValue::Nested(search));
                assert(key_order(doc) =~= seq!["$text"@]);
            },
            None => {
                assert(key_order(doc) =~= Seq::<Seq<char>>::empty());
            },
        }
        doc
    }
}

impl Entity for User {
    open spec fn stored_in() -> Seq<char> {
        "users"@
    }

    open spec fn savable(&self) -> bool {
        true
    }

    open spec fn deletable(&self, references: nat) -> bool {
        true
    }

    fn collection_name() -> (name: &'static str) {
        "users"
    }

    fn before_save(&self) -> (out: Result<(), EntityError>) {
        Ok(())
    }

    /// Nothing is left to do once a record of this schema is written.
    fn after_save(&self) -> (out: Result<(), EntityError>)
        ensures
            out == Ok::<(), EntityError>(()),
    {
        Ok(())
    }

    fn before_delete(&self, references: u64) -> (out: Result<(), EntityError>) {
        Ok(())
    }

    /// Nothing is left to do once a record of this schema is removed.
    fn after_delete(&self) -> (out: Result<(), EntityError>)
        ensures
            out == Ok::<(), EntityError>(()),
    {
        Ok(())
    }
}

impl Object for User {
    open spec fn kind() -> ObjectType {
        ObjectType::User
    }

    open spec fn id(&self) -> Seq<u8> {
        self.id@
    }

    open spec fn encoded(v: UserView) -> Map<Seq<char>, Datum> {
        user_fields(v)
    }

    open spec fn field_names() -> Seq<Seq<char>> {
        user_field_names()
    }

    open spec fn decoded(m: Map<Seq<char>, Datum>, order: Seq<Seq<char>>) -> Result<
        UserView,
        CodecError,
    > {
        user_decoded(m, order)
    }

    fn object_type() -> (t: ObjectType) {
        ObjectType::User
    }

    fn object_id(&self) -> (id: ObjectId) {
        self.id
    }

    fn to_document(&self) -> (out: Result<Document, CodecError>) {
        proof {
            lemma_user_field_names();
        }
        let mut doc = doc_new();
        doc_insert(&mut doc, "_id", FieldValue::Id(self.id));
        doc_insert(&mut doc, "created_at", FieldValue::Instant(self.created_at));
        doc_insert(&mut doc, "updated_at", FieldValue::Instant(self.updated_at));
        doc_insert(&mut doc, "first_name", FieldValue::Text(self.first_name.clone()));
        doc_insert(&mut doc, "last_name", FieldValue::Text(self.last_name.clone()));
        doc_insert(&mut doc, "email", FieldValue::Text(self.email.clone()));
        put_optional_text(&mut doc, "phone", &self.phone);
        put_optional_text(&mut doc, "photo_url", &self.photo_url);
        put_optional_text(&mut doc, "website_url", &self.website_url);
        put_optional_text(&mut doc, "twitter_handle", &self.twitter_handle);
        put_optional_text(&mut doc, "instagram_handle", &self.instagram_handle);
        put_optional_text(&mut doc, "bio", &self.bio);
        proof {
            let names = user_field_names();
            assert(forall|i: int, j: int|
                0 <= i < names.len() && 0 <= j < names.len() && i != j ==> names[i] != names[j]);
            assert(names[0] == "_id"@ && names[1] == "created_at"@ && names[2] == "updated_at"@
                && names[3] == "first_name"@ && names[4] == "last_name"@ && names[5] == "email"@
                && names[6] == "phone"@ && names[7] == "photo_url"@ && names[8]
                == "website_url"@ && names[9] == "twitter_handle"@ && names[10]
                == "instagram_handle"@ && names[11] == "bio"@);
            assert(key_order(doc) =~= names);
        }
        Ok(doc)
    }

    fn from_document(doc: Document) -> (out: Result<User, CodecError>) {
        let names = vec![
            "_id",
            "created_at",
            "updated_at",
            "first_name",
            "last_name",
            "email",
            "phone",
            "photo_url",
            "website_url",
            "twitter_handle",
            "instagram_handle",
            "bio",
        ];
        assert(names@.map_values(|s: &'static str| s@) =~= user_field_names());
        if !only_fields(&doc, &names) {
            return Err(CodecError::Decode);
        }
        let id = read_id(&doc, "_id")?;
        let created_at = read_instant(&doc, "created_at")?;
        let updated_at = read_instant(&doc, "updated_at")?;
        let first_name = read_text(&doc, "first_name")?;
        let last_name = read_text(&doc, "last_name")?;
        let email = read_text(&doc, "email")?;
        let phone = read_optional_text(&doc, "phone")?;
        let photo_url = read_optional_text(&doc, "photo_url")?;
        let website_url = read_optional_text(&doc, "website_url")?;
        let twitter_handle = read_optional_text(&doc, "twitter_handle")?;
        let instagram_handle = read_optional_text(&doc, "instagram_handle")?;
        let bio = read_optional_text(&doc, "bio")?;
        Ok(
            User {
                id,
                created_at,
                updated_at,
                first_name,
                last_name,
                email,
                phone,
                photo_url,
                website_url,
                twitter_handle,
                instagram_handle,
                bio,
            },
        )
    }

    proof fn lemma_round_trip(&self) {
        let v = self@;
        lemma_user_field_names();
        let names = user_field_names();
        let m = user_fields(v);
        assert(forall|i: int, j: int|
            0 <= i < names.len() && 0 <= j < names.len() && i != j ==> names[i] != names[j]);
        assert(names[0] == "_id"@ && names[1] == "created_at"@ && names[2] == "updated_at"@
            && names[3] == "first_name"@ && names[4] == "last_name"@ && names[5] == "email"@
            && names[6] == "phone"@ && names[7] == "photo_url"@ && names[8] == "website_url"@
            && names[9] == "twitter_handle"@ && names[10] == "instagram_handle"@ && names[11]
            == "bio"@);
        assert(only_named(names, names)) by {
            assert forall|i: int| 0 <= i < names.len() implies names.contains(
                #[trigger] names[i],
            ) by {}
        }
        assert(user_failure(m) is None);
        assert(user_decoded(m, names).unwrap() == v);
    }

    proof fn lemma_identified(&self) {
        lemma_user_field_names();
        let names = Self::field_names();
        assert(forall|i: int| 1 <= i < names.len() ==> #[trigger] names[i] != names[0]);
        assert(names[0] == "_id"@);
    }
}

} // verus!
