//! Type-tagged identifiers: a record's identifier together with the schema
//! it belongs to, written as the schema's name, a colon and the identifier's
//! hexadecimal text.

use crate::entity::Object;
use crate::object_id::{
    id_bytes_text, id_text_bytes, is_id_text, lemma_text_of_bytes, ObjectId, ID_BYTES,
};
use crate::text::{lemma_split_first_joined, split_first, split_once_at};
use vstd::prelude::*;
use vstd::string::*;

verus! {

/// The schema that a record belongs to.
#[derive(Clone, Copy, Debug, Hash, PartialEq, Eq, Structural)]
pub enum ObjectType {
    User,
    Membership,
    MemberRole,
}

/// The name under which a schema is written.
pub open spec fn kind_name(t: ObjectType) -> Seq<char> {
    match t {
        ObjectType::User => "User"@,
        ObjectType::Membership => "Membership"@,
        ObjectType::MemberRole => "MemberRole"@,
    }
}

/// The schema with the given name, if there is one.
pub open spec fn kind_named(name: Seq<char>) -> Option<ObjectType> {
    if name == "User"@ {
        Some(ObjectType::User)
    } else if name == "Membership"@ {
        Some(ObjectType::Membership)
    } else if name == "MemberRole"@ {
        Some(ObjectType::MemberRole)
    } else {
        None
    }
}

impl ObjectType {
    /// The name under which the schema is written.
    pub fn name(&self) -> (out: &'static str)
        ensures
            out@ == kind_name(*self),
    {
        match self {
            ObjectType::User => "User",
            ObjectType::Membership => "Membership",
            ObjectType::MemberRole => "MemberRole",
        }
    }

    /// The schema with the given name.
    pub fn parse(name: &str) -> (out: Option<ObjectType>)
        ensures
            out == kind_named(name@),
    {
        let name = name.to_owned();
        if name == "User".to_owned() {
            Some(ObjectType::User)
        } else if name == "Membership".to_owned() {
            Some(ObjectType::Membership)
        } else if name == "MemberRole".to_owned() {
            Some(ObjectType::MemberRole)
        } else {
            None
        }
    }
}

/// Why a text is no type-tagged identifier.
#[derive(Clone, Copy, Debug, PartialEq, Eq, Structural)]
pub enum GlobalIdError {
    /// The text has no colon.
    InvalidStructure,
    /// The part before the first colon names no schema.
    UnknownType,
    /// The part after the first colon is not an identifier's text.
    InvalidId,
}

/// The text of a type-tagged identifier.
pub open spec fn global_id_text(id: Seq<u8>, t: ObjectType) -> Seq<char> {
    kind_name(t) + seq![':'] + id_bytes_text(id)
}

/// What a text reads as: the identifier's bytes and the schema, or the
/// reason why it is refused.
pub open spec fn parse_global_id_text(t: Seq<char>) -> Result<(Seq<u8>, ObjectType), GlobalIdError> {
    match split_first(t, ':') {
        None => Err(GlobalIdError::InvalidStructure),
        Some((head, rest)) => match kind_named(head) {
            None => Err(GlobalIdError::UnknownType),
            Some(kind) => if is_id_text(rest) {
                Ok((id_text_bytes(rest), kind))
            } else {
                Err(GlobalIdError::InvalidId)
            },
        },
    }
}

/// A record's identifier tagged with the record's schema.
#[derive(Clone, Copy, Debug)]
pub struct GlobalId {
    object_id: ObjectId,
    object_type: ObjectType,
}

impl View for GlobalId {
    type V = (Seq<u8>, ObjectType);

    closed spec fn view(&self) -> (Seq<u8>, ObjectType) {
        (self.object_id@, self.object_type)
    }
}

impl GlobalId {
    /// The identifier tagged with the schema.
    pub fn new(object_id: ObjectId, object_type: ObjectType) -> (out: GlobalId)
        ensures
            out@ == (object_id@, object_type),
    {
        GlobalId { object_id, object_type }
    }

    /// The type-tagged identifier of a record.
    pub fn of<T: Object>(object: &T) -> (out: GlobalId)
        ensures
            out@ == (object.id(), T::kind()),
    {
        GlobalId::new(object.object_id(), T::object_type())
    }

    /// The identifier, if it is tagged with the schema of `T`; nothing
    /// otherwise.
    pub fn get<T: Object>(self) -> (out: Option<ObjectId>)
        ensures
            out is Some <==> self@.1 == T::kind(),
            out is Some ==> out.unwrap()@ == self@.0,
    {
        if self.object_type == T::object_type() {
            Some(self.object_id)
        } else {
            None
        }
    }

    /// The text of the identifier: the schema's name, a colon, and the
    /// identifier in hexadecimal.
    pub fn to_text(&self) -> (out: String)
        ensures
            out@ == global_id_text(self@.0, self@.1),
    {
        let mut out = String::from_str(self.object_type.name());
        out.append(":");
        let hex = self.object_id.to_hex();
        out.append(hex.as_str());
        proof {
            reveal_strlit(":");
            assert(":"@ =~= seq![':']);
        }
        out
    }

    /// Reads a type-tagged identifier from its text. The text is cut at its
    /// first colon; the part before must name a schema and the part after
    /// must be an identifier's text.
    pub fn from_str(s: &str) -> (out: Result<GlobalId, GlobalIdError>)
        ensures
            match out {
                Ok(id) => parse_global_id_text(s@) == Ok::<_, GlobalIdError>(id@),
                Err(e) => parse_global_id_text(s@) == Err::<(Seq<u8>, ObjectType), _>(e),
            },
    {
        let (head, rest) = match split_once_at(s, ':') {
            Some(parts) => parts,
            None => { return Err(GlobalIdError::InvalidStructure); },
        };
        let object_type = match ObjectType::parse(head) {
            Some(t) => t,
            None => { return Err(GlobalIdError::UnknownType); },
        };
        match ObjectId::parse_str(rest) {
            Ok(object_id) => Ok(GlobalId::new(object_id, object_type)),
            Err(_) => Err(GlobalIdError::InvalidId),
        }
    }
}

/// No schema's name holds a colon, and each name reads back as its schema.
pub proof fn lemma_type_names(t: ObjectType)
    ensures
        !kind_name(t).contains(':'),
        kind_named(kind_name(t)) == Some(t),
{
    reveal_strlit("User");
    reveal_strlit("Membership");
    reveal_strlit("MemberRole");
    let name = kind_name(t);
    assert forall|i: int| 0 <= i < name.len() implies name[i] != ':' by {}
    assert("User"@.len() != "Membership"@.len());
    assert("User"@.len() != "MemberRole"@.len());
    assert("Membership"@[6] != "MemberRole"@[6]);
}

/// Reading the text written for an identifier and a schema gives the same
/// identifier and the same schema.
pub proof fn lemma_global_id_round_trip(id: Seq<u8>, t: ObjectType)
    requires
        id.len() == ID_BYTES,
    ensures
        parse_global_id_text(global_id_text(id, t)) == Ok::<_, GlobalIdError>((id, t)),
{
    lemma_type_names(t);
    lemma_text_of_bytes(id);
    lemma_split_first_joined(kind_name(t), ':', id_bytes_text(id));
}

} // verus!
