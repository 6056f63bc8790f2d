//! The form in which type-tagged identifiers leave the process: the
//! identifier's text in base64, which clients hand back unread.

use crate::entity::Object;
use crate::global_id::{global_id_text, parse_global_id_text, GlobalId, GlobalIdError, ObjectType};
use crate::object_id::ObjectId;
use base64::Engine;
use vstd::prelude::*;
use vstd::string::*;
use vstd::utf8::{decode_utf8, encode_utf8, valid_utf8};

verus! {

/// The base64 text of a sequence of bytes, in the standard alphabet with
/// padding.
pub uninterp spec fn base64_text(bytes: Seq<u8>) -> Seq<char>;

/// The bytes that a base64 text stands for, if it is one.
pub uninterp spec fn base64_bytes(text: Seq<char>) -> Option<Seq<u8>>;

/// `Engine::encode` of `base64::engine::general_purpose::STANDARD`: the
/// base64 text of the bytes, which depends on the bytes alone.
#[verifier::external_body]
fn base64_encode(bytes: &[u8]) -> (out: String)
    ensures
        out@ == base64_text(bytes@),
{
    base64::engine::general_purpose::STANDARD.encode(bytes)
}

/// `Engine::decode` of `base64::engine::general_purpose::STANDARD`: the
/// bytes of a base64 text, or nothing where the text is refused; the outcome
/// depends on the text alone.
#[verifier::external_body]
fn base64_decode(text: &str) -> (out: Option<Vec<u8>>)
    ensures
        out is Some <==> base64_bytes(text@) is Some,
        out is Some ==> out.unwrap()@ == base64_bytes(text@).unwrap(),
{
    base64::engine::general_purpose::STANDARD.decode(text).ok()
}

/// `String::from_utf8`: the text that the bytes encode, where they are
/// valid UTF-8.
#[verifier::external_body]
fn text_of_utf8(bytes: Vec<u8>) -> (out: Option<String>)
    ensures
        out is Some <==> valid_utf8(bytes@),
        out is Some ==> out.unwrap()@ == decode_utf8(bytes@),
{
    String::from_utf8(bytes).ok()
}

/// Why an encoded identifier is refused.
#[derive(Clone, Copy, Debug, PartialEq, Eq, Structural)]
pub enum NodeIdError {
    /// The text is not base64.
    InvalidEncoding,
    /// The decoded bytes are not UTF-8.
    InvalidUtf8,
    /// The decoded text is no type-tagged identifier.
    InvalidId(GlobalIdError),
}

/// What decoded bytes read as: an identifier's bytes and schema, or the
/// reason why they are refused.
pub open spec fn parse_node_bytes(raw: Seq<u8>) -> Result<(Seq<u8>, ObjectType), NodeIdError> {
    if !valid_utf8(raw) {
        Err(NodeIdError::InvalidUtf8)
    } else {
        match parse_global_id_text(decode_utf8(raw)) {
            Ok(id) => Ok(id),
            Err(e) => Err(NodeIdError::InvalidId(e)),
        }
    }
}

/// What an encoded text reads as.
pub open spec fn parse_node_text(encoded: Seq<char>) -> Result<(Seq<u8>, ObjectType), NodeIdError> {
    match base64_bytes(encoded) {
        None => Err(NodeIdError::InvalidEncoding),
        Some(raw) => parse_node_bytes(raw),
    }
}

/// A type-tagged identifier as clients see it.
#[derive(Clone, Copy, Debug)]
pub struct NodeId(pub GlobalId);

impl View for NodeId {
    type V = (Seq<u8>, ObjectType);

    open spec fn view(&self) -> (Seq<u8>, ObjectType) {
        self.0@
    }
}

impl NodeId {
    /// The identifier, if it is tagged with the schema of `T`; nothing
    /// otherwise.
    pub fn get<T: Object>(self) -> (out: Option<ObjectId>)
        ensures
            out is Some <==> self@.1 == T::kind(),
            out is Some ==> out.unwrap()@ == self@.0,
    {
        self.0.get::<T>()
    }

    /// The encoded form: the base64 text of the identifier's text.
    pub fn serialize(&self) -> (out: String)
        ensures
            out@ == base64_text(encode_utf8(global_id_text(self@.0, self@.1))),
    {
        let raw = self.0.to_text();
        base64_encode(raw.as_str().as_bytes())
    }

    /// Reads the bytes that came out of an encoded form.
    pub fn from_decoded(raw: Vec<u8>) -> (out: Result<NodeId, NodeIdError>)
        ensures
            match out {
                Ok(id) => parse_node_bytes(raw@) == Ok::<_, NodeIdError>(id@),
                Err(e) => parse_node_bytes(raw@) == Err::<(Seq<u8>, ObjectType), _>(e),
            },
    {
        let text = match text_of_utf8(raw) {
            Some(text) => text,
            None => { return Err(NodeIdError::InvalidUtf8); },
        };
        match GlobalId::from_str(text.as_str()) {
            Ok(id) => Ok(NodeId(id)),
            Err(e) => Err(NodeIdError::InvalidId(e)),
        }
    }

    /// Reads an encoded form: base64, then UTF-8, then the identifier's
    /// text. Each step that fails refuses the whole.
    pub fn deserialize(encoded: &str) -> (out: Result<NodeId, NodeIdError>)
        ensures
            match out {
                Ok(id) => parse_node_text(encoded@) == Ok::<_, NodeIdError>(id@),
                Err(e) => parse_node_text(encoded@) == Err::<(Seq<u8>, ObjectType), _>(e),
            },
    {
        match base64_decode(encoded) {
            Some(raw) => NodeId::from_decoded(raw),
            None => Err(NodeIdError::InvalidEncoding),
        }
    }
}

} // verus!
