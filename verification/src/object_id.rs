//! Storage identifiers: twelve bytes, written as twenty-four hexadecimal
//! digits.

use vstd::prelude::*;

verus! {

/// Number of bytes in an identifier.
pub const ID_BYTES: usize = 12;

/// Number of hexadecimal digits in the text of an identifier.
pub const ID_DIGITS: usize = 24;

/// The value of a hexadecimal digit, in either letter case.
pub open spec fn hex_value(c: char) -> Option<int> {
    let v = c as int;
    if 48 <= v <= 57 {
        Some(v - 48)
    } else if 97 <= v <= 102 {
        Some(v - 87)
    } else if 65 <= v <= 70 {
        Some(v - 55)
    } else {
        None
    }
}

/// The lower-case digit that stands for a value below sixteen.
pub open spec fn hex_digit(n: int) -> char {
    if n < 10 {
        (48 + n) as char
    } else {
        (87 + n) as char
    }
}

/// Whether a text is exactly twenty-four hexadecimal digits.
pub open spec fn is_id_text(t: Seq<char>) -> bool {
    &&& t.len() == ID_DIGITS
    &&& forall|i: int| 0 <= i < t.len() ==> (#[trigger] hex_value(t[i])) is Some
}

/// The bytes that a text of hexadecimal digits denotes, two digits a byte.
pub open spec fn id_text_bytes(t: Seq<char>) -> Seq<u8> {
    Seq::new(
        ID_BYTES as nat,
        |i: int| (16 * hex_value(t[2 * i]).unwrap() + hex_value(t[2 * i + 1]).unwrap()) as u8,
    )
}

/// The lower-case hexadecimal text of a sequence of bytes.
pub open spec fn id_bytes_text(b: Seq<u8>) -> Seq<char> {
    Seq::new(
        2 * b.len(),
        |i: int|
            if i % 2 == 0 {
                hex_digit(b[i / 2] as int / 16)
            } else {
                hex_digit(b[i / 2] as int % 16)
            },
    )
}

/// Primary key of a stored record.
#[derive(Clone, Copy, Debug)]
pub struct ObjectId {
    pub bytes: [u8; 12],
}

impl View for ObjectId {
    type V = Seq<u8>;

    open spec fn view(&self) -> Seq<u8> {
        self.bytes@
    }
}

impl PartialEq for ObjectId {
    fn eq(&self, other: &ObjectId) -> (out: bool) {
        self.same(other)
    }
}

impl Eq for ObjectId {

}

impl vstd::std_specs::cmp::PartialEqSpecImpl for ObjectId {
    open spec fn obeys_eq_spec() -> bool {
        true
    }

    open spec fn eq_spec(&self, other: &ObjectId) -> bool {
        self@ == other@
    }
}

/// A reference from one record to another, by the other's identifier.
#[derive(Clone, Copy, Debug)]
pub struct ObjectRef {
    pub id: ObjectId,
}

impl ObjectRef {
    /// The reference to the record with the given identifier.
    pub fn new(id: ObjectId) -> (out: ObjectRef)
        ensures
            out.id == id,
    {
        ObjectRef { id }
    }
}

impl PartialEq for ObjectRef {
    fn eq(&self, other: &ObjectRef) -> (out: bool) {
        self.id == other.id
    }
}

impl Eq for ObjectRef {

}

impl vstd::std_specs::cmp::PartialEqSpecImpl for ObjectRef {
    open spec fn obeys_eq_spec() -> bool {
        true
    }

    open spec fn eq_spec(&self, other: &ObjectRef) -> bool {
        self.id@ == other.id@
    }
}

/// Why a text is no identifier.
#[derive(Clone, Copy, Debug, PartialEq, Eq, Structural)]
pub enum IdError {
    /// The text is not twenty-four hexadecimal digits.
    InvalidHex,
}

/// `bson::oid::ObjectId::parse_str`, which decodes the text with
/// `hex::decode` and accepts it when twelve bytes come out: the text must be
/// twenty-four digits, letters in either case, and each pair of digits gives
/// one byte, high digit first.
#[verifier::external_body]
fn parse_id_text(s: &str) -> (out: Option<[u8; 12]>)
    ensures
        out is Some <==> is_id_text(s@),
        out is Some ==> out.unwrap()@ == id_text_bytes(s@),
{
    match bson::oid::ObjectId::parse_str(s) {
        Ok(id) => Some(id.bytes()),
        Err(_) => None,
    }
}

/// `bson::oid::ObjectId::to_hex`, which is `hex::encode` on the twelve
/// bytes: two lower-case digits for each byte, high digit first.
#[verifier::external_body]
fn format_id_bytes(bytes: [u8; 12]) -> (out: String)
    ensures
        out@ == id_bytes_text(bytes@),
{
    bson::oid::ObjectId::from_bytes(bytes).to_hex()
}

/// `bson::oid::ObjectId::new`, which draws on the clock, a process-wide
/// counter and a random value; nothing is claimed of the bytes.
#[verifier::external_body]
fn generate_id_bytes() -> (out: [u8; 12]) {
    bson::oid::ObjectId::new().bytes()
}

impl ObjectId {
    /// The identifier with the given bytes.
    pub fn from_bytes(bytes: [u8; 12]) -> (id: ObjectId)
        ensures
            id@ == bytes@,
            id.bytes == bytes,
    {
        ObjectId { bytes }
    }

    /// A new identifier for a record about to be created.
    pub fn generate() -> (id: ObjectId) {
        ObjectId { bytes: generate_id_bytes() }
    }

    /// Reads an identifier from its hexadecimal text.
    pub fn parse_str(s: &str) -> (out: Result<ObjectId, IdError>)
        ensures
            out is Ok <==> is_id_text(s@),
            out is Ok ==> out.unwrap()@ == id_text_bytes(s@),
            out is Err ==> out == Err::<ObjectId, IdError>(IdError::InvalidHex),
    {
        match parse_id_text(s) {
            Some(bytes) => Ok(ObjectId { bytes }),
            None => Err(IdError::InvalidHex),
        }
    }

    /// The hexadecimal text of the identifier.
    pub fn to_hex(&self) -> (out: String)
        ensures
            out@ == id_bytes_text(self@),
            is_id_text(out@),
            id_text_bytes(out@) == self@,
    {
        proof {
            lemma_text_of_bytes(self@);
        }
        format_id_bytes(self.bytes)
    }

    /// Whether two identifiers hold the same bytes.
    pub fn same(&self, other: &ObjectId) -> (out: bool)
        ensures
            out == (self@ == other@),
    {
        let mut i: usize = 0;
        while i < 12
            invariant
                i <= 12,
                forall|j: int| 0 <= j < i ==> self.bytes@[j] == other.bytes@[j],
            decreases 12 - i,
        {
            if self.bytes[i] != other.bytes[i] {
                return false;
            }
            i += 1;
        }
        assert(self@ =~= other@);
        true
    }
}

/// A digit's value is the value it was written for.
pub proof fn lemma_digit_value(n: int)
    requires
        0 <= n < 16,
    ensures
        hex_value(hex_digit(n)) == Some(n),
{
}

/// The text written for twelve bytes is an identifier's text, and reads
/// back as the same bytes.
pub proof fn lemma_text_of_bytes(b: Seq<u8>)
    requires
        b.len() == ID_BYTES,
    ensures
        is_id_text(id_bytes_text(b)),
        id_text_bytes(id_bytes_text(b)) == b,
{
    let t = id_bytes_text(b);
    assert forall|i: int| 0 <= i < t.len() implies (#[trigger] hex_value(t[i])) is Some by {
        let v = b[i / 2] as int;
        lemma_digit_value(v / 16);
        lemma_digit_value(v % 16);
    }
    assert forall|i: int| 0 <= i < ID_BYTES as int implies id_text_bytes(t)[i] == b[i] by {
        let v = b[i] as int;
        lemma_digit_value(v / 16);
        lemma_digit_value(v % 16);
        assert((2 * i) / 2 == i && (2 * i) % 2 == 0);
        assert((2 * i + 1) / 2 == i && (2 * i + 1) % 2 == 1);
        assert(16 * (v / 16) + v % 16 == v);
    }
    assert(id_text_bytes(t) =~= b);
}

} // verus!
