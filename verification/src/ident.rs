//! Document identifiers: twelve bytes, written as twenty-four hex digits.

use vstd::prelude::*;

verus! {

/// Whether `c` is one of `0-9`, `a-f`, `A-F`.
pub open spec fn is_hex_digit(c: char) -> bool {
    ('0' as u32 <= c as u32 && c as u32 <= '9' as u32)
        || ('a' as u32 <= c as u32 && c as u32 <= 'f' as u32)
        || ('A' as u32 <= c as u32 && c as u32 <= 'F' as u32)
}

/// The number a hex digit stands for.
pub open spec fn hex_value(c: char) -> int {
    if '0' as u32 <= c as u32 && c as u32 <= '9' as u32 {
        c as u32 - '0' as u32
    } else if 'a' as u32 <= c as u32 && c as u32 <= 'f' as u32 {
        c as u32 - 'a' as u32 + 10
    } else {
        c as u32 - 'A' as u32 + 10
    }
}

/// The lower-case hex digit for a number below sixteen.
pub open spec fn hex_digit(n: int) -> char {
    if n < 10 {
        ('0' as u32 + n) as char
    } else {
        ('a' as u32 + n - 10) as char
    }
}

/// A well-formed identifier is exactly twenty-four hex digits.
pub open spec fn well_formed_id(s: Seq<char>) -> bool {
    s.len() == 24 && forall|i: int| 0 <= i < 24 ==> is_hex_digit(#[trigger] s[i])
}

/// The twelve bytes that a well-formed identifier denotes: each pair of digits
/// is one byte, high digit first.
pub open spec fn id_bytes(s: Seq<char>) -> Seq<u8> {
    Seq::new(12, |i: int| (hex_value(s[2 * i]) * 16 + hex_value(s[2 * i + 1])) as u8)
}

/// The text of an identifier: two lower-case hex digits per byte, high digit
/// first.
pub open spec fn hex_text(bytes: Seq<u8>) -> Seq<char> {
    Seq::new(
        2 * bytes.len(),
        |i: int|
            if i % 2 == 0 {
                hex_digit(bytes[i / 2] as int / 16)
            } else {
                hex_digit(bytes[i / 2] as int % 16)
            },
    )
}

/// The identifier that the store assigns to a document.
#[derive(Clone, Copy, Debug, PartialEq, Eq)]
pub struct DocumentId {
    bytes: [u8; 12],
}

impl View for DocumentId {
    type V = Seq<u8>;

    closed spec fn view(&self) -> Seq<u8> {
        self.bytes@
    }
}

/// `bson::oid::Error`: why a string is no identifier. Nothing inside it is
/// visible here.
#[verifier::external_type_specification]
#[verifier::external_body]
pub struct ExObjectIdError(bson::oid::Error);

/// `bson::oid::ObjectId::parse_str`, followed by `ObjectId::bytes`. The parser
/// hex-decodes the string's bytes and accepts exactly twelve decoded bytes, so it
/// succeeds on twenty-four hex digits of either case and on nothing else, and
/// byte `i` of the result is made of digits `2 i` and `2 i + 1`.
#[verifier::external_body]
fn decode_object_id(id: &str) -> (r: Result<[u8; 12], bson::oid::Error>)
    ensures
        r.is_ok() == well_formed_id(id@),
        r matches Ok(b) ==> b@ == id_bytes(id@),
{
    bson::oid::ObjectId::parse_str(id).map(|oid| oid.bytes())
}

/// `bson::oid::ObjectId::from_bytes`, followed by `ObjectId::to_hex`, which
/// writes each byte as two lower-case hex digits.
#[verifier::external_body]
fn encode_object_id(bytes: &[u8; 12]) -> (r: String)
    ensures
        r@ == hex_text(bytes@),
{
    bson::oid::ObjectId::from_bytes(*bytes).to_hex()
}

impl DocumentId {
    /// Reads an identifier from its text. Succeeds exactly on well-formed text.
    pub fn parse(id: &str) -> (r: Option<DocumentId>)
        ensures
            r.is_some() == well_formed_id(id@),
            r matches Some(d) ==> d@ == id_bytes(id@),
    {
        match decode_object_id(id) {
            Ok(bytes) => Some(DocumentId { bytes }),
            Err(_) => None,
        }
    }

    /// The identifier made of the given bytes.
    pub fn from_bytes(bytes: [u8; 12]) -> (r: DocumentId)
        ensures
            r@ == bytes@,
    {
        DocumentId { bytes }
    }

    /// The identifier's twelve bytes.
    pub fn bytes(&self) -> (r: [u8; 12])
        ensures
            r@ == self@,
    {
        self.bytes
    }

    /// The identifier's text, in lower case.
    pub fn to_hex(&self) -> (r: String)
        ensures
            r@ == hex_text(self@),
    {
        encode_object_id(&self.bytes)
    }

    /// Every identifier is twelve bytes long.
    pub proof fn lemma_len(self)
        ensures
            self@.len() == 12,
    {
    }
}

/// The text of an identifier is well formed, and reading it gives the
/// identifier back.
pub proof fn lemma_hex_text_round_trip(bytes: Seq<u8>)
    requires
        bytes.len() == 12,
    ensures
        well_formed_id(hex_text(bytes)),
        id_bytes(hex_text(bytes)) == bytes,
{
    let s = hex_text(bytes);
    assert forall|i: int| 0 <= i < 24 implies is_hex_digit(#[trigger] s[i]) by {
        let b = bytes[i / 2] as int;
        assert(0 <= b / 16 < 16 && 0 <= b % 16 < 16);
    }
    assert forall|i: int| 0 <= i < 12 implies #[trigger] id_bytes(s)[i] == bytes[i] by {
        let b = bytes[i] as int;
        assert((2 * i) / 2 == i && (2 * i + 1) / 2 == i);
        assert((2 * i) % 2 == 0 && (2 * i + 1) % 2 == 1);
        assert(0 <= b / 16 < 16 && 0 <= b % 16 < 16);
        assert(hex_value(hex_digit(b / 16)) == b / 16);
        assert(hex_value(hex_digit(b % 16)) == b % 16);
        assert((b / 16) * 16 + b % 16 == b);
    }
    assert(id_bytes(s) =~= bytes);
}

} // verus!
