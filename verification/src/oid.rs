//! Identifiers of the metadata store: twelve bytes, written as twenty-four
//! hexadecimal digits.

use vstd::prelude::*;

verus! {

/// A store-assigned identifier.
#[derive(Clone, Copy, Debug, PartialEq, Eq, Hash)]
pub struct ObjectId {
    pub bytes: [u8; 12],
}

impl View for ObjectId {
    type V = Seq<u8>;

    open spec fn view(&self) -> Seq<u8> {
        self.bytes@
    }
}

/// The value of a hexadecimal digit of either case; `None` for any other character.
pub open spec fn hex_value(c: char) -> Option<int> {
    if '0' <= c <= '9' {
        Some(c as int - '0' as int)
    } else if 'a' <= c <= 'f' {
        Some(c as int - 'a' as int + 10)
    } else if 'A' <= c <= 'F' {
        Some(c as int - 'A' as int + 10)
    } else {
        None
    }
}

/// A text names an identifier when it is exactly twenty-four hexadecimal digits.
pub open spec fn is_hex_id(text: Seq<char>) -> bool {
    &&& text.len() == 24
    &&& forall|i: int| 0 <= i < 24 ==> hex_value(#[trigger] text[i]) is Some
}

/// The twelve bytes that twenty-four hexadecimal digits spell, high digit first.
pub open spec fn hex_id_bytes(text: Seq<char>) -> Seq<u8> {
    Seq::new(
        12,
        |i: int| (hex_value(text[2 * i]).unwrap() * 16 + hex_value(text[2 * i + 1]).unwrap()) as u8,
    )
}

/// The lower-case hexadecimal digit of a value below sixteen.
pub open spec fn hex_digit(n: int) -> char {
    if n < 10 {
        ('0' as int + n) as char
    } else {
        ('a' as int + n - 10) as char
    }
}

/// Two lower-case hexadecimal digits per byte, high digit first.
pub open spec fn hex_text(bytes: Seq<u8>) -> Seq<char> {
    Seq::new(
        2 * bytes.len(),
        |i: int|
            hex_digit(
                if i % 2 == 0 {
                    bytes[i / 2] as int / 16
                } else {
                    bytes[i / 2] as int % 16
                },
            ),
    )
}

/// `ObjectId::parse_str` of the bson crate. It decodes the text with
/// `hex::decode`, which accepts the digits `0-9`, `a-f` and `A-F` and pairs
/// them high digit first, and it refuses every text that does not give
/// exactly twelve bytes. Its error says no more than that, and is dropped.
#[verifier::external_body]
fn parse_hex_id(text: &str) -> (r: Option<[u8; 12]>)
    ensures
        r is Some <==> is_hex_id(text@),
        r matches Some(bytes) ==> bytes@ == hex_id_bytes(text@),
{
    match mongodb::bson::oid::ObjectId::parse_str(text) {
        Ok(id) => Some(id.bytes()),
        Err(_) => None,
    }
}

/// `ObjectId::to_hex` of the bson crate: `hex::encode` of the twelve bytes,
/// two lower-case digits per byte.
#[verifier::external_body]
fn hex_of_bytes(bytes: [u8; 12]) -> (text: String)
    ensures
        text@ == hex_text(bytes@),
{
    mongodb::bson::oid::ObjectId::from_bytes(bytes).to_hex()
}

impl ObjectId {
    pub fn from_bytes(bytes: [u8; 12]) -> (id: ObjectId)
        ensures
            id.bytes == bytes,
    {
        ObjectId { bytes }
    }

    pub fn bytes(&self) -> (bytes: [u8; 12])
        ensures
            bytes == self.bytes,
    {
        self.bytes
    }

    /// Whether two identifiers are the same.
    pub fn same(&self, other: &ObjectId) -> (same: bool)
        ensures
            same == (self@ == other@),
            same == (*self == *other),
    {
        let mut i: usize = 0;
        while i < 12
            invariant
                i <= 12,
                forall|k: int| 0 <= k < i ==> self.bytes[k] == other.bytes[k],
            decreases 12 - i,
        {
            if self.bytes[i] != other.bytes[i] {
                return false;
            }
            i += 1;
        }
        assert(self.bytes =~= other.bytes);
        true
    }

    /// Reads an identifier from its twenty-four hexadecimal digits.
    pub fn parse_str(text: &str) -> (r: Option<ObjectId>)
        ensures
            r is Some <==> is_hex_id(text@),
            r matches Some(id) ==> id@ == hex_id_bytes(text@),
    {
        match parse_hex_id(text) {
            Some(bytes) => Some(ObjectId { bytes }),
            None => None,
        }
    }

    /// Writes the identifier as twenty-four lower-case hexadecimal digits.
    pub fn to_hex(&self) -> (text: String)
        ensures
            text@ == hex_text(self@),
    {
        hex_of_bytes(self.bytes)
    }
}

/// Writing an identifier and reading the text back gives the same bytes.
pub proof fn hex_text_reads_back(bytes: Seq<u8>)
    requires
        bytes.len() == 12,
    ensures
        is_hex_id(hex_text(bytes)),
        hex_id_bytes(hex_text(bytes)) == bytes,
{
    let text = hex_text(bytes);
    assert forall|i: int| 0 <= i < 24 implies hex_value(#[trigger] text[i]) is Some by {
        let byte = bytes[i / 2] as int;
        assert(0 <= byte / 16 < 16 && 0 <= byte % 16 < 16);
    }
    assert forall|k: int| 0 <= k < 12 implies hex_id_bytes(text)[k] == bytes[k] by {
        let byte = bytes[k] as int;
        assert(text[2 * k] == hex_digit(byte / 16) && text[2 * k + 1] == hex_digit(byte % 16));
    }
}

} // verus!
