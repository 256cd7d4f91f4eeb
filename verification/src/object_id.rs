//! Twelve-byte document identifiers and their 24-digit hexadecimal text.

use vstd::prelude::*;

verus! {

/// Identifier of a user, chat, message or notification: twelve bytes, of which
/// the first four are a big-endian count of seconds and the other eight tell
/// apart the identifiers made within one second.
#[derive(Debug, Clone, Copy, PartialEq, Eq, Structural, Hash)]
pub struct ObjectId {
    pub seconds: u32,
    pub unique: u64,
}

/// Value of a hexadecimal digit, in either case; `None` for any other character.
pub open spec fn hex_digit_value(c: char) -> Option<int> {
    if '0' <= c <= '9' {
        Some(c as int - '0' as int)
    } else if 'a' <= c <= 'f' {
        Some(c as int - 'a' as int + 10)
    } else if 'A' <= c <= 'F' {
        Some(c as int - 'A' as int + 10)
    } else {
        None
    }
}

/// The lower-case hexadecimal digit for a value below sixteen.
pub open spec fn hex_digit_char(v: int) -> char
    recommends
        0 <= v < 16,
{
    if v < 10 {
        ('0' as int + v) as char
    } else {
        ('a' as int + v - 10) as char
    }
}

/// Whether `text` is exactly 24 hexadecimal digits.
pub open spec fn is_hex_id(text: Seq<char>) -> bool {
    &&& text.len() == 24
    &&& forall|i: int| 0 <= i < 24 ==> (#[trigger] hex_digit_value(text[i])) is Some
}

/// The twelve bytes that 24 hexadecimal digits spell, two digits to a byte.
pub open spec fn hex_id_bytes(text: Seq<char>) -> Seq<u8>
    recommends
        is_hex_id(text),
{
    Seq::new(
        12,
        |i: int|
            (16 * hex_digit_value(text[2 * i]).unwrap() + hex_digit_value(
                text[2 * i + 1],
            ).unwrap()) as u8,
    )
}

/// The 2n lower-case hexadecimal digits that spell n bytes.
pub open spec fn hex_text(bytes: Seq<u8>) -> Seq<char> {
    Seq::new(
        2 * bytes.len(),
        |i: int|
            if i % 2 == 0 {
                hex_digit_char(bytes[i / 2] as int / 16)
            } else {
                hex_digit_char(bytes[i / 2] as int % 16)
            },
    )
}

impl ObjectId {
    /// The identifier's twelve bytes, most significant first.
    pub open spec fn bytes(self) -> Seq<u8> {
        seq![
            (self.seconds / 0x100_0000) as u8,
            (self.seconds / 0x1_0000 % 0x100) as u8,
            (self.seconds / 0x100 % 0x100) as u8,
            (self.seconds % 0x100) as u8,
            (self.unique / 0x100_0000_0000_0000) as u8,
            (self.unique / 0x1_0000_0000_0000 % 0x100) as u8,
            (self.unique / 0x100_0000_0000 % 0x100) as u8,
            (self.unique / 0x1_0000_0000 % 0x100) as u8,
            (self.unique / 0x100_0000 % 0x100) as u8,
            (self.unique / 0x1_0000 % 0x100) as u8,
            (self.unique / 0x100 % 0x100) as u8,
            (self.unique % 0x100) as u8,
        ]
    }

    /// The identifier whose twelve bytes are `bytes`.
    pub open spec fn of_bytes(bytes: Seq<u8>) -> ObjectId
        recommends
            bytes.len() == 12,
    {
        ObjectId {
            seconds: (bytes[0] as int * 0x100_0000 + bytes[1] as int * 0x1_0000 + bytes[2] as int
                * 0x100 + bytes[3] as int) as u32,
            unique: (bytes[4] as int * 0x100_0000_0000_0000 + bytes[5] as int
                * 0x1_0000_0000_0000 + bytes[6] as int * 0x100_0000_0000 + bytes[7] as int
                * 0x1_0000_0000 + bytes[8] as int * 0x100_0000 + bytes[9] as int * 0x1_0000
                + bytes[10] as int * 0x100 + bytes[11] as int) as u64,
        }
    }

    /// The identifier as one number: its twelve bytes read big-endian.
    pub open spec fn key(self) -> u128 {
        (self.seconds as u128 * 0x1_0000_0000_0000_0000 + self.unique as u128) as u128
    }

    /// The identifier with the given twelve bytes.
    pub fn from_bytes(bytes: [u8; 12]) -> (id: ObjectId)
        ensures
            id == ObjectId::of_bytes(bytes@),
            id.bytes() == bytes@,
    {
        let b0 = bytes[0];
        let b1 = bytes[1];
        let b2 = bytes[2];
        let b3 = bytes[3];
        let b4 = bytes[4];
        let b5 = bytes[5];
        let b6 = bytes[6];
        let b7 = bytes[7];
        let b8 = bytes[8];
        let b9 = bytes[9];
        let b10 = bytes[10];
        let b11 = bytes[11];
        let seconds: u32 = ((b0 as u32) << 24) | ((b1 as u32) << 16) | ((b2 as u32) << 8) | (
        b3 as u32);
        let unique: u64 = ((b4 as u64) << 56) | ((b5 as u64) << 48) | ((b6 as u64) << 40) | ((
        b7 as u64) << 32) | ((b8 as u64) << 24) | ((b9 as u64) << 16) | ((b10 as u64) << 8) | (
        b11 as u64);
        assert(seconds / 0x100_0000 == b0 as u32 && seconds / 0x1_0000 % 0x100 == b1 as u32
            && seconds / 0x100 % 0x100 == b2 as u32 && seconds % 0x100 == b3 as u32)
            by (bit_vector)
            requires
                seconds == ((b0 as u32) << 24) | ((b1 as u32) << 16) | ((b2 as u32) << 8) | (
                b3 as u32),
        ;
        assert(unique / 0x100_0000_0000_0000 == b4 as u64 && unique / 0x1_0000_0000_0000 % 0x100
            == b5 as u64 && unique / 0x100_0000_0000 % 0x100 == b6 as u64 && unique
            / 0x1_0000_0000 % 0x100 == b7 as u64 && unique / 0x100_0000 % 0x100 == b8 as u64
            && unique / 0x1_0000 % 0x100 == b9 as u64 && unique / 0x100 % 0x100 == b10 as u64
            && unique % 0x100 == b11 as u64) by (bit_vector)
            requires
                unique == ((b4 as u64) << 56) | ((b5 as u64) << 48) | ((b6 as u64) << 40) | ((
                b7 as u64) << 32) | ((b8 as u64) << 24) | ((b9 as u64) << 16) | ((b10 as u64)
                    << 8) | (b11 as u64),
        ;
        assert(seconds == b0 as u32 * 0x100_0000 + b1 as u32 * 0x1_0000 + b2 as u32 * 0x100
            + b3 as u32) by (bit_vector)
            requires
                seconds == ((b0 as u32) << 24) | ((b1 as u32) << 16) | ((b2 as u32) << 8) | (
                b3 as u32),
        ;
        assert(unique == b4 as u64 * 0x100_0000_0000_0000 + b5 as u64 * 0x1_0000_0000_0000
            + b6 as u64 * 0x100_0000_0000 + b7 as u64 * 0x1_0000_0000 + b8 as u64 * 0x100_0000
            + b9 as u64 * 0x1_0000 + b10 as u64 * 0x100 + b11 as u64) by (bit_vector)
            requires
                unique == ((b4 as u64) << 56) | ((b5 as u64) << 48) | ((b6 as u64) << 40) | ((
                b7 as u64) << 32) | ((b8 as u64) << 24) | ((b9 as u64) << 16) | ((b10 as u64)
                    << 8) | (b11 as u64),
        ;
        let id = ObjectId { seconds, unique };
        assert(id.bytes() =~= bytes@);
        id
    }

    /// The identifier's twelve bytes.
    pub fn to_bytes(&self) -> (bytes: [u8; 12])
        ensures
            bytes@ == self.bytes(),
    {
        let s = self.seconds;
        let u = self.unique;
        let bytes: [u8; 12] = [
            (s / 0x100_0000) as u8,
            (s / 0x1_0000 % 0x100) as u8,
            (s / 0x100 % 0x100) as u8,
            (s % 0x100) as u8,
            (u / 0x100_0000_0000_0000) as u8,
            (u / 0x1_0000_0000_0000 % 0x100) as u8,
            (u / 0x100_0000_0000 % 0x100) as u8,
            (u / 0x1_0000_0000 % 0x100) as u8,
            (u / 0x100_0000 % 0x100) as u8,
            (u / 0x1_0000 % 0x100) as u8,
            (u / 0x100 % 0x100) as u8,
            (u % 0x100) as u8,
        ];
        assert(bytes@ =~= self.bytes());
        bytes
    }

    /// What parsing `text` gives: the identifier that 24 hexadecimal digits
    /// spell, and nothing for any other text.
    pub open spec fn parsed(text: Seq<char>) -> Option<ObjectId> {
        if is_hex_id(text) {
            Some(ObjectId::of_bytes(hex_id_bytes(text)))
        } else {
            None
        }
    }

    /// A newly generated identifier.
    pub fn new() -> ObjectId {
        ObjectId::from_bytes(generate_bytes())
    }

    /// Reads an identifier from its 24 hexadecimal digits, in either case.
    pub fn parse_str(text: &str) -> (id: Option<ObjectId>)
        ensures
            id == ObjectId::parsed(text@),
    {
        match parse_hex_bytes(text) {
            Some(bytes) => Some(ObjectId::from_bytes(bytes)),
            None => None,
        }
    }

    /// The identifier as 24 lower-case hexadecimal digits.
    pub fn to_hex(&self) -> (text: String)
        ensures
            text@ == hex_text(self.bytes()),
    {
        hex_of_bytes(self.to_bytes())
    }

    /// The number under which maps file the identifier.
    pub fn map_key(&self) -> (key: u128)
        ensures
            key == self.key(),
    {
        (self.seconds as u128) * 0x1_0000_0000_0000_0000 + (self.unique as u128)
    }
}

/// Calls `bson::oid::ObjectId::parse_str` and hands out the bytes of what it
/// returns. Trusted: the call succeeds exactly on 24 hexadecimal digits, upper
/// or lower case, and the identifier then holds the bytes that the digits
/// spell, the first digit of each pair being the high half of its byte.
#[verifier::external_body]
fn parse_hex_bytes(text: &str) -> (bytes: Option<[u8; 12]>)
    ensures
        bytes.is_some() == is_hex_id(text@),
        bytes is Some ==> bytes.unwrap()@ == hex_id_bytes(text@),
{
    match bson::oid::ObjectId::parse_str(text) {
        Ok(id) => Some(id.bytes()),
        Err(_) => None,
    }
}

/// Calls `bson::oid::ObjectId::to_hex` on the identifier with the given bytes.
/// Trusted: the text is two lower-case hexadecimal digits per byte, in order.
#[verifier::external_body]
fn hex_of_bytes(bytes: [u8; 12]) -> (text: String)
    ensures
        text@ == hex_text(bytes@),
{
    bson::oid::ObjectId::from_bytes(bytes).to_hex()
}

/// Calls `bson::oid::ObjectId::new` and hands out the bytes of the identifier
/// it generated. The bytes depend on the clock, on a per-process random value
/// and on a counter, so nothing is claimed of them. The call panics where the
/// system clock stands before 1970.
#[verifier::external_body]
fn generate_bytes() -> [u8; 12] {
    bson::oid::ObjectId::new().bytes()
}

/// Two identifiers filed under one number are the same identifier.
pub proof fn lemma_key_injective(a: ObjectId, b: ObjectId)
    requires
        a.key() == b.key(),
    ensures
        a == b,
{
}

/// An identifier is read back from its own hexadecimal text.
pub proof fn lemma_parse_inverts_to_hex(id: ObjectId)
    ensures
        ObjectId::parsed(hex_text(id.bytes())) == Some(id),
{
    let bytes = id.bytes();
    let text = hex_text(bytes);
    assert forall|i: int| 0 <= i < 24 implies (#[trigger] hex_digit_value(text[i])) is Some by {
        lemma_hex_digit_round_trip(bytes[i / 2] as int / 16);
        lemma_hex_digit_round_trip(bytes[i / 2] as int % 16);
    }
    assert forall|i: int| 0 <= i < 12 implies hex_id_bytes(text)[i] == bytes[i] by {
        lemma_hex_digit_round_trip(bytes[i] as int / 16);
        lemma_hex_digit_round_trip(bytes[i] as int % 16);
        assert(text[2 * i] == hex_digit_char(bytes[i] as int / 16));
        assert(text[2 * i + 1] == hex_digit_char(bytes[i] as int % 16));
    }
    assert(hex_id_bytes(text) =~= bytes);
    lemma_of_bytes_inverts_bytes(id);
}

/// An identifier is rebuilt from its own twelve bytes.
pub proof fn lemma_of_bytes_inverts_bytes(id: ObjectId)
    ensures
        ObjectId::of_bytes(id.bytes()) == id,
{
    let s = id.seconds;
    let u = id.unique;
    assert(s == (s / 0x100_0000) * 0x100_0000 + (s / 0x1_0000 % 0x100) * 0x1_0000 + (s / 0x100
        % 0x100) * 0x100 + s % 0x100) by (bit_vector);
    assert(u == (u / 0x100_0000_0000_0000) * 0x100_0000_0000_0000 + (u / 0x1_0000_0000_0000
        % 0x100) * 0x1_0000_0000_0000 + (u / 0x100_0000_0000 % 0x100) * 0x100_0000_0000 + (u
        / 0x1_0000_0000 % 0x100) * 0x1_0000_0000 + (u / 0x100_0000 % 0x100) * 0x100_0000 + (u
        / 0x1_0000 % 0x100) * 0x1_0000 + (u / 0x100 % 0x100) * 0x100 + u % 0x100)
        by (bit_vector);
}

/// Reading a lower-case hexadecimal digit gives back the value it was made from.
pub proof fn lemma_hex_digit_round_trip(v: int)
    requires
        0 <= v < 16,
    ensures
        hex_digit_value(hex_digit_char(v)) == Some(v),
{
}

} // verus!
