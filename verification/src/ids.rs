//! Durable object ids: 96-bit values, written as 24 hexadecimal digits.

use vstd::prelude::*;

verus! {

/// A durable id. Canvases, shapes, whiteboards and users are named by one.
/// The id proper is the low 96 bits of the value.
pub type ObjectId = u128;

/// Process-local id of one live connection.
pub type ClientIdType = i32;

pub type CanvasIdType = ObjectId;

pub type CanvasObjectIdType = ObjectId;

pub type WhiteboardIdType = ObjectId;

pub type UserIdType = ObjectId;

/// One more than the largest durable id: two to the power 96.
pub const OBJECT_ID_LIMIT: u128 = 0x1_0000_0000_0000_0000_0000_0000u128;

/// The lower-case hexadecimal digit of a number below sixteen.
pub open spec fn hex_digit(d: int) -> char {
    if d == 0 {
        '0'
    } else if d == 1 {
        '1'
    } else if d == 2 {
        '2'
    } else if d == 3 {
        '3'
    } else if d == 4 {
        '4'
    } else if d == 5 {
        '5'
    } else if d == 6 {
        '6'
    } else if d == 7 {
        '7'
    } else if d == 8 {
        '8'
    } else if d == 9 {
        '9'
    } else if d == 10 {
        'a'
    } else if d == 11 {
        'b'
    } else if d == 12 {
        'c'
    } else if d == 13 {
        'd'
    } else if d == 14 {
        'e'
    } else {
        'f'
    }
}

/// The lowest `n` hexadecimal digits of `v`, most significant first.
pub open spec fn hex_text(v: nat, n: nat) -> Seq<char>
    decreases n,
{
    if n == 0 {
        Seq::empty()
    } else {
        hex_text(v / 16, (n - 1) as nat).push(hex_digit((v % 16) as int))
    }
}

/// The text of a durable id: 24 lower-case hexadecimal digits.
pub open spec fn object_id_hex(id: ObjectId) -> Seq<char> {
    hex_text(id as nat, 24)
}

/// The number that a hexadecimal digit stands for, in either case.
pub open spec fn hex_digit_value(c: char) -> Option<nat> {
    if '0' <= c <= '9' {
        Some((c as nat - '0' as nat) as nat)
    } else if 'a' <= c <= 'f' {
        Some((c as nat - 'a' as nat + 10) as nat)
    } else if 'A' <= c <= 'F' {
        Some((c as nat - 'A' as nat + 10) as nat)
    } else {
        None
    }
}

/// Whether every character of `s` is a hexadecimal digit.
pub open spec fn is_hex_text(s: Seq<char>) -> bool {
    forall|i: int| 0 <= i < s.len() ==> (#[trigger] hex_digit_value(s[i])) is Some
}

/// The number that the hexadecimal text `s` denotes, most significant digit first.
pub open spec fn hex_number(s: Seq<char>) -> nat
    decreases s.len(),
{
    if s.len() == 0 {
        0
    } else {
        hex_number(s.drop_last()) * 16 + hex_digit_value(s.last()).unwrap_or(0)
    }
}

/// The id that a text denotes: exactly 24 hexadecimal digits, else none.
pub open spec fn spec_parse_object_id(s: Seq<char>) -> Option<ObjectId> {
    if s.len() == 24 && is_hex_text(s) {
        Some(hex_number(s) as u128)
    } else {
        None
    }
}

/// A text that is not the 24 hexadecimal digits of a durable id.
#[derive(Clone, Copy, Debug, PartialEq, Eq, Structural)]
pub struct InvalidObjectId;

/// The error of `ObjectId::parse_str` of the bson crate. It is carried
/// from the call to `parse_object_id` and never read.
#[verifier::external_type_specification]
#[verifier::external_body]
pub struct ExOidError(mongodb::bson::oid::Error);

/// `ObjectId::new` of the bson crate, its twelve bytes read as a big-endian
/// number. Which id comes depends on the clock, on a value drawn once per
/// process and on a counter; only its size is stated. The outside function
/// panics where the system clock lies before 1970 or after 2106.
#[verifier::external_body]
pub(crate) fn generate_object_id() -> (id: ObjectId)
    ensures
        id < OBJECT_ID_LIMIT,
{
    let b = mongodb::bson::oid::ObjectId::new().bytes();
    u128::from_be_bytes([0, 0, 0, 0, b[0], b[1], b[2], b[3], b[4], b[5], b[6], b[7], b[8], b[9], b[10], b[11]])
}

/// `ObjectId::to_hex` of the bson crate, on the id's low twelve bytes: two
/// lower-case hexadecimal digits for each byte, first byte first.
#[verifier::external_body]
pub(crate) fn encode_object_id(id: ObjectId) -> (s: String)
    ensures
        s@ == object_id_hex(id),
{
    let b = id.to_be_bytes();
    mongodb::bson::oid::ObjectId::from_bytes(
        [b[4], b[5], b[6], b[7], b[8], b[9], b[10], b[11], b[12], b[13], b[14], b[15]],
    ).to_hex()
}

/// `ObjectId::parse_str` of the bson crate. It accepts exactly the texts of
/// 24 hexadecimal digits, in either case, and reads each pair of digits as
/// one byte, first byte first.
#[verifier::external_body]
pub(crate) fn decode_object_id(s: &str) -> (r: Result<ObjectId, mongodb::bson::oid::Error>)
    ensures
        r is Ok <==> spec_parse_object_id(s@) is Some,
        r matches Ok(id) ==> spec_parse_object_id(s@) == Some(id),
{
    match mongodb::bson::oid::ObjectId::parse_str(s) {
        Ok(oid) => {
            let b = oid.bytes();
            Ok(u128::from_be_bytes([0, 0, 0, 0, b[0], b[1], b[2], b[3], b[4], b[5], b[6], b[7], b[8], b[9], b[10], b[11]]))
        },
        Err(e) => Err(e),
    }
}

/// The text of a durable id.
pub fn object_id_to_hex(id: ObjectId) -> (s: String)
    ensures
        s@ == object_id_hex(id),
        s@.len() == 24,
{
    proof {
        lemma_hex_text_len(id as nat, 24);
    }
    encode_object_id(id)
}

/// A text of hexadecimal digits is as long as the digits asked for.
pub proof fn lemma_hex_text_len(v: nat, n: nat)
    ensures
        hex_text(v, n).len() == n,
    decreases n,
{
    if n > 0 {
        lemma_hex_text_len(v / 16, (n - 1) as nat);
    }
}

/// Sixteen to the power `n`.
pub open spec fn pow16(n: nat) -> nat
    decreases n,
{
    if n == 0 {
        1
    } else {
        16 * pow16((n - 1) as nat)
    }
}

/// The digit of a number below sixteen stands for that number.
pub proof fn lemma_hex_digit_value(d: int)
    requires
        0 <= d < 16,
    ensures
        hex_digit_value(hex_digit(d)) == Some(d as nat),
{
}

/// The lowest `n` hexadecimal digits of a number are hexadecimal digits,
/// and denote the number modulo sixteen to the power `n`.
pub proof fn lemma_hex_text_denotes(v: nat, n: nat)
    ensures
        hex_text(v, n).len() == n,
        is_hex_text(hex_text(v, n)),
        hex_number(hex_text(v, n)) == v % pow16(n),
        pow16(n) > 0,
    decreases n,
{
    if n > 0 {
        let rest = hex_text(v / 16, (n - 1) as nat);
        let digit = hex_digit((v % 16) as int);
        let text = hex_text(v, n);
        lemma_hex_text_denotes(v / 16, (n - 1) as nat);
        lemma_hex_digit_value((v % 16) as int);
        assert(text == rest.push(digit));
        assert(text.drop_last() =~= rest);
        assert(text.last() == digit);
        assert forall|i: int| 0 <= i < text.len() implies (#[trigger] hex_digit_value(
            text[i],
        )) is Some by {
            if i < rest.len() {
                assert(text[i] == rest[i]);
            }
        }
        let m = pow16((n - 1) as nat);
        vstd::arithmetic::div_mod::lemma_mod_breakdown(v as int, 16, m as int);
        assert(hex_number(text) == hex_number(rest) * 16 + (v % 16));
        assert(16 * m == pow16(n));
    }
}

/// The text of a durable id reads back as that id: what the server shows
/// a client, the client can name again.
pub proof fn law_id_text_round_trip(id: ObjectId)
    requires
        id < OBJECT_ID_LIMIT,
    ensures
        spec_parse_object_id(object_id_hex(id)) == Some(id),
{
    lemma_hex_text_denotes(id as nat, 24);
    reveal_with_fuel(pow16, 25);
    assert(pow16(24) == 0x1_0000_0000_0000_0000_0000_0000);
    assert((id as nat) % pow16(24) == id as nat);
}

/// Two durable ids with one text are one id.
pub proof fn law_id_text_is_unique(a: ObjectId, b: ObjectId)
    requires
        a < OBJECT_ID_LIMIT,
        b < OBJECT_ID_LIMIT,
        object_id_hex(a) == object_id_hex(b),
    ensures
        a == b,
{
    law_id_text_round_trip(a);
    law_id_text_round_trip(b);
}

/// Reads a durable id from its text.
pub fn parse_object_id(s: &str) -> (r: Result<ObjectId, InvalidObjectId>)
    ensures
        r == match spec_parse_object_id(s@) {
            Some(id) => Ok::<ObjectId, InvalidObjectId>(id),
            None => Err::<ObjectId, InvalidObjectId>(InvalidObjectId),
        },
{
    match decode_object_id(s) {
        Ok(id) => Ok(id),
        Err(_) => Err(InvalidObjectId),
    }
}

} // verus!
