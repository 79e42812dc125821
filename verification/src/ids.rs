use vstd::prelude::*;

verus! {

/// The lower-case hexadecimal digit of a value below sixteen.
pub open spec fn hex_char(d: nat) -> char {
    if d < 10 {
        ((48 + d) as u32) as char
    } else {
        ((87 + d) as u32) as char
    }
}

/// The `width` lowest hexadecimal digits of `v`, most significant first.
pub open spec fn hex_text(v: nat, width: nat) -> Seq<char>
    decreases width,
{
    if width == 0 {
        seq![]
    } else {
        hex_text(v / 16, (width - 1) as nat).push(hex_char(v % 16))
    }
}

/// The hyphenated lower-case text of an identifier: its 32 hexadecimal
/// digits, most significant first, grouped 8-4-4-4-12.
pub open spec fn uuid_text(id: u128) -> Seq<char> {
    let v = id as nat;
    hex_text(v / 0x1_0000_0000_0000_0000_0000_0000, 8) + seq!['-'] + hex_text(
        (v / 0x1_0000_0000_0000_0000_0000) % 0x1_0000,
        4,
    ) + seq!['-'] + hex_text((v / 0x1_0000_0000_0000_0000) % 0x1_0000, 4) + seq!['-'] + hex_text(
        (v / 0x1_0000_0000_0000) % 0x1_0000,
        4,
    ) + seq!['-'] + hex_text(v % 0x1_0000_0000_0000, 12)
}

/// What `uuid::Uuid::parse_str` gives for a text: the identifier's bits,
/// or nothing when the text is no identifier.
pub uninterp spec fn uuid_parsed(text: Seq<char>) -> Option<u128>;

/// Formats an identifier through `uuid::Uuid::from_u128` and
/// `to_string`, which writes the hyphenated lower-case form. The uuid crate
/// documents that parsing that form gives the identifier back, which the
/// second clause states.
#[verifier::external_body]
pub fn uuid_to_text(id: u128) -> (s: String)
    ensures
        s@ == uuid_text(id),
        uuid_parsed(s@) == Some(id),
{
    uuid::Uuid::from_u128(id).to_string()
}

/// Parses an identifier through `uuid::Uuid::parse_str`, named by
/// `uuid_parsed`.
#[verifier::external_body]
pub fn parse_uuid(text: &str) -> (r: Option<u128>)
    ensures
        r == uuid_parsed(text@),
{
    uuid::Uuid::parse_str(text).ok().map(|u| u.as_u128())
}

/// An identifier of the random kind: its version field, bits 76 to 79,
/// holds 4, and its variant field, bits 62 and 63, holds the RFC 9562
/// pattern `0b10`.
pub open spec fn is_random_uuid(id: u128) -> bool {
    &&& (id as nat / 0x1_0000_0000_0000_0000_000) % 16 == 4
    &&& (id as nat / 0x4000_0000_0000_0000) % 4 == 2
}

/// Draws a fresh random identifier through `uuid::Uuid::new_v4`, which
/// masks random bits with `0xFFFFFFFFFFFF4FFFBFFFFFFFFFFFFFFF` and sets
/// `0x40008000000000000000`: the other 122 bits are random, so only the
/// version and variant fields are stated.
#[verifier::external_body]
pub fn new_uuid_v4() -> (id: u128)
    ensures
        is_random_uuid(id),
{
    uuid::Uuid::new_v4().as_u128()
}

} // verus!
