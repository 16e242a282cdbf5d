//! Stable identities for participants that no authentication step named.
//!
//! The identity of a display name is the MD5 digest of `"OfflinePlayer:"`
//! followed by the name, read as a big-endian 128-bit number and stamped as a
//! name-based (version 3) RFC 4122 identifier.

use vstd::prelude::*;
use vstd::string::*;
use vstd::utf8::*;
use byteorder::ByteOrder;

verus! {

/// The MD5 digest of `data`, as the `md5` crate computes it.
pub uninterp spec fn md5_digest(data: Seq<u8>) -> Seq<u8>;

/// Calls `md5::compute`. Trusted: the sixteen bytes handed back are the
/// digest of `data`; nothing else is claimed of them.
#[verifier::external_body]
fn md5_compute(data: &[u8]) -> (digest: [u8; 16])
    ensures
        digest@ == md5_digest(data@),
{
    md5::compute(data).0
}

/// The number that `bytes` spell when the first byte is the most significant.
pub open spec fn be_value(bytes: Seq<u8>) -> nat
    decreases bytes.len(),
{
    if bytes.len() == 0 {
        0
    } else {
        be_value(bytes.drop_last()) * 256 + bytes.last() as nat
    }
}

/// Calls `byteorder::BigEndian::read_u128`. Trusted: the result is the
/// big-endian value of the sixteen bytes.
#[verifier::external_body]
fn read_u128_be(buf: &[u8; 16]) -> (value: u128)
    ensures
        value as nat == be_value(buf@),
{
    byteorder::BigEndian::read_u128(buf)
}

/// Bits 76 to 79: the version nibble.
pub const VERSION_MASK: u128 = 0x0000_0000_0000_f000_0000_0000_0000_0000;

/// Version 3, name-based with MD5, in place.
pub const VERSION_NAME_MD5: u128 = 0x0000_0000_0000_3000_0000_0000_0000_0000;

/// Bits 62 and 63: the variant.
pub const VARIANT_MASK: u128 = 0x0000_0000_0000_0000_c000_0000_0000_0000;

/// The RFC 4122 variant, binary `10`, in place.
pub const VARIANT_RFC4122: u128 = 0x0000_0000_0000_0000_8000_0000_0000_0000;

/// The version nibble of an identity.
pub open spec fn version_of(uuid: u128) -> u128 {
    (uuid >> 76) & 0xf
}

/// The two variant bits of an identity.
pub open spec fn variant_of(uuid: u128) -> u128 {
    (uuid >> 62) & 0x3
}

/// `raw` with the version nibble set to 3 and the variant bits to `10`.
pub open spec fn stamped(raw: u128) -> u128 {
    (raw & !(VERSION_MASK | VARIANT_MASK)) | VERSION_NAME_MD5 | VARIANT_RFC4122
}

/// The text that is hashed for a display name.
pub open spec fn offline_name(username: Seq<char>) -> Seq<char> {
    "OfflinePlayer:"@ + username
}

/// The identity of a digest.
pub open spec fn digest_uuid(digest: Seq<u8>) -> u128 {
    stamped(be_value(digest) as u128)
}

/// The identity derived from a display name.
pub open spec fn offline_uuid(username: Seq<char>) -> u128 {
    digest_uuid(md5_digest(encode_utf8(offline_name(username))))
}

/// Stamping fixes the version and the variant and leaves every other bit.
pub proof fn lemma_stamped(raw: u128)
    ensures
        version_of(stamped(raw)) == 3,
        variant_of(stamped(raw)) == 2,
        stamped(raw) & !(VERSION_MASK | VARIANT_MASK) == raw & !(VERSION_MASK | VARIANT_MASK),
{
    assert(version_of(stamped(raw)) == 3) by (bit_vector);
    assert(variant_of(stamped(raw)) == 2) by (bit_vector);
    assert(stamped(raw) & !(VERSION_MASK | VARIANT_MASK) == raw & !(VERSION_MASK | VARIANT_MASK))
        by (bit_vector);
}

/// Marks a 128-bit value as a version 3 identifier of the RFC 4122 variant.
pub fn stamp_version(raw: u128) -> (uuid: u128)
    ensures
        uuid == stamped(raw),
        version_of(uuid) == 3,
        variant_of(uuid) == 2,
        uuid & !(VERSION_MASK | VARIANT_MASK) == raw & !(VERSION_MASK | VARIANT_MASK),
{
    proof {
        lemma_stamped(raw);
    }
    (raw & !(VERSION_MASK | VARIANT_MASK)) | VERSION_NAME_MD5 | VARIANT_RFC4122
}

/// The identity that a sixteen-byte digest stands for.
pub fn uuid_from_digest(digest: &[u8; 16]) -> (uuid: u128)
    ensures
        uuid == digest_uuid(digest@),
        version_of(uuid) == 3,
        variant_of(uuid) == 2,
{
    let raw = read_u128_be(digest);
    stamp_version(raw)
}

/// Derives the identity of a display name.
pub fn derive_offline_uuid(username: &str) -> (uuid: u128)
    ensures
        uuid == offline_uuid(username@),
        version_of(uuid) == 3,
        variant_of(uuid) == 2,
{
    let mut name = String::from_str("OfflinePlayer:");
    name.append(username);
    let digest = md5_compute(name.as_str().as_bytes());
    uuid_from_digest(&digest)
}

/// Derivation depends on the name alone, and every derived identity carries
/// version 3 and the variant bits `10`.
pub proof fn lemma_offline_uuid(first: Seq<char>, second: Seq<char>)
    ensures
        first == second ==> offline_uuid(first) == offline_uuid(second),
        version_of(offline_uuid(first)) == 3,
        variant_of(offline_uuid(first)) == 2,
{
    lemma_stamped(be_value(md5_digest(encode_utf8(offline_name(first)))) as u128);
}

/// The sixteen lower-case hexadecimal digits, in order.
pub open spec fn hex_digits() -> Seq<char> {
    seq!['0', '1', '2', '3', '4', '5', '6', '7', '8', '9', 'a', 'b', 'c', 'd', 'e', 'f']
}

/// The hexadecimal digit of `uuid` at place `index`, place 0 being the most
/// significant of the thirty-two.
pub open spec fn nibble_at(uuid: u128, index: u32) -> u128 {
    (uuid >> ((4 * (31 - index)) as u32)) & 0xf
}

/// The thirty-two lower-case hexadecimal digits of an identity.
pub open spec fn hex_text(uuid: u128) -> Seq<char> {
    Seq::new(32, |i: int| hex_digits()[nibble_at(uuid, i as u32) as int])
}

/// The digits of an identity in groups of 8, 4, 4, 4 and 12, with a hyphen
/// between the groups.
pub open spec fn hyphenated_text(uuid: u128) -> Seq<char> {
    let hex = hex_text(uuid);
    hex.subrange(0, 8) + seq!['-'] + hex.subrange(8, 12) + seq!['-'] + hex.subrange(12, 16)
        + seq!['-'] + hex.subrange(16, 20) + seq!['-'] + hex.subrange(20, 32)
}

/// The text of one hexadecimal digit.
pub(crate) fn hex_digit_str(nibble: u8) -> (text: &'static str)
    requires
        nibble < 16,
    ensures
        text@ == seq![hex_digits()[nibble as int]],
{
    proof {
        reveal_strlit("0");
        reveal_strlit("1");
        reveal_strlit("2");
        reveal_strlit("3");
        reveal_strlit("4");
        reveal_strlit("5");
        reveal_strlit("6");
        reveal_strlit("7");
        reveal_strlit("8");
        reveal_strlit("9");
        reveal_strlit("a");
        reveal_strlit("b");
        reveal_strlit("c");
        reveal_strlit("d");
        reveal_strlit("e");
        reveal_strlit("f");
    }
    let text = match nibble {
        0 => "0",
        1 => "1",
        2 => "2",
        3 => "3",
        4 => "4",
        5 => "5",
        6 => "6",
        7 => "7",
        8 => "8",
        9 => "9",
        10 => "a",
        11 => "b",
        12 => "c",
        13 => "d",
        14 => "e",
        _ => "f",
    };
    assert(text@ =~= seq![hex_digits()[nibble as int]]);
    text
}

/// The digit of `uuid` at place `index`.
fn nibble(uuid: u128, index: u32) -> (digit: u8)
    requires
        index < 32,
    ensures
        digit < 16,
        digit as u128 == nibble_at(uuid, index),
{
    let shift: u32 = 4 * (31 - index);
    let low: u128 = (uuid >> shift) & 0xf;
    assert(low < 16) by (bit_vector)
        requires
            low == (uuid >> shift) & 0xf,
    ;
    low as u8
}

/// Renders an identity as thirty-two lower-case hexadecimal digits, the form
/// that keys a participant's stored record.
pub fn uuid_hex(uuid: u128) -> (text: String)
    ensures
        text@ == hex_text(uuid),
{
    let mut text = String::new();
    let mut index: u32 = 0;
    while index < 32
        invariant
            index <= 32,
            text@ == hex_text(uuid).subrange(0, index as int),
        decreases 32 - index,
    {
        let digit = nibble(uuid, index);
        text.append(hex_digit_str(digit));
        index = index + 1;
        assert(text@ =~= hex_text(uuid).subrange(0, index as int));
    }
    assert(text@ =~= hex_text(uuid));
    text
}

/// Renders an identity in the usual hyphenated form.
pub fn uuid_with_hyphens(uuid: u128) -> (text: String)
    ensures
        text@ == hyphenated_text(uuid),
        text@.len() == 36,
{
    proof {
        reveal_strlit("-");
    }
    let mut text = String::new();
    let mut index: u32 = 0;
    while index < 32
        invariant
            index <= 32,
            "-"@ == seq!['-'],
            text@ == hyphenated_text(uuid).subrange(0, index + hyphens_before(index)),
        decreases 32 - index,
    {
        if index == 8 || index == 12 || index == 16 || index == 20 {
            text.append("-");
        }
        let digit = nibble(uuid, index);
        text.append(hex_digit_str(digit));
        index = index + 1;
        assert(text@ =~= hyphenated_text(uuid).subrange(0, index + hyphens_before(index)));
    }
    assert(text@ =~= hyphenated_text(uuid));
    text
}

/// How many hyphens stand before the digit at place `index`.
pub open spec fn hyphens_before(index: u32) -> int {
    if index <= 8 {
        0
    } else if index <= 12 {
        1
    } else if index <= 16 {
        2
    } else if index <= 20 {
        3
    } else {
        4
    }
}

} // verus!
