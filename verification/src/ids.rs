//! Identifiers of users, groups, messages and files: UUIDs, held as the
//! 128-bit number that the `uuid` crate reads and writes.

use vstd::prelude::*;

verus! {

/// The lower-case hexadecimal digit of `d`, from 0 to 15.
pub open spec fn hex_digit(d: int) -> char {
    if d < 10 {
        (48 + d) as char
    } else {
        (87 + d) as char
    }
}

/// The `n` lowest hexadecimal digits of `v`, most significant first.
pub open spec fn hex_digits(v: nat, n: nat) -> Seq<char>
    decreases n,
{
    if n == 0 {
        seq![]
    } else {
        hex_digits(v / 16, (n - 1) as nat).push(hex_digit((v % 16) as int))
    }
}

/// The hyphenated text of the UUID `id`: its 128 bits as 32 lower-case
/// hexadecimal digits, most significant first, in groups of 8, 4, 4, 4 and
/// 12 joined by `-` (what `Uuid::from_u128(id).to_string()` writes).
pub open spec fn uuid_text(id: u128) -> Seq<char> {
    let h = hex_digits(id as nat, 32);
    h.subrange(0, 8) + seq!['-'] + h.subrange(8, 12) + seq!['-'] + h.subrange(12, 16) + seq!['-']
        + h.subrange(16, 20) + seq!['-'] + h.subrange(20, 32)
}

/// What `uuid::Uuid::parse_str` reads from `text`: `None` where it refuses.
pub uninterp spec fn uuid_parse(text: Seq<char>) -> Option<u128>;

/// The nil UUID, all of whose bits are zero (`uuid::Uuid::nil()`).
pub const NIL_ID: u128 = 0;

/// The number that 16 bytes spell, most significant byte first.
pub open spec fn big_endian(bytes: Seq<u8>) -> nat
    decreases bytes.len(),
{
    if bytes.len() == 0 {
        0
    } else {
        big_endian(bytes.drop_last()) * 256 + bytes.last() as nat
    }
}

/// The version 4 (random) UUID made of `bytes`: their number with the
/// version bits set to 4 and the variant bits to the RFC 4122 variant.
pub open spec fn random_uuid(bytes: Seq<u8>) -> u128 {
    ((big_endian(bytes) as u128) & 0xFFFF_FFFF_FFFF_0FFF_3FFF_FFFF_FFFF_FFFFu128)
        | 0x4000_8000_0000_0000_0000u128
}

/// `uuid::Builder::from_random_bytes(bytes).into_uuid()`, as its number:
/// the bytes with the version and variant bits set.
#[verifier::external_body]
fn uuid_from_random_bytes(bytes: [u8; 16]) -> (r: u128)
    ensures
        r == random_uuid(bytes@),
{
    uuid::Builder::from_random_bytes(bytes).into_uuid().as_u128()
}

/// A new random (version 4) identifier drawn from the system's random
/// source, as `uuid::Uuid::new_v4` makes one; `None` where the source fails.
pub fn fresh_id() -> (r: Option<u128>)
    ensures
        r matches Some(id) ==> exists|bytes: Seq<u8>| bytes.len() == 16 && id == #[trigger] random_uuid(bytes),
{
    let rng = ring::rand::SystemRandom::new();
    let mut bytes: [u8; 16] = [0u8; 16];
    match crate::crypto::fill_random(&rng, &mut bytes) {
        Ok(()) => {
            let id = uuid_from_random_bytes(bytes);
            assert(bytes@.len() == 16 && id == random_uuid(bytes@));
            Some(id)
        },
        Err(_) => None,
    }
}

/// `Uuid::to_string` on `Uuid::from_u128(id)`: the hyphenated text of `id`.
#[verifier::external_body]
pub(crate) fn id_text(id: u128) -> (r: String)
    ensures
        r@ == uuid_text(id),
{
    uuid::Uuid::from_u128(id).to_string()
}

/// `uuid::Uuid::parse_str`: the named reading of `text`; the crate documents
/// that every format it writes is read back, so the text written for an
/// identifier reads as that identifier.
#[verifier::external_body]
pub(crate) fn parse_id(text: &str) -> (r: Option<u128>)
    ensures
        r == uuid_parse(text@),
        forall|id: u128| uuid_text(id) == text@ ==> r == Some(id),
{
    match uuid::Uuid::parse_str(text) {
        Ok(id) => Some(id.as_u128()),
        Err(_) => None,
    }
}

} // verus!
