//! Identifiers: the 128 bits of a UUID, and their text.

use vstd::prelude::*;

verus! {

/// Identifies an agent: the 128 bits of its UUID.
pub type AgentId = u128;

/// The recipient that stands for "every agent": the nil UUID.
pub const BROADCAST: AgentId = 0;

/// The bits that carry a UUID's version and variant.
pub const VERSION_VARIANT_MASK: u128 = 0x0000_0000_0000_f000_c000_0000_0000_0000;

/// Version 4 (random) in the RFC 9562 variant.
pub const RANDOM_VERSION_VARIANT: u128 = 0x0000_0000_0000_4000_8000_0000_0000_0000;

/// Whether `bits` are those of a random (version 4) UUID.
pub open spec fn is_random_uuid(bits: u128) -> bool {
    bits & VERSION_VARIANT_MASK == RANDOM_VERSION_VARIANT
}

/// The lower-case hexadecimal digit for a value below 16.
pub open spec fn hex_digit(value: u128) -> char {
    seq!['0', '1', '2', '3', '4', '5', '6', '7', '8', '9', 'a', 'b', 'c', 'd', 'e', 'f'][value as int]
}

/// The `k`-th group of four bits, counted from the most significant.
pub open spec fn nibble(bits: u128, k: int) -> u128 {
    (bits >> ((4 * (31 - k)) as u128)) & 0xf
}

/// Which hexadecimal digit stands at position `i` of the hyphenated text.
pub open spec fn digit_at(i: int) -> int {
    if i < 8 {
        i
    } else if i < 13 {
        i - 1
    } else if i < 18 {
        i - 2
    } else if i < 23 {
        i - 3
    } else {
        i - 4
    }
}

/// The hyphenated lower-case text of a UUID: 8-4-4-4-12 hexadecimal digits.
pub open spec fn uuid_text(bits: u128) -> Seq<char> {
    Seq::new(
        36,
        |i: int|
            if i == 8 || i == 13 || i == 18 || i == 23 {
                '-'
            } else {
                hex_digit(nibble(bits, digit_at(i)))
            },
    )
}

/// Draws a random UUID with `uuid::Uuid::new_v4` and hands out its bits.
///
/// Trusted: the crate masks the version and variant bits into the random
/// value, so every outcome is a version 4 UUID. Nothing else is stated.
#[verifier::external_body]
pub(crate) fn random_uuid_bits() -> (bits: u128)
    ensures
        is_random_uuid(bits),
{
    uuid::Uuid::new_v4().as_u128()
}

/// Formats a UUID with the `Display` impl of `uuid::Uuid`.
///
/// Trusted: the crate prints the sixteen bytes, most significant first, as
/// lower-case hexadecimal digits with hyphens after the 8th, 12th, 16th and
/// 20th digit.
#[verifier::external_body]
pub(crate) fn hyphenated(bits: u128) -> (text: String)
    ensures
        text@ == uuid_text(bits),
{
    uuid::Uuid::from_u128(bits).to_string()
}

/// A random UUID is never the broadcast recipient.
pub proof fn lemma_random_uuid_is_not_broadcast(bits: u128)
    requires
        is_random_uuid(bits),
    ensures
        bits != BROADCAST,
{
    assert(bits & 0x0000_0000_0000_f000_c000_0000_0000_0000
        == 0x0000_0000_0000_4000_8000_0000_0000_0000 ==> bits != 0) by (bit_vector);
}

/// A fresh identifier for an agent.
pub fn fresh_agent_id() -> (id: AgentId)
    ensures
        is_random_uuid(id),
        id != BROADCAST,
{
    let id = random_uuid_bits();
    proof {
        lemma_random_uuid_is_not_broadcast(id);
    }
    id
}

/// A fresh identifier for an order.
pub fn fresh_order_id() -> (id: u128)
    ensures
        is_random_uuid(id),
        id != 0,
{
    let id = random_uuid_bits();
    proof {
        lemma_random_uuid_is_not_broadcast(id);
    }
    id
}

/// The text of the UUID with the given bits.
pub fn uuid_string(bits: u128) -> (text: String)
    ensures
        text@ == uuid_text(bits),
        text@.len() == 36,
{
    hyphenated(bits)
}

/// A fresh identifier for a record: the text of a random UUID.
pub fn fresh_record_id() -> (id: String)
    ensures
        is_record_id(id@),
{
    let bits = random_uuid_bits();
    hyphenated(bits)
}

/// Whether `text` is the text of some random UUID.
pub open spec fn is_record_id(text: Seq<char>) -> bool {
    exists|bits: u128| is_random_uuid(bits) && text == #[trigger] uuid_text(bits)
}

} // verus!
