//! Universally unique identifiers as 128-bit numbers.

use vstd::prelude::*;

verus! {

/// The digit that stands for `n` in base 16.
pub open spec fn hex_digit(n: int, upper: bool) -> char {
    if 0 <= n < 10 {
        ((48 + n) as u8) as char
    } else if upper {
        ((55 + n) as u8) as char
    } else {
        ((87 + n) as u8) as char
    }
}

/// The four bits of `value` that its `i`-th digit in base 16 shows, counted
/// from the most significant of the 32 digits.
pub open spec fn nibble(value: u128, i: int) -> int {
    ((value >> ((4 * (31 - i)) as u128)) & 0xF) as int
}

/// The 32 digits of `value` in base 16, the most significant first.
pub open spec fn simple_text(value: u128, upper: bool) -> Seq<char> {
    Seq::new(32, |i: int| hex_digit(nibble(value, i), upper))
}

/// The digits of `value` in groups of 8, 4, 4, 4 and 12, with hyphens
/// between the groups.
pub open spec fn hyphenated_text(value: u128, upper: bool) -> Seq<char> {
    let digits = simple_text(value, upper);
    digits.subrange(0, 8).push('-') + digits.subrange(8, 12).push('-') + digits.subrange(
        12,
        16,
    ).push('-') + digits.subrange(16, 20).push('-') + digits.subrange(20, 32)
}

/// A universally unique identifier.
#[derive(Clone, Copy, Debug, PartialEq, Eq, Hash, Structural)]
pub struct Guid {
    pub value: u128,
}

impl Guid {
    /// The identifier says of itself that it was drawn at random: its
    /// version is 4 and its variant is the one of RFC 9562.
    pub open spec fn is_random(self) -> bool {
        (self.value >> 76u128) & 0xF == 4 && (self.value >> 62u128) & 0x3 == 2
    }

    /// A fresh identifier of version 4.
    pub fn random() -> (r: Guid)
        ensures
            r.is_random(),
    {
        Guid { value: new_v4() }
    }

    /// The 32 upper-case digits of the identifier.
    pub fn to_simple_upper(&self) -> (r: String)
        ensures
            r@ == simple_text(self.value, true),
    {
        encode_simple_upper(self.value)
    }

    /// The lower-case digits of the identifier with its four hyphens.
    pub fn to_hyphenated(&self) -> (r: String)
        ensures
            r@ == hyphenated_text(self.value, false),
    {
        encode_hyphenated_lower(self.value)
    }
}

/// Calls `uuid::Uuid::new_v4` and hands the identifier out as a number.
/// The value is random; the contract states the version and variant bits
/// that `new_v4` sets in every value.
#[verifier::external_body]
fn new_v4() -> (r: u128)
    ensures
        (Guid { value: r }).is_random(),
{
    uuid::Uuid::new_v4().as_u128()
}

/// Calls `uuid::fmt::Simple::encode_upper`: 32 upper-case digits in base 16,
/// the most significant first.
#[verifier::external_body]
fn encode_simple_upper(value: u128) -> (r: String)
    ensures
        r@ == simple_text(value, true),
{
    let mut buffer = uuid::Uuid::encode_buffer();
    uuid::Uuid::from_u128(value).simple().encode_upper(&mut buffer).to_owned()
}

/// Calls `uuid::fmt::Hyphenated::encode_lower`: the lower-case digits in
/// groups of 8, 4, 4, 4 and 12 with hyphens between them.
#[verifier::external_body]
fn encode_hyphenated_lower(value: u128) -> (r: String)
    ensures
        r@ == hyphenated_text(value, false),
{
    let mut buffer = uuid::Uuid::encode_buffer();
    uuid::Uuid::from_u128(value).hyphenated().encode_lower(&mut buffer).to_owned()
}

/// The simple form has 32 characters, all of them ASCII.
pub proof fn lemma_simple_text(value: u128, upper: bool)
    ensures
        simple_text(value, upper).len() == 32,
        forall|i: int| 0 <= i < 32 ==> simple_text(value, upper)[i] <= '\u{7f}',
{
    assert forall|i: int| 0 <= i < 32 implies simple_text(value, upper)[i] <= '\u{7f}' by {
        let shift = (4 * (31 - i)) as u128;
        let n = (value >> shift) & 0xF;
        assert(n <= 15) by (bit_vector)
            requires
                n == (value >> shift) & 0xF,
        ;
    }
}

} // verus!
