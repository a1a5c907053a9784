//! Identifiers: 128-bit values, drawn at random and kept as hyphenated text.
//!
//! An [`Id`] holds the 128 bits as a plain integer. The `uuid` crate draws the
//! random bits and converts between the integer and its text.

use vstd::prelude::*;

verus! {

/// The sixteen lower-case hexadecimal digits, in order.
pub open spec fn hex_digits() -> Seq<char> {
    seq!['0', '1', '2', '3', '4', '5', '6', '7', '8', '9', 'a', 'b', 'c', 'd', 'e', 'f']
}

/// Sixteen to the power `exp`.
pub open spec fn pow16(exp: nat) -> nat
    decreases exp,
{
    if exp == 0 {
        1
    } else {
        16 * pow16((exp - 1) as nat)
    }
}

/// The hexadecimal digit of `value` at place `k`, counted from the most
/// significant of the 32 digits.
pub open spec fn hex_digit_at(value: u128, k: int) -> int
    recommends
        0 <= k < 32,
{
    (value as int / pow16((31 - k) as nat) as int) % 16
}

/// Which of the 32 digits stands at place `i` of the 36 characters, the four
/// hyphens not counted.
pub open spec fn digit_place(i: int) -> int {
    if i < 8 {
        i
    } else if i < 13 {
        i - 1
    } else if i < 18 {
        i - 2
    } else if i < 23 {
        i - 3
    } else {
        i - 4
    }
}

/// The hyphenated text of a 128-bit identifier: 32 lower-case hexadecimal
/// digits, most significant first, in groups of 8, 4, 4, 4 and 12 with a
/// hyphen between the groups.
pub open spec fn hyphenated(value: u128) -> Seq<char> {
    Seq::new(
        36,
        |i: int|
            if i == 8 || i == 13 || i == 18 || i == 23 {
                '-'
            } else {
                hex_digits()[hex_digit_at(value, digit_place(i))]
            },
    )
}

/// Whether the bits carry the marks of a randomly drawn identifier: version 4
/// in bits 76 to 79 and the variant `10` in bits 62 and 63.
pub open spec fn is_random_form(value: u128) -> bool {
    (value >> 76u128) & 0xf == 4 && (value >> 62u128) & 0x3 == 2
}

/// What `uuid::Uuid::parse_str` makes of a text: the 128 bits, or `None` where
/// it rejects the text.
pub uninterp spec fn uuid_parse(text: Seq<char>) -> Option<u128>;

/// Calls `uuid::Uuid::new_v4` and hands the bits out as an integer.
///
/// The bits are random, so nothing is said of them but the version and variant
/// marks that `new_v4` sets in every identifier it draws. `new_v4` panics when
/// the operating system gives no random bytes.
#[verifier::external_body]
fn uuid_v4() -> (value: u128)
    ensures
        is_random_form(value),
{
    uuid::Uuid::new_v4().as_u128()
}

/// Calls `to_string` on the `uuid::Uuid` made of `value`.
///
/// The text is the hyphenated lower-case form, and `uuid::Uuid::parse_str`
/// reads that form back to the same bits.
#[verifier::external_body]
fn uuid_text(value: u128) -> (text: String)
    ensures
        text@ == hyphenated(value),
        uuid_parse(text@) == Some(value),
{
    uuid::Uuid::from_u128(value).to_string()
}

/// Calls `uuid::Uuid::parse_str` and hands the bits out as an integer.
#[verifier::external_body]
fn uuid_bits(text: &str) -> (bits: Option<u128>)
    ensures
        bits == uuid_parse(text@),
{
    match uuid::Uuid::parse_str(text) {
        Ok(parsed) => Some(parsed.as_u128()),
        Err(_) => None,
    }
}

/// A unique 128-bit identifier of an entity or a session.
#[derive(Debug, Clone, Copy, PartialEq, Eq, Hash, Structural)]
pub struct Id {
    pub value: u128,
}

impl Id {
    /// The text in which an identifier is stored and shown.
    pub open spec fn text(self) -> Seq<char> {
        hyphenated(self.value)
    }

    /// The identifier that a text stands for, if it stands for one.
    pub open spec fn from_text(text: Seq<char>) -> Option<Id> {
        match uuid_parse(text) {
            Some(value) => Some(Id { value }),
            None => None,
        }
    }

    /// Whether the identifier has the form of a randomly drawn one.
    pub open spec fn is_random(self) -> bool {
        is_random_form(self.value)
    }

    /// The identifier whose bits are all zero.
    pub fn nil() -> (id: Id)
        ensures
            id.value == 0,
    {
        Id { value: 0 }
    }

    /// Draws a fresh random identifier.
    pub fn generate() -> (id: Id)
        ensures
            id.is_random(),
    {
        Id { value: uuid_v4() }
    }

    /// Writes the identifier as hyphenated text, which `parse` reads back.
    pub fn to_text(&self) -> (text: String)
        ensures
            text@ == self.text(),
            Id::from_text(text@) == Some(*self),
    {
        uuid_text(self.value)
    }

    /// Reads an identifier from text; `None` where the text is not one.
    pub fn parse(text: &str) -> (id: Option<Id>)
        ensures
            id == Id::from_text(text@),
    {
        match uuid_bits(text) {
            Some(value) => Some(Id { value }),
            None => None,
        }
    }
}

} // verus!
