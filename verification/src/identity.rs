//! The identifier of a registered principal.

use vstd::prelude::*;

verus! {

/// A 128-bit identifier, unique to one registered principal and never
/// changed once given. Its text form is that of a UUID.
#[derive(Clone, Copy, Debug, PartialEq, Eq, Hash, Structural)]
pub struct Identity {
    /// The identifier as one number, most significant byte first.
    pub value: u128,
}

/// The sixteen lowercase hexadecimal digits.
pub open spec fn hex_digits() -> Seq<char> {
    seq!['0', '1', '2', '3', '4', '5', '6', '7', '8', '9', 'a', 'b', 'c', 'd', 'e', 'f']
}

/// The last `count` hexadecimal digits of `value`, most significant first,
/// in lower case and padded with zeros.
pub open spec fn lower_hex(value: nat, count: nat) -> Seq<char>
    decreases count,
{
    if count == 0 {
        Seq::empty()
    } else {
        lower_hex(value / 16, (count - 1) as nat).push(hex_digits()[(value % 16) as int])
    }
}

/// The hyphenated text of an identifier: its 32 hexadecimal digits in
/// groups of 8, 4, 4, 4 and 12.
pub open spec fn hyphenated(value: u128) -> Seq<char> {
    let digits = lower_hex(value as nat, 32);
    digits.subrange(0, 8) + seq!['-'] + digits.subrange(8, 12) + seq!['-'] + digits.subrange(
        12,
        16,
    ) + seq!['-'] + digits.subrange(16, 20) + seq!['-'] + digits.subrange(20, 32)
}

/// What `uuid::Uuid::parse_str` reads from a text: the identifier, or
/// nothing where the text is in none of the forms it accepts.
pub uninterp spec fn uuid_parsed(text: Seq<char>) -> Option<u128>;

/// Writes an identifier as text. Calls `Uuid::to_string`, which writes the
/// hyphenated lowercase form; `Uuid::parse_str` reads that form back to the
/// same identifier.
#[verifier::external_body]
fn format_uuid(value: u128) -> (text: String)
    ensures
        text@ == hyphenated(value),
        uuid_parsed(text@) == Some(value),
{
    uuid::Uuid::from_u128(value).to_string()
}

/// Reads an identifier from text. Calls `Uuid::parse_str`.
#[verifier::external_body]
fn parse_uuid(text: &str) -> (value: Option<u128>)
    ensures
        value == uuid_parsed(text@),
{
    uuid::Uuid::parse_str(text).ok().map(|id| id.as_u128())
}

impl Identity {
    /// The identifier with the given number.
    pub fn new(value: u128) -> (id: Identity)
        ensures
            id.value == value,
    {
        Identity { value }
    }

    /// The hyphenated text of the identifier, which [`Identity::parse`]
    /// reads back.
    pub fn to_text(&self) -> (text: String)
        ensures
            text@ == hyphenated(self.value),
            uuid_parsed(text@) == Some(self.value),
    {
        format_uuid(self.value)
    }

    /// Reads an identifier from its text, in any of the forms of a UUID.
    pub fn parse(text: &str) -> (id: Option<Identity>)
        ensures
            id == match uuid_parsed(text@) {
                Some(value) => Some(Identity { value }),
                None => None,
            },
    {
        match parse_uuid(text) {
            Some(value) => Some(Identity { value }),
            None => None,
        }
    }
}

} // verus!
