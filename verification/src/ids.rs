//! Thread and request identifiers.

use vstd::prelude::*;

verus! {

/// A thread, by the 128 bits of its UUID.
pub type ThreadId = u128;

/// A request to start a side conversation, by the 128 bits of its UUID.
pub type StartRequestId = u128;

/// The lower-case hexadecimal digit of a number below sixteen.
pub open spec fn hex_digit(n: int) -> char {
    "0123456789abcdef"@[n]
}

/// The hyphenated form of an identifier: thirty-two lower-case hexadecimal digits, the most
/// significant first, in groups of eight, four, four, four and twelve.
pub open spec fn id_text(id: u128) -> Seq<char> {
    let digit = |i: int| hex_digit((id as int / vstd::arithmetic::power::pow(16, (31 - i) as nat)) % 16);
    Seq::new(
        36,
        |i: int|
            if i < 8 {
                digit(i)
            } else if i == 8 || i == 13 || i == 18 || i == 23 {
                '-'
            } else if i < 13 {
                digit(i - 1)
            } else if i < 18 {
                digit(i - 2)
            } else if i < 23 {
                digit(i - 3)
            } else {
                digit(i - 4)
            },
    )
}

/// What `uuid::Uuid::parse_str` makes of a text: the identifier's bits, or nothing where the text
/// is no UUID in any form that it reads.
pub uninterp spec fn parsed_id(text: Seq<char>) -> Option<u128>;

/// Reads an identifier with `uuid::Uuid::parse_str`. The result is a function of the text alone,
/// and is left unsaid beyond that.
#[verifier::external_body]
fn parse_uuid(text: &str) -> (r: Option<u128>)
    ensures
        r == parsed_id(text@),
{
    uuid::Uuid::parse_str(text).ok().map(|id| id.as_u128())
}

/// Writes an identifier with the `Display` of `uuid::Uuid`, which is the hyphenated form in lower
/// case.
#[verifier::external_body]
pub(crate) fn id_to_string(id: u128) -> (r: String)
    ensures
        r@ == id_text(id),
{
    uuid::Uuid::from_u128(id).to_string()
}

/// An identifier that is marked as a random one: version four, in the variant of RFC 9562.
pub open spec fn is_random_id(id: u128) -> bool {
    id & 0xF000_C000_0000_0000_0000 == 0x4000_8000_0000_0000_0000
}

/// Draws an identifier with `uuid::Uuid::new_v4`. Of the bits drawn nothing is said but that the
/// mark of a random identifier is on them. The call panics on a machine that has no source of
/// random numbers.
#[verifier::external_body]
pub(crate) fn random_id() -> (r: u128)
    ensures
        is_random_id(r),
{
    uuid::Uuid::new_v4().as_u128()
}

/// Reads a thread identifier; `None` where the text is none.
pub fn thread_id_from_string(text: &str) -> (r: Option<ThreadId>)
    ensures
        r == parsed_id(text@),
{
    parse_uuid(text)
}

} // verus!
