//! Storage keys in their text form.

use vstd::prelude::*;

verus! {

/// Whether a character is a hexadecimal digit, in either case.
pub open spec fn is_hex_digit(c: char) -> bool {
    ||| '0' <= c <= '9'
    ||| 'a' <= c <= 'f'
    ||| 'A' <= c <= 'F'
}

/// Whether a text is the hexadecimal form of a storage key: twenty-four
/// hexadecimal digits, which spell twelve bytes.
pub open spec fn is_object_id(text: Seq<char>) -> bool {
    &&& text.len() == 24
    &&& forall|i: int| 0 <= i < text.len() ==> is_hex_digit(#[trigger] text[i])
}

/// Asks `ObjectId::parse_str` of `bson`, as `mongodb` hands it on, whether it
/// accepts the text.
///
/// Trusted: it decodes the text with `hex::decode`, which takes the digits
/// `0-9`, `a-f` and `A-F` in pairs and nothing else, and then asks for
/// exactly twelve bytes.
#[verifier::external_body]
pub(crate) fn parses_as_object_id(text: &str) -> (accepted: bool)
    ensures
        accepted == is_object_id(text@),
{
    mongodb::bson::oid::ObjectId::parse_str(text).is_ok()
}

} // verus!
