//! Identifiers for new notes.

use vstd::prelude::*;

verus! {

/// `c` is one of `0` to `9` or `a` to `f`.
pub open spec fn is_lower_hex(c: char) -> bool {
    ('0' <= c && c <= '9') || ('a' <= c && c <= 'f')
}

/// `text` has the shape of a random (version 4) UUID in its hyphenated
/// lower-case form, such as `67e55044-10b1-426f-9247-bb680e5fe0c8`:
/// 36 characters, a hyphen in each of the places 8, 13, 18 and 23 and a
/// lower-case hexadecimal digit in every other place, of which place 14 holds
/// the version, `4`, and place 19 the variant, one of `8`, `9`, `a`, `b`.
pub open spec fn is_uuid_v4_text(text: Seq<char>) -> bool {
    &&& text.len() == 36
    &&& forall|i: int|
        0 <= i < 36 ==> if i == 8 || i == 13 || i == 18 || i == 23 {
            text[i] == '-'
        } else {
            is_lower_hex(#[trigger] text[i])
        }
    &&& text[14] == '4'
    &&& (text[19] == '8' || text[19] == '9' || text[19] == 'a' || text[19] == 'b')
}

/// A text of the shape of a version 4 UUID: the one whose hexadecimal
/// digits are all `0` but for the version and the variant.
pub proof fn uuid_v4_text_exists() -> (text: Seq<char>)
    ensures
        is_uuid_v4_text(text),
{
    Seq::new(
        36,
        |i: int|
            if i == 8 || i == 13 || i == 18 || i == 23 {
                '-'
            } else if i == 14 {
                '4'
            } else if i == 19 {
                '8'
            } else {
                '0'
            },
    )
}

/// A fresh identifier: `uuid::Uuid::new_v4()`, written out by its `Display`.
///
/// Trusted: that the text has the shape of a version 4 UUID. `new_v4` draws
/// 128 random bits and overwrites the version and variant bits; `Display`
/// writes the hyphenated lower-case form. Nothing is claimed of which
/// identifier comes out, nor that two calls differ.
#[verifier::external_body]
pub(crate) fn fresh_id() -> (id: String)
    ensures
        is_uuid_v4_text(id@),
{
    uuid::Uuid::new_v4().to_string()
}

} // verus!
