//! Gallery identifiers.
//!
//! Each listing keeps its photos in a directory of its own, named by a
//! random identifier that is also stored in the listing's
//! `gallery_location`.

use crate::text::chars_of;
use vstd::prelude::*;

verus! {

/// The length of an identifier, in characters.
pub const IDENTIFIER_LENGTH: usize = 36;

/// A decimal digit or one of `a` to `f`.
pub open spec fn is_lower_hex(c: char) -> bool {
    ('0' <= c && c <= '9') || ('a' <= c && c <= 'f')
}

/// What an identifier has at position `i`: a hyphen after the groups of 8, 4,
/// 4 and 4 digits, the version digit `4` at the head of the third group, one
/// of `8`, `9`, `a`, `b` at the head of the fourth, and a lower-case
/// hexadecimal digit anywhere else.
pub open spec fn fits_at(c: char, i: int) -> bool {
    if i == 8 || i == 13 || i == 18 || i == 23 {
        c == '-'
    } else if i == 14 {
        c == '4'
    } else if i == 19 {
        c == '8' || c == '9' || c == 'a' || c == 'b'
    } else {
        is_lower_hex(c)
    }
}

/// The textual form of a random (version 4) UUID: 36 characters, hyphenated,
/// in lower case.
pub open spec fn is_identifier(text: Seq<char>) -> bool {
    &&& text.len() == IDENTIFIER_LENGTH
    &&& forall|i: int| 0 <= i < text.len() ==> fits_at(#[trigger] text[i], i)
}

/// Draws a fresh identifier.
///
/// Trusted: the body calls `uuid::Uuid::new_v4` and renders the result with
/// `to_string`. The contract claims the shape of the text only: `new_v4`
/// forces the version and variant bits of 128 random bits, and the rendering
/// is the hyphenated lower-case form. Nothing is claimed about which
/// identifier comes back, nor that two calls differ. `new_v4` panics if the
/// operating system cannot supply random bytes.
#[verifier::external_body]
pub(crate) fn random_identifier() -> (identifier: String)
    ensures
        is_identifier(identifier@),
{
    uuid::Uuid::new_v4().to_string()
}

fn char_fits_at(c: char, i: usize) -> (fits: bool)
    ensures
        fits == fits_at(c, i as int),
{
    if i == 8 || i == 13 || i == 18 || i == 23 {
        c == '-'
    } else if i == 14 {
        c == '4'
    } else if i == 19 {
        c == '8' || c == '9' || c == 'a' || c == 'b'
    } else {
        ('0' <= c && c <= '9') || ('a' <= c && c <= 'f')
    }
}

/// Whether `text` has the shape of an identifier.
pub fn has_identifier_shape(text: &str) -> (valid: bool)
    ensures
        valid == is_identifier(text@),
{
    let chars = chars_of(text);
    if chars.len() != IDENTIFIER_LENGTH {
        return false;
    }
    let mut i: usize = 0;
    while i < chars.len()
        invariant
            chars@ == text@,
            i <= chars@.len(),
            chars@.len() == IDENTIFIER_LENGTH,
            forall|j: int| 0 <= j < i ==> fits_at(#[trigger] text@[j], j),
        decreases chars@.len() - i,
    {
        if !char_fits_at(chars[i], i) {
            assert(!fits_at(text@[i as int], i as int));
            return false;
        }
        i += 1;
    }
    true
}

} // verus!
