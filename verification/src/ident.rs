//! Identifiers of filters and playlists.

use vstd::prelude::*;

verus! {

/// Whether `c` is one of `0` to `9` and `a` to `f`.
pub open spec fn is_lower_hex(c: char) -> bool {
    ('0' <= c && c <= '9') || ('a' <= c && c <= 'f')
}

/// The textual form of a UUID: 32 lower-case hexadecimal digits in groups of
/// 8, 4, 4, 4 and 12, with a hyphen between two groups.
pub open spec fn is_uuid_text(text: Seq<char>) -> bool {
    &&& text.len() == 36
    &&& forall|i: int|
        0 <= i < 36 ==> if i == 8 || i == 13 || i == 18 || i == 23 {
            text[i] == '-'
        } else {
            is_lower_hex(#[trigger] text[i])
        }
}

/// `uuid::Uuid::new_v4`, written out by the `Display` of `Uuid`: a random
/// identifier in hyphenated lower-case form. Which identifier comes is left open.
#[verifier::external_body]
pub(crate) fn fresh_id() -> (id: String)
    ensures
        is_uuid_text(id@),
{
    uuid::Uuid::new_v4().to_string()
}

} // verus!
