//! Fresh identifiers for new rows.

use vstd::prelude::*;

verus! {

/// Whether a character is a digit or one of the letters `a` to `f`.
pub open spec fn is_lower_hex(c: char) -> bool {
    ('0' <= c && c <= '9') || ('a' <= c && c <= 'f')
}

/// Whether a text has the shape of a UUID in its usual writing: thirty-two
/// lower-case hexadecimal digits in groups of 8, 4, 4, 4 and 12, with a
/// hyphen between the groups.
pub open spec fn is_hyphenated_id(id: Seq<char>) -> bool {
    &&& id.len() == 36
    &&& forall|i: int|
        0 <= i < 36 ==> if i == 8 || i == 13 || i == 18 || i == 23 {
            #[trigger] id[i] == '-'
        } else {
            is_lower_hex(id[i])
        }
}

/// Calls `uuid::Uuid::new_v4` and writes the result with `to_string`.
///
/// Trusted: the text has the hyphenated lower-case shape. Which id comes
/// back is left open, and so is whether it was handed out before; the
/// callers test that against the table. The outside function panics where
/// the operating system gives no random bytes.
#[verifier::external_body]
pub(crate) fn new_id() -> (id: String)
    ensures
        is_hyphenated_id(id@),
{
    uuid::Uuid::new_v4().to_string()
}

} // verus!
