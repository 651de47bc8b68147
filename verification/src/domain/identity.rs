//! Identifiers of stored profiles.

use vstd::prelude::*;

verus! {

/// A decimal digit or one of the letters `a` to `f`.
pub open spec fn is_lower_hex(c: char) -> bool {
    ('0' <= c && c <= '9') || ('a' <= c && c <= 'f')
}

/// The hyphenated form of a UUID: 36 characters, a hyphen after the 8th,
/// the 12th, the 16th and the 20th digit, lower-case hexadecimal digits
/// elsewhere.
pub open spec fn is_uuid_text(s: Seq<char>) -> bool {
    &&& s.len() == 36
    &&& forall|i: int|
        0 <= i < 36 ==> if i == 8 || i == 13 || i == 18 || i == 23 {
            #[trigger] s[i] == '-'
        } else {
            is_lower_hex(s[i])
        }
}

/// Draws a random UUID with `uuid::Uuid::new_v4` and writes it with its
/// `Display` impl. Not proved: that the text is in the hyphenated lower-case
/// form. Nothing is claimed of which identifier comes out. `new_v4` panics
/// where the operating system gives no random bytes.
#[verifier::external_body]
pub(crate) fn random_uuid_text() -> (id: String)
    ensures
        is_uuid_text(id@),
{
    uuid::Uuid::new_v4().to_string()
}

} // verus!
