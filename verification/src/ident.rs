//! Identifiers for every stored entity: ULIDs in their canonical text form.
use vstd::prelude::*;

verus! {

/// Length of a ULID in its canonical text form.
pub const ID_LEN: usize = 26;

/// The 32 characters of Crockford's base32 alphabet that a ULID is written in.
pub open spec fn is_ulid_char(c: char) -> bool {
    ('0' <= c <= '9') || ('A' <= c <= 'H') || c == 'J' || c == 'K' || c == 'M' || c == 'N' || (
    'P' <= c <= 'T') || ('V' <= c <= 'Z')
}

/// A ULID written out: 26 characters of the base32 alphabet.
pub open spec fn is_ulid_text(s: Seq<char>) -> bool {
    &&& s.len() == ID_LEN
    &&& forall|i: int| 0 <= i < s.len() ==> is_ulid_char(#[trigger] s[i])
}

/// Generates a fresh ULID with `ulid::Ulid::new` (current time plus random
/// bits) and writes it out with `Ulid::to_string`, whose encoder emits exactly
/// `ULID_LEN` (26) characters from the alphabet
/// `0123456789ABCDEFGHJKMNPQRSTVWXYZ`. The value itself depends on the clock
/// and the random generator, so nothing is claimed of it beyond that shape.
#[verifier::external_body]
pub(crate) fn fresh_id() -> (id: String)
    ensures
        is_ulid_text(id@),
{
    ulid::Ulid::new().to_string()
}

} // verus!
