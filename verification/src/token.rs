//! Identity tokens: the strings by which a scheduler tells blocks apart.

use vstd::prelude::*;

verus! {

/// The number of characters of a token.
pub const TOKEN_LEN: usize = 32;

/// Whether `c` is a hexadecimal digit in lower case.
pub open spec fn is_lower_hex(c: char) -> bool {
    ('0' <= c && c <= '9') || ('a' <= c && c <= 'f')
}

/// Whether `id` has the shape of a token: thirty-two hexadecimal digits in
/// lower case that spell a random (version 4) UUID without hyphens, so the
/// thirteenth digit is `4` and the seventeenth is one of `8`, `9`, `a`, `b`.
pub open spec fn is_token(id: Seq<char>) -> bool {
    &&& id.len() == TOKEN_LEN
    &&& forall|i: int| 0 <= i < id.len() ==> is_lower_hex(#[trigger] id[i])
    &&& id[12] == '4'
    &&& (id[16] == '8' || id[16] == '9' || id[16] == 'a' || id[16] == 'b')
}

/// Draws a fresh token.
///
/// Trusted: calls `uuid::Uuid::new_v4` and writes the result in the crate's
/// simple format. The contract claims only the shape of the string, which
/// holds of every draw: `new_v4` fixes the version and variant bits, and the
/// simple format is thirty-two lower-case hexadecimal digits. Which token
/// comes back is left open, and so is whether two draws differ. The call
/// aborts if the operating system hands out no random bytes.
#[verifier::external_body]
pub(crate) fn fresh_token() -> (id: String)
    ensures
        is_token(id@),
{
    uuid::Uuid::new_v4().simple().to_string()
}

} // verus!
