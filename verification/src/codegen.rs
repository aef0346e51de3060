//! Generation of short codes.
//!
//! A code is the first eight characters of a freshly drawn random UUID:
//! eight lowercase hexadecimal digits, a space large enough that a
//! collision is negligible at expected volumes. Generation does not by
//! itself guarantee uniqueness against the store; the creation flow
//! treats a write conflict as the signal to regenerate and retry, a
//! bounded number of times.

use vstd::prelude::*;

verus! {

/// Length of a short code in characters.
pub const CODE_LEN: usize = 8;

/// A lowercase hexadecimal digit.
pub open spec fn is_lower_hex_digit(c: char) -> bool {
    ('0' <= c && c <= '9') || ('a' <= c && c <= 'f')
}

/// A well-formed short code: exactly `CODE_LEN` lowercase hexadecimal
/// digits.
pub open spec fn code_wf(s: Seq<char>) -> bool {
    s.len() == CODE_LEN && forall|i: int| 0 <= i < s.len() ==> is_lower_hex_digit(#[trigger] s[i])
}

/// Relies on uuid::Uuid::new_v4 and on Uuid's Display form: a freshly
/// drawn random UUID rendered hyphenated, 36 characters, lowercase
/// hexadecimal digits except for hyphens at positions 8, 13, 18 and 23.
/// The value is random, so nothing relates one call to another.
#[verifier::external_body]
fn random_uuid_string() -> (r: String)
    ensures
        r@.len() == 36,
        forall|i: int|
            0 <= i < 36 && i != 8 && i != 13 && i != 18 && i != 23 ==> is_lower_hex_digit(
                #[trigger] r@[i],
            ),
        r@[8] == '-' && r@[13] == '-' && r@[18] == '-' && r@[23] == '-',
{
    uuid::Uuid::new_v4().to_string()
}

/// Draw a fresh short code: well-formed, with no uniqueness promise.
pub fn generate_code() -> (code: String)
    ensures
        code_wf(code@),
{
    let u = random_uuid_string();
    let code = u.as_str().substring_char(0, CODE_LEN).to_owned();
    code
}

} // verus!
