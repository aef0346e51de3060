//! Request and response shapes of the creation path, and the composition
//! of a public short URL from the configured base URL and a short code.

use vstd::prelude::*;

verus! {

/// Body of a creation request: the URL to shorten.
pub struct ShortenRequest {
    pub url: String,
}

/// Body of a successful creation response: the public short URL and a
/// QR code for it rendered as a data URI.
pub struct ShortenResponse {
    pub short_url: String,
    pub qr_code: String,
}

/// The public short URL for a code: the base URL, a slash, the code.
pub fn compose_short_url(base_url: &str, code: &str) -> (r: String)
    ensures
        r@ == base_url@ + "/"@ + code@,
{
    let mut s = base_url.to_owned();
    s.append("/");
    s.append(code);
    s
}

} // verus!
