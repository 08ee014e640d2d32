//! Credential extraction: pulling the bearer token out of a request.

use vstd::prelude::*;
use crate::errors::AuthError;

verus! {

/// Length in bytes of the literal `Bearer ` scheme prefix (the scheme name
/// plus one separating space) that an `Authorization` header carries before
/// the credential itself.
pub const BEARER_PREFIX_LEN: usize = 7;

/// The view of an optional byte string.
pub open spec fn opt_bytes(o: Option<Vec<u8>>) -> Option<Seq<u8>> {
    match o {
        Some(v) => Some(v@),
        None => None,
    }
}

/// Where the credential of a request comes from: the value of the `token`
/// cookie, verbatim, and otherwise everything after the scheme prefix of the
/// `Authorization` header. A header too short to carry the prefix yields no
/// credential, and so does a request with neither source.
pub open spec fn spec_extract_credential(
    cookie: Option<Seq<u8>>,
    header: Option<Seq<u8>>,
) -> Option<Seq<u8>> {
    match cookie {
        Some(c) => Some(c),
        None => match header {
            Some(h) => if h.len() >= BEARER_PREFIX_LEN {
                Some(h.subrange(BEARER_PREFIX_LEN as int, h.len() as int))
            } else {
                None
            },
            None => None,
        },
    }
}

/// The Credential Extractor: given the `token` cookie value and the
/// `Authorization` header value of a request, as far as each is present,
/// returns the bearer credential. The cookie is checked first; the header is
/// the fallback, with the credential being everything after its fixed
/// 7-byte scheme prefix. A header shorter than the prefix is treated as no
/// credential at all, never as an out-of-bounds slice.
pub fn extract_credential(cookie: Option<Vec<u8>>, header: Option<Vec<u8>>) -> (r: Result<
    Vec<u8>,
    AuthError,
>)
    ensures
        match spec_extract_credential(opt_bytes(cookie), opt_bytes(header)) {
            Some(cred) => r matches Ok(c) && c@ == cred,
            None => r matches Err(e) && e == AuthError::MissingCredential,
        },
{
    match cookie {
        Some(c) => Ok(c),
        None => match header {
            Some(h) => {
                if h.len() >= BEARER_PREFIX_LEN {
                    let mut h = h;
                    let cred = h.split_off(BEARER_PREFIX_LEN);
                    Ok(cred)
                } else {
                    Err(AuthError::MissingCredential)
                }
            },
            None => Err(AuthError::MissingCredential),
        },
    }
}

} // verus!
