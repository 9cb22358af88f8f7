//! The pieces of the client facade that decide rather than transport.
//!
//! The facade itself sends requests over the network, which is its caller's
//! business; what stands here is the authorization header it must attach
//! and the one piece of local recovery the protocol has, the single-share
//! lookup treating a 404 as an absent share.

use vstd::prelude::*;

verus! {

use vstd::string::StringExecFns;

use crate::error::DeltaSharingError;
use crate::response::GetShareResponse;
use crate::response::Share;

/// The value of the `Authorization` header for a bearer token.
pub fn authorization_header_value(token: &str) -> (r: String)
    ensures
        r@ == "Bearer "@ + token@,
{
    let mut s = String::from_str("Bearer ");
    s.append(token);
    s
}

/// Resolve a single-share lookup: its share on success, nothing in place of
/// a not-found client error, and every other error unchanged.
pub fn resolve_share_lookup(lookup: Result<GetShareResponse, DeltaSharingError>) -> (r: Result<
    Option<Share>,
    DeltaSharingError,
>)
    ensures
        match r {
            Ok(Some(s)) => lookup matches Ok(g) && s@ == g@.share,
            Ok(None) => lookup matches Err(e) && e@.is_not_found(),
            Err(e) => lookup matches Err(e0) && e@ == e0@ && !e@.is_not_found(),
        },
{
    match lookup {
        Ok(g) => Ok(Some(g.share)),
        Err(e) => {
            if e.is_not_found() {
                Ok(None)
            } else {
                Err(e)
            }
        },
    }
}

} // verus!
