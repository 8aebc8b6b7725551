use vstd::prelude::*;
use crate::text::{has_prefix, strip_prefix_text};

verus! {

/// The status that answers a request without a valid token: 401.
pub const UNAUTHORIZED_STATUS: u16 = 401;

/// The token of an `Authorization` header: what follows `Bearer `, where the
/// header is present and starts so.
pub fn bearer_token(header: Option<&str>) -> (r: Option<String>)
    ensures
        r is Some <==> (header matches Some(h) && has_prefix(h@, "Bearer "@)),
        r matches Some(t) ==> t@ == header->0@.skip(7),
{
    match header {
        Some(h) => {
            let r = strip_prefix_text(h, "Bearer ");
            proof {
                reveal_strlit("Bearer ");
            }
            r
        },
        None => None,
    }
}

} // verus!
