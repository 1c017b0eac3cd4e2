//! The rule behind the IP-echo endpoint: a request's observed address is the
//! forwarded address when the request carries a readable one, else the
//! transport peer address.

use vstd::prelude::*;

verus! {

/// The address reported for a caller. `forwarded`'s outer layer says
/// whether the request carries a forwarded-address header at all, the inner
/// whether its bytes decode to text: only a present, readable header value
/// is reported; a missing header and an unreadable one both fall back to
/// the transport-level peer address — a bad header must not take the
/// request down.
pub fn client_ip(forwarded: Option<Option<String>>, peer: String) -> (r: String)
    ensures
        forwarded matches Option::Some(Option::Some(_)) ==> r == forwarded->0->0,
        !(forwarded matches Option::Some(Option::Some(_))) ==> r == peer,
{
    match forwarded {
        Option::Some(Option::Some(f)) => f,
        _ => peer,
    }
}

} // verus!
