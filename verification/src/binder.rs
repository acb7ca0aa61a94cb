//! Where a session binds its socket: the unspecified address of the group's
//! family, on the port it is given.

use vstd::prelude::*;
use crate::address::{AddressValue, Family, IpAddress};
use crate::error::Error;
use crate::report::{diagnostic, diagnostic_text, endpoint, endpoint_text};

verus! {

/// The port that lets the system pick any free one.
pub const ANY_PORT: u16 = 0;

/// The local socket address to bind to, as text.
pub open spec fn bind_text(family: Family, port: u16) -> Seq<char> {
    endpoint_text(AddressValue::unspecified(family), port)
}

/// The local socket address to bind to, as text: `0.0.0.0` or `[::]`, a colon
/// and the port.
pub fn bind_endpoint(family: Family, port: u16) -> (s: String)
    ensures
        s@ == bind_text(family, port),
{
    let address = IpAddress::unspecified(family);
    endpoint(&address, port)
}

/// The diagnostic of a bind that failed for the reason `detail`.
pub fn bind_failure(family: Family, port: u16, detail: &str) -> (s: String)
    ensures
        s@ == diagnostic_text(Error::BindError, Some(bind_text(family, port)), detail@),
{
    let target = bind_endpoint(family, port);
    diagnostic(Error::BindError, Some(target.as_str()), detail)
}

} // verus!
