//! Multicast groups, and the resolver that makes them from command-line text.

use vstd::prelude::*;
use crate::address::{address_of_text, AddressValue, Family, IpAddress};
use crate::error::Error;
use crate::number::{parse_unsigned, unsigned_of_text};
use crate::text::chars_of;

verus! {

/// An address that is known to lie in the multicast range of its family. A value
/// of this type cannot be made from any other address, and never changes.
#[derive(Clone, Copy, Debug, PartialEq, Eq)]
pub struct MulticastGroup {
    address: IpAddress,
}

impl View for MulticastGroup {
    type V = AddressValue;

    closed spec fn view(&self) -> AddressValue {
        self.address@
    }
}

impl MulticastGroup {
    #[verifier::type_invariant]
    spec fn in_range(self) -> bool {
        self.address@.is_multicast()
    }

    /// Accepts exactly the multicast addresses.
    pub fn new(address: IpAddress) -> (r: Result<MulticastGroup, Error>)
        ensures
            match r {
                Ok(group) => address@.is_multicast() && group@ == address@,
                Err(e) => !address@.is_multicast() && e == Error::NotMulticast,
            },
    {
        if address.is_multicast() {
            Ok(MulticastGroup { address })
        } else {
            Err(Error::NotMulticast)
        }
    }

    /// The address of the group, which is always a multicast address.
    pub fn address(&self) -> (a: IpAddress)
        ensures
            a@ == self@,
            a@.is_multicast(),
    {
        proof {
            use_type_invariant(self);
        }
        self.address
    }

    /// The family of the group's address.
    pub fn family(&self) -> (f: Family)
        ensures
            f == self@.family(),
    {
        self.address.family()
    }
}

/// What the resolver makes of an address text, as a value: the multicast address
/// that the text writes, or the reason why there is none.
pub open spec fn group_of_text(s: Seq<char>) -> Result<AddressValue, Error> {
    match address_of_text(s) {
        None => Err(Error::InvalidAddress),
        Some(a) => if a.is_multicast() {
            Ok(a)
        } else {
            Err(Error::NotMulticast)
        },
    }
}

/// What the resolver makes of a port text.
pub open spec fn port_of_text(s: Seq<char>) -> Result<u16, Error> {
    match unsigned_of_text(s, 65535) {
        Some(v) => Ok(v as u16),
        None => Err(Error::InvalidPort),
    }
}

/// Whether a resolved group is what `group_of_text` gives: the same address, or
/// the same failure.
pub open spec fn resolved_as(r: Result<MulticastGroup, Error>, expected: Result<AddressValue, Error>) -> bool {
    match expected {
        Ok(a) => r is Ok && r->Ok_0@ == a,
        Err(e) => r == Err::<MulticastGroup, Error>(e),
    }
}

/// Resolves the text of a multicast group. A text that writes no address is
/// `InvalidAddress`; one that writes an address outside the multicast ranges is
/// `NotMulticast`; every multicast address of either family is accepted.
pub fn resolve_group(text: &str) -> (r: Result<MulticastGroup, Error>)
    ensures
        resolved_as(r, group_of_text(text@)),
{
    match IpAddress::from_text(text) {
        None => Err(Error::InvalidAddress),
        Some(address) => MulticastGroup::new(address),
    }
}

/// Resolves the text of a port: an unsigned decimal number of sixteen bits.
pub fn resolve_port(text: &str) -> (r: Result<u16, Error>)
    ensures
        r == port_of_text(text@),
{
    let chars = chars_of(text);
    match parse_unsigned(chars.as_slice(), 65535) {
        Some(v) => Ok(v as u16),
        None => Err(Error::InvalidPort),
    }
}

} // verus!
