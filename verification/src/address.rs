//! Socket addresses as plain values, and the choice among the addresses that
//! a destination resolved to.

use crate::error::{Error, Misconfiguration};
use vstd::prelude::*;

verus! {

/// The family of a socket address.
#[derive(Clone, Copy, Debug, PartialEq, Eq, Structural)]
pub enum AddressFamily {
    V4,
    V6,
}

/// The address of a socket: an IP address and a port, and for IPv6 the flow
/// information and the scope.
#[derive(Clone, Copy, Debug, PartialEq, Eq)]
pub enum SocketAddress {
    V4 { octets: [u8; 4], port: u16 },
    V6 { segments: [u16; 8], port: u16, flowinfo: u32, scope_id: u32 },
}

impl SocketAddress {
    /// The family of the address.
    pub open spec fn spec_family(self) -> AddressFamily {
        match self {
            SocketAddress::V4 { .. } => AddressFamily::V4,
            SocketAddress::V6 { .. } => AddressFamily::V6,
        }
    }

    /// The family of the address.
    #[verifier::when_used_as_spec(spec_family)]
    pub fn family(self) -> (family: AddressFamily)
        ensures
            family == self.spec_family(),
    {
        match self {
            SocketAddress::V4 { .. } => AddressFamily::V4,
            SocketAddress::V6 { .. } => AddressFamily::V6,
        }
    }
}

impl AddressFamily {
    /// The local address to bind a socket of this family to, so that the
    /// system picks the interface and the port: the family's wildcard
    /// address with port 0, as a text.
    pub open spec fn spec_wildcard(self) -> Seq<char> {
        match self {
            AddressFamily::V4 => "0.0.0.0:0"@,
            AddressFamily::V6 => "[::]:0"@,
        }
    }

    /// The local address to bind a socket of this family to, so that the
    /// system picks the interface and the port: the family's wildcard
    /// address with port 0, as a text.
    pub fn wildcard(self) -> (local: &'static str)
        ensures
            local@ == self.spec_wildcard(),
    {
        match self {
            AddressFamily::V4 => "0.0.0.0:0",
            AddressFamily::V6 => "[::]:0",
        }
    }
}

/// The address to use of those that a destination resolved to: the first
/// one. A destination that resolved to none cannot be used.
pub fn first_resolved(resolved: &Vec<SocketAddress>) -> (chosen: Result<SocketAddress, Error>)
    ensures
        resolved@.len() == 0 ==> chosen == Err::<SocketAddress, Error>(
            Error::InvalidConfiguration(Misconfiguration::NoDestination),
        ),
        resolved@.len() > 0 ==> chosen == Ok::<SocketAddress, Error>(resolved@[0]),
{
    if resolved.len() == 0 {
        Err(Error::InvalidConfiguration(Misconfiguration::NoDestination))
    } else {
        Ok(resolved[0])
    }
}

} // verus!
