//! Network addresses as plain values.

use vstd::prelude::*;

verus! {

/// An IP address with a port. The address is the number whose octets it
/// consists of, the first octet being the most significant.
#[derive(Clone, Copy, Debug, PartialEq, Eq, Structural)]
pub enum SocketAddress {
    /// An IPv4 address.
    V4 { ipv4: u32, port: u16 },
    /// An IPv6 address.
    V6 { ipv6: u128, port: u16, flowinfo: u32, scope_id: u32 },
}

impl SocketAddress {
    /// The port, in contracts.
    pub open spec fn spec_port(self) -> u16 {
        match self {
            SocketAddress::V4 { ipv4: _, port } => port,
            SocketAddress::V6 { ipv6: _, port, flowinfo: _, scope_id: _ } => port,
        }
    }

    /// The port.
    pub fn port(&self) -> (r: u16)
        ensures
            r == self.spec_port(),
            *self matches SocketAddress::V4 { ipv4: _, port } ==> r == port,
            *self matches SocketAddress::V6 { ipv6: _, port, flowinfo: _, scope_id: _ } ==> r
                == port,
    {
        match self {
            SocketAddress::V4 { ipv4: _, port } => *port,
            SocketAddress::V6 { ipv6: _, port, flowinfo: _, scope_id: _ } => *port,
        }
    }
}

/// Where a server listens, as far as it could be found out.
#[derive(Clone, Copy, Debug, PartialEq, Eq, Structural)]
pub enum LocalEndpoint {
    /// On a TCP socket; with its address, if the system tells it.
    Tcp(Option<SocketAddress>),
    /// On a Unix domain socket.
    Unix,
}

impl LocalEndpoint {
    /// The port on which the server listens, in contracts.
    pub open spec fn spec_port(self) -> Option<u16> {
        match self {
            LocalEndpoint::Tcp(Some(address)) => Some(address.spec_port()),
            LocalEndpoint::Tcp(None) => None,
            LocalEndpoint::Unix => None,
        }
    }

    /// The port on which the server listens. There is one only on a TCP socket
    /// whose address is known.
    pub fn port(&self) -> (r: Option<u16>)
        ensures
            r == self.spec_port(),
            *self matches LocalEndpoint::Tcp(Some(address)) ==> r == Some(address.spec_port()),
            *self matches LocalEndpoint::Tcp(None) ==> r is None,
            *self is Unix ==> r is None,
    {
        match self {
            LocalEndpoint::Tcp(Some(address)) => Some(address.port()),
            LocalEndpoint::Tcp(None) => None,
            LocalEndpoint::Unix => None,
        }
    }
}

/// A listener that was bound to one address may say that it listens on the
/// other: the port is the one that it was bound to or, where that was zero, one
/// that the system chose.
pub open spec fn may_listen_on(bound: SocketAddress, local: SocketAddress) -> bool {
    if bound.spec_port() == 0 {
        local.spec_port() != 0
    } else {
        local.spec_port() == bound.spec_port()
    }
}

/// The port that is reported is the one of the address, of whichever kind it is.
/// Where no address is known, and on a Unix domain socket, none is reported.
pub proof fn law_reported_port(
    endpoint: LocalEndpoint,
    ipv4: u32,
    ipv6: u128,
    port: u16,
    flowinfo: u32,
    scope_id: u32,
    r: Option<u16>,
)
    requires
        call_ensures(LocalEndpoint::port, (&endpoint,), r),
    ensures
        endpoint == LocalEndpoint::Tcp(Some(SocketAddress::V4 { ipv4, port })) ==> r
            == Some(port),
        endpoint == LocalEndpoint::Tcp(
            Some(SocketAddress::V6 { ipv6, port, flowinfo, scope_id }),
        ) ==> r == Some(port),
        endpoint == LocalEndpoint::Tcp(None) || endpoint == LocalEndpoint::Unix ==> r is None,
{
}

/// A listener that was bound to a port other than zero listens on that port, and
/// on no other; one that was bound to port zero listens on any other port.
pub proof fn law_port_of_listener(bound: SocketAddress, local: SocketAddress, p: u16, q: u16)
    requires
        call_ensures(SocketAddress::port, (&bound,), p),
        call_ensures(SocketAddress::port, (&local,), q),
    ensures
        may_listen_on(bound, local) <==> (p != 0 && q == p) || (p == 0 && q != 0),
{
}

} // verus!
