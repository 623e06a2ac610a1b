//! A network endpoint: an IP address of either version and a port.

use vstd::prelude::*;
use crate::ip::IpAddress;
use crate::numeral::{numeral, push_char, push_numeral};

verus! {

/// An IP address and a port, which together identify one network endpoint.
///
/// Every value is a valid endpoint: there is no partial or placeholder state.
#[derive(Clone, Copy, Debug, PartialEq, Eq, Hash)]
pub struct Address {
    pub ip: IpAddress,
    pub port: u16,
}

/// A concrete socket address, of one IP version.
#[allow(inconsistent_fields)]
#[derive(Clone, Copy, Debug, PartialEq, Eq, Hash)]
pub enum SocketAddress {
    /// An IPv4 socket address.
    V4 { ip: [u8; 4], port: u16 },
    /// An IPv6 socket address, with its flow information and scope.
    V6 { ip: [u16; 8], port: u16, flowinfo: u32, scope_id: u32 },
}

impl SocketAddress {
    /// The IP address of the socket address.
    pub open spec fn spec_ip(&self) -> IpAddress {
        match *self {
            SocketAddress::V4 { ip, .. } => IpAddress::V4(ip),
            SocketAddress::V6 { ip, .. } => IpAddress::V6(ip),
        }
    }

    /// The port of the socket address.
    pub open spec fn spec_port(&self) -> u16 {
        match *self {
            SocketAddress::V4 { port, .. } => port,
            SocketAddress::V6 { port, .. } => port,
        }
    }

    /// The IP address of the socket address.
    #[verifier::when_used_as_spec(spec_ip)]
    pub fn ip(&self) -> (ip: IpAddress)
        ensures
            ip == self.spec_ip(),
    {
        match self {
            SocketAddress::V4 { ip, .. } => IpAddress::V4(*ip),
            SocketAddress::V6 { ip, .. } => IpAddress::V6(*ip),
        }
    }

    /// The port of the socket address.
    #[verifier::when_used_as_spec(spec_port)]
    pub fn port(&self) -> (port: u16)
        ensures
            port == self.spec_port(),
    {
        match self {
            SocketAddress::V4 { port, .. } => *port,
            SocketAddress::V6 { port, .. } => *port,
        }
    }
}

impl Address {
    /// The endpoint at `ip` and `port`.
    pub fn new(ip: IpAddress, port: u16) -> (address: Address)
        ensures
            address.ip == ip,
            address.port == port,
    {
        Address { ip, port }
    }

    /// The text of the endpoint: the canonical text of the IP address, a
    /// colon, and the port in decimal. An IPv6 address gets no brackets.
    pub open spec fn text(self) -> Seq<char> {
        self.ip.text() + seq![':'] + numeral(self.port as nat, 10)
    }

    /// The one socket address that the endpoint resolves to: of the IP
    /// version of the endpoint, with its address and port, and for IPv6 with
    /// no flow information and no scope.
    pub open spec fn socket_address(self) -> SocketAddress {
        match self.ip {
            IpAddress::V4(ip) => SocketAddress::V4 { ip, port: self.port },
            IpAddress::V6(ip) => SocketAddress::V6 { ip, port: self.port, flowinfo: 0, scope_id: 0 },
        }
    }

    /// Writes the endpoint as `ip:port`.
    pub fn format(&self) -> (text: String)
        ensures
            text@ == self.text(),
    {
        let mut text = String::new();
        self.ip.push_text(&mut text);
        push_char(&mut text, ':');
        push_numeral(&mut text, self.port, 10);
        text
    }

    /// Resolves the endpoint to its concrete socket addresses. The address is
    /// already concrete, so there is exactly one, and nothing is looked up.
    pub fn to_socket_addrs(&self) -> (addrs: Vec<SocketAddress>)
        ensures
            addrs@ == seq![self.socket_address()],
            addrs@.len() == 1,
            addrs@[0].ip() == self.ip,
            addrs@[0].port() == self.port,
    {
        let addr = match self.ip {
            IpAddress::V4(ip) => SocketAddress::V4 { ip, port: self.port },
            IpAddress::V6(ip) => SocketAddress::V6 { ip, port: self.port, flowinfo: 0, scope_id: 0 },
        };
        let mut addrs = Vec::new();
        addrs.push(addr);
        addrs
    }
}

/// Formatting and resolution are functions of the endpoint alone: whatever
/// two calls on the same endpoint return, they return the same text and the
/// same socket addresses.
pub proof fn law_same_endpoint_same_answers(
    address: Address,
    first_text: Seq<char>,
    second_text: Seq<char>,
    first_addrs: Seq<SocketAddress>,
    second_addrs: Seq<SocketAddress>,
)
    requires
        first_text == address.text(),
        second_text == address.text(),
        first_addrs == seq![address.socket_address()],
        second_addrs == seq![address.socket_address()],
    ensures
        first_text == second_text,
        first_addrs == second_addrs,
{
}

} // verus!
