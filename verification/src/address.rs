//! Endpoint texts: the host and port that a socket is bound to or a datagram is sent to.
use crate::ipv4::{dotted, dotted_text, lemma_dotted_has_no_colon};
use crate::ipv6::{ipv6_of_text, ipv6_text, ipv6_text_of};
use crate::text::{begins_with, contains_char, decimal, decimal_text, starts_with_char};
use vstd::prelude::*;
use vstd::string::*;

verus! {

/// The address of an endpoint: the IP address as a number, most significant byte first, and the
/// port.
#[derive(Debug, Clone, Copy, PartialEq, Eq, Structural)]
#[allow(inconsistent_fields)]
pub enum SocketAddress {
    V4 { ip: u32, port: u16 },
    V6 { ip: u128, port: u16 },
}

impl SocketAddress {
    /// The textual form of the IP address.
    pub open spec fn ip(self) -> Seq<char> {
        match self {
            SocketAddress::V4 { ip, port } => dotted(ip),
            SocketAddress::V6 { ip, port } => ipv6_text_of(ip),
        }
    }

    /// The port.
    pub open spec fn port(self) -> u16 {
        match self {
            SocketAddress::V4 { ip, port } => port,
            SocketAddress::V6 { ip, port } => port,
        }
    }

    /// The name of the address family.
    pub open spec fn family(self) -> Seq<char> {
        match self {
            SocketAddress::V4 { ip, port } => "IPv4"@,
            SocketAddress::V6 { ip, port } => "IPv6"@,
        }
    }

    /// The textual form of the IP address, the name of the address family and the port. A datagram
    /// sent to the text and the port goes to this address.
    pub fn into_parts(self) -> (parts: (String, &'static str, u16))
        ensures
            parts.0@ == self.ip(),
            parts.1@ == self.family(),
            parts.2 == self.port(),
            reaches(send_endpoint(parts.0@, parts.2), self),
    {
        match self {
            SocketAddress::V4 { ip, port } => {
                proof {
                    lemma_dotted_has_no_colon(ip);
                }
                (dotted_text(ip), "IPv4", port)
            },
            SocketAddress::V6 { ip, port } => {
                let text = ipv6_text(ip);
                assert(reaches(endpoint(bracketed(text@), port), self));
                (text, "IPv6", port)
            },
        }
    }
}

/// The wildcard address of the family.
pub open spec fn wildcard(ipv6: bool) -> Seq<char> {
    if ipv6 {
        "::"@
    } else {
        "0.0.0.0"@
    }
}

/// Whether `host` has to be bracketed before a port can follow it: it holds a colon and is not
/// bracketed yet.
pub open spec fn needs_brackets(host: Seq<char>) -> bool {
    host.contains(':') && !begins_with(host, '[')
}

/// `host` in brackets.
pub open spec fn bracketed(host: Seq<char>) -> Seq<char> {
    seq!['['] + host + seq![']']
}

/// `host`, a colon and `port` in decimal.
pub open spec fn endpoint(host: Seq<char>, port: u16) -> Seq<char> {
    host + seq![':'] + decimal(port as nat)
}

/// The host that a socket is bound to: the one asked for, or the wildcard address of its family.
pub open spec fn bind_host(ipv6: bool, address: Seq<char>) -> Seq<char> {
    if address.len() == 0 {
        wildcard(ipv6)
    } else {
        address
    }
}

/// The endpoint that a socket is bound to. Only the hosts of an IPv6 socket are bracketed.
pub open spec fn bind_endpoint(ipv6: bool, address: Seq<char>, port: u16) -> Seq<char> {
    let host = bind_host(ipv6, address);
    endpoint(
        if ipv6 && needs_brackets(host) {
            bracketed(host)
        } else {
            host
        },
        port,
    )
}

/// The endpoint that a datagram is sent to.
pub open spec fn send_endpoint(address: Seq<char>, port: u16) -> Seq<char> {
    endpoint(
        if needs_brackets(address) {
            bracketed(address)
        } else {
            address
        },
        port,
    )
}

/// Whether `text` is an endpoint text of `address`: an IPv4 address in dot-decimal notation, or an
/// IPv6 address in brackets in a notation that is read as that address, then a colon and the port
/// in decimal.
pub open spec fn reaches(text: Seq<char>, address: SocketAddress) -> bool {
    match address {
        SocketAddress::V4 { ip, port } => text == endpoint(dotted(ip), port),
        SocketAddress::V6 { ip, port } => exists|host: Seq<char>| #[trigger]
            ipv6_of_text(host) == Some(ip) && text == endpoint(bracketed(host), port),
    }
}

/// The address that a socket of the family is bound to when none is given.
pub fn default_bind_addr(ipv6: bool) -> (address: &'static str)
    ensures
        address@ == wildcard(ipv6),
{
    if ipv6 {
        "::"
    } else {
        "0.0.0.0"
    }
}

fn endpoint_text(host: &str, brackets: bool, port: u16) -> (text: String)
    ensures
        text@ == endpoint(
            if brackets {
                bracketed(host@)
            } else {
                host@
            },
            port,
        ),
{
    proof {
        reveal_strlit("[");
        reveal_strlit("]:");
        reveal_strlit(":");
    }
    let port_text = decimal_text(port);
    let mut text = String::new();
    if brackets {
        text.append("[");
        text.append(host);
        text.append("]:");
        text.append(port_text.as_str());
        assert(text@ =~= endpoint(bracketed(host@), port));
    } else {
        text.append(host);
        text.append(":");
        text.append(port_text.as_str());
        assert(text@ =~= endpoint(host@, port));
    }
    text
}

/// The endpoint to bind a socket of the family to; an empty `address` stands for the wildcard.
pub fn bind_target(ipv6: bool, address: &str, port: u16) -> (text: String)
    ensures
        text@ == bind_endpoint(ipv6, address@, port),
{
    let host: &str = if address.is_empty() {
        default_bind_addr(ipv6)
    } else {
        address
    };
    let brackets: bool = ipv6 && !starts_with_char(host, '[') && contains_char(host, ':');
    endpoint_text(host, brackets, port)
}

/// The endpoint to send a datagram to.
pub fn send_target(address: &str, port: u16) -> (text: String)
    ensures
        text@ == send_endpoint(address@, port),
{
    let brackets: bool = contains_char(address, ':') && !starts_with_char(address, '[');
    endpoint_text(address, brackets, port)
}

} // verus!
