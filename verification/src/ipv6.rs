//! IPv6 addresses in textual form, which `core::net` reads and writes.
use crate::text::begins_with;
use vstd::prelude::*;

verus! {

/// The address that `core::net::Ipv6Addr` reads from a text, as a number with the first segment in
/// the most significant bits; `None` for a text that it refuses.
pub uninterp spec fn ipv6_of_text(text: Seq<char>) -> Option<u128>;

/// The text that `core::net::Ipv6Addr` writes for an address, which is given as a number.
pub uninterp spec fn ipv6_text_of(ip: u128) -> Seq<char>;

/// Calls `core::net::Ipv6Addr::from_str`. The result depends on the text alone.
#[verifier::external_body]
pub(crate) fn parse_ipv6(text: &str) -> (ip: Option<u128>)
    ensures
        ip == ipv6_of_text(text@),
{
    text.parse::<core::net::Ipv6Addr>().ok().map(u128::from)
}

/// Calls `core::net::Ipv6Addr::to_string`. The text depends on the address alone. It is one of the
/// notations that are read, so the address is read back from it; its segments are separated by
/// colons; and it begins with one of them or with a hexadecimal digit, so it is not in brackets.
#[verifier::external_body]
pub(crate) fn ipv6_text(ip: u128) -> (text: String)
    ensures
        text@ == ipv6_text_of(ip),
        ipv6_of_text(text@) == Some(ip),
        text@.contains(':'),
        !begins_with(text@, '['),
{
    core::net::Ipv6Addr::from(ip).to_string()
}

} // verus!
