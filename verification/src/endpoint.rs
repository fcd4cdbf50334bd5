//! Which URL a query goes to.
//!
//! A URL is the host of the chosen address family, then the route of the
//! chosen detail level, then, for the lookup of a given address, a slash and
//! that address as the caller wrote it. Nothing is validated or escaped.

use crate::ipinfo::{BASE_URL, BASE_URL_V4, ROUTE_HEADER, ROUTE_IP, ROUTE_IP_REVERSE};
use vstd::prelude::*;
use vstd::string::StringExecFns;

verus! {

/// The host a query about the caller itself goes to.
#[derive(Debug, Clone, Copy, PartialEq, Eq, Structural)]
pub enum AddressFamily {
    /// The host that takes IPv4 and IPv6 connections and reports the
    /// family the connection came over.
    DualStack,
    /// The host that takes IPv4 connections only.
    V4Only,
}

/// How much a query about the caller itself asks for.
#[derive(Debug, Clone, Copy, PartialEq, Eq, Structural)]
pub enum DetailLevel {
    /// The address alone.
    Address,
    /// The address with country, AS and, with reverse DNS, host name.
    Info,
    /// The request's headers as the server saw them.
    Headers,
}

/// The scheme and host of an address family.
pub open spec fn base_of(family: AddressFamily) -> Seq<char> {
    match family {
        AddressFamily::DualStack => BASE_URL@,
        AddressFamily::V4Only => BASE_URL_V4@,
    }
}

/// The route of a detail level. Reverse DNS changes the route of the
/// detailed record and no other.
pub open spec fn route_of(detail: DetailLevel, reverse_dns: bool) -> Seq<char> {
    match detail {
        DetailLevel::Address => Seq::<char>::empty(),
        DetailLevel::Info => if reverse_dns {
            ROUTE_IP_REVERSE@
        } else {
            ROUTE_IP@
        },
        DetailLevel::Headers => ROUTE_HEADER@,
    }
}

/// The URL of a query about the caller itself.
pub open spec fn self_url_of(family: AddressFamily, detail: DetailLevel, reverse_dns: bool) -> Seq<
    char,
> {
    base_of(family) + route_of(detail, reverse_dns)
}

/// The URL of the lookup of a given address: the dual-stack host, the
/// route of the detailed record, and the address as the last segment.
pub open spec fn lookup_url_of(reverse_dns: bool, ip: Seq<char>) -> Seq<char> {
    base_of(AddressFamily::DualStack) + route_of(DetailLevel::Info, reverse_dns) + seq!['/'] + ip
}

/// The scheme and host of an address family.
pub fn base_url(family: AddressFamily) -> (base: &'static str)
    ensures
        base@ == base_of(family),
{
    match family {
        AddressFamily::DualStack => BASE_URL,
        AddressFamily::V4Only => BASE_URL_V4,
    }
}

/// The route of a detail level.
pub fn route(detail: DetailLevel, reverse_dns: bool) -> (path: &'static str)
    ensures
        path@ == route_of(detail, reverse_dns),
{
    match detail {
        DetailLevel::Address => {
            proof {
                reveal_strlit("");
            }
            ""
        },
        DetailLevel::Info => if reverse_dns {
            ROUTE_IP_REVERSE
        } else {
            ROUTE_IP
        },
        DetailLevel::Headers => ROUTE_HEADER,
    }
}

/// The URL of a query about the caller itself.
pub fn self_url(family: AddressFamily, detail: DetailLevel, reverse_dns: bool) -> (url: String)
    ensures
        url@ == self_url_of(family, detail, reverse_dns),
{
    let mut url = base_url(family).to_string();
    url.append(route(detail, reverse_dns));
    url
}

/// The URL of the lookup of `ip`, which is appended as it stands.
pub fn lookup_url(reverse_dns: bool, ip: &str) -> (url: String)
    ensures
        url@ == lookup_url_of(reverse_dns, ip@),
{
    let mut url = self_url(AddressFamily::DualStack, DetailLevel::Info, reverse_dns);
    proof {
        reveal_strlit("/");
    }
    url.append("/");
    url.append(ip);
    url
}

/// Reverse DNS decides between the two routes of the detailed record,
/// which differ, and changes the URL of no other query.
pub proof fn lemma_reverse_dns_picks_route(family: AddressFamily, detail: DetailLevel)
    ensures
        self_url_of(family, DetailLevel::Info, true) == base_of(family) + ROUTE_IP_REVERSE@,
        self_url_of(family, DetailLevel::Info, false) == base_of(family) + ROUTE_IP@,
        self_url_of(family, DetailLevel::Info, true) != self_url_of(
            family,
            DetailLevel::Info,
            false,
        ),
        detail != DetailLevel::Info ==> self_url_of(family, detail, true) == self_url_of(
            family,
            detail,
            false,
        ),
{
    reveal_strlit("ip");
    reveal_strlit("ip/reverse");
    let with = base_of(family) + ROUTE_IP_REVERSE@;
    let without = base_of(family) + ROUTE_IP@;
    assert(with.len() == without.len() + 8);
}

} // verus!
