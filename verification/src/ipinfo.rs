//! The hosts and routes of the API, and the records it answers with.
//!
//! Every field of every record is a string, also where the value is a
//! number by nature (the AS number, the decimal form of an address): the
//! server sends JSON strings and the records keep them as they came.

use vstd::prelude::*;

verus! {

/// Host that answers over IPv4 and IPv6 alike.
pub const BASE_URL: &'static str = "https://api.ipstruct.com/";

/// Host that answers over IPv4 only.
pub const BASE_URL_V4: &'static str = "https://ipv4.ipstruct.com/";

/// Route of the detailed record of an address.
pub const ROUTE_IP: &'static str = "ip";

/// Route that reflects the request's headers.
pub const ROUTE_HEADER: &'static str = "header";

/// Route of the detailed record with the host name looked up.
pub const ROUTE_IP_REVERSE: &'static str = "ip/reverse";

/// What the root path answers with: the caller's address and no more.
#[derive(Debug)]
pub struct IpInfoSimple {
    pub ip_addr: String,
    pub api_version: String,
    pub message: String,
}

/// IP Address information
/// This includes IP address, country, ASN, AS Name(ISP), and hostname(optional).
///
/// `host_name` is empty where reverse DNS was not asked for or found no name.
#[derive(Debug)]
pub struct IpInfo {
    pub ip_version: String,
    pub ip_addr_dec: String,
    pub ip_addr: String,
    pub host_name: String,
    pub network: String,
    pub asn: String,
    pub as_name: String,
    pub country_code: String,
    pub country_name: String,
}

/// Request header information
#[derive(Debug)]
pub struct HeaderInfo {
    pub ip_addr: String,
    pub accept: String,
    pub accept_encoding: String,
    pub accept_language: String,
    pub cache_control: String,
    pub connection: String,
    pub dnt: String,
    pub schema: String,
    pub authority: String,
    pub path: String,
    pub request_method: String,
    pub user_agent: String,
    pub referer: String,
}

/// What the server sends in place of a record when it refuses a request.
/// No query decodes it: such an answer fails to decode as the record that
/// the query expects.
#[derive(Debug)]
pub struct ErrorResponse {
    pub status_code: String,
    pub error_message: String,
}

impl Clone for IpInfoSimple {
    fn clone(&self) -> (r: Self)
        ensures
            r == *self,
    {
        IpInfoSimple {
            ip_addr: self.ip_addr.clone(),
            api_version: self.api_version.clone(),
            message: self.message.clone(),
        }
    }
}

impl Clone for IpInfo {
    fn clone(&self) -> (r: Self)
        ensures
            r == *self,
    {
        IpInfo {
            ip_version: self.ip_version.clone(),
            ip_addr_dec: self.ip_addr_dec.clone(),
            ip_addr: self.ip_addr.clone(),
            host_name: self.host_name.clone(),
            network: self.network.clone(),
            asn: self.asn.clone(),
            as_name: self.as_name.clone(),
            country_code: self.country_code.clone(),
            country_name: self.country_name.clone(),
        }
    }
}

impl Clone for HeaderInfo {
    fn clone(&self) -> (r: Self)
        ensures
            r == *self,
    {
        HeaderInfo {
            ip_addr: self.ip_addr.clone(),
            accept: self.accept.clone(),
            accept_encoding: self.accept_encoding.clone(),
            accept_language: self.accept_language.clone(),
            cache_control: self.cache_control.clone(),
            connection: self.connection.clone(),
            dnt: self.dnt.clone(),
            schema: self.schema.clone(),
            authority: self.authority.clone(),
            path: self.path.clone(),
            request_method: self.request_method.clone(),
            user_agent: self.user_agent.clone(),
            referer: self.referer.clone(),
        }
    }
}

impl Clone for ErrorResponse {
    fn clone(&self) -> (r: Self)
        ensures
            r == *self,
    {
        ErrorResponse {
            status_code: self.status_code.clone(),
            error_message: self.error_message.clone(),
        }
    }
}

} // verus!
