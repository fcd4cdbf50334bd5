//! The transport layer, as far as the library builds on it: `reqwest`'s
//! client handles, their builders, proxies and errors.
//!
//! Nothing in this file is proved. Each item states what the library takes
//! for granted of `reqwest`. Building the blocking transport is not among
//! them: that call panics inside an asynchronous runtime, so it is left to
//! the caller, who knows where it stands.

use crate::time::{duration_nanos, NANOS_PER_SEC};
use std::time::Duration;
use vstd::prelude::*;

verus! {

/// Handle of the asynchronous transport.
#[verifier::external_type_specification]
#[verifier::external_body]
pub struct ExAsyncClient(reqwest::Client);

/// Builder of the asynchronous transport.
#[verifier::external_type_specification]
#[verifier::external_body]
pub struct ExAsyncClientBuilder(reqwest::ClientBuilder);

/// Handle of the blocking transport.
#[verifier::external_type_specification]
#[verifier::external_body]
pub struct ExBlockingClient(reqwest::blocking::Client);

/// Builder of the blocking transport.
#[verifier::external_type_specification]
#[verifier::external_body]
pub struct ExBlockingClientBuilder(reqwest::blocking::ClientBuilder);

/// A proxy that a transport routes its traffic through.
#[verifier::external_type_specification]
#[verifier::external_body]
pub struct ExProxy(reqwest::Proxy);

/// An error of the transport layer.
#[verifier::external_type_specification]
#[verifier::external_body]
pub struct ExTransportError(reqwest::Error);

/// What a transport goes by, as far as this library sets it: the timeout
/// of a whole exchange in nanoseconds (`None`: no timeout), the
/// `User-Agent` header of every request (`None`: no such header), and the
/// proxies that were added, in the order in which they were added. Where
/// none was added, the transport goes through the proxy that the system
/// names, if it names one: an empty sequence does not say that traffic
/// goes out directly.
pub struct TransportConfig {
    pub timeout: Option<nat>,
    pub user_agent: Option<Seq<char>>,
    pub proxies: Seq<reqwest::Proxy>,
}

/// Timeout of a blocking builder that was given none, in seconds.
pub const BLOCKING_DEFAULT_TIMEOUT_SECS: u64 = 30;

/// Whether a character may stand in the value of a header: a tab, or any
/// character from the space on but for the delete character.
pub open spec fn is_header_char(c: char) -> bool {
    c == '\t' || (c as u32 >= 32 && c as u32 != 127)
}

/// Whether a text can be the value of a header, as
/// `http::HeaderValue::from_str` decides it byte by byte. Every byte of a
/// character beyond ASCII is above 127 and passes, so the test can be put
/// over the characters.
pub open spec fn is_header_value(text: Seq<char>) -> bool {
    forall|i: int| 0 <= i < text.len() ==> is_header_char(#[trigger] text[i])
}

/// What an asynchronous builder holds so far: its timeout, its
/// `User-Agent` header and the proxies added to it.
pub uninterp spec fn async_builder_config(b: reqwest::ClientBuilder) -> TransportConfig;

/// Whether an asynchronous builder has noted a failure, which makes its
/// `build` fail.
pub uninterp spec fn async_builder_failed(b: reqwest::ClientBuilder) -> bool;

/// What an asynchronous handle was built with.
pub uninterp spec fn async_transport_config(c: reqwest::Client) -> TransportConfig;

/// What a blocking builder holds so far: its timeout, its `User-Agent`
/// header and the proxies added to it.
pub uninterp spec fn blocking_builder_config(b: reqwest::blocking::ClientBuilder) -> TransportConfig;

/// Whether a blocking builder has noted a failure, which makes its `build`
/// fail.
pub uninterp spec fn blocking_builder_failed(b: reqwest::blocking::ClientBuilder) -> bool;

/// What `reqwest::Proxy::all` makes of a proxy URI: the proxy for all
/// traffic, or the error that says why the text is no proxy URI.
pub uninterp spec fn parse_proxy(uri: Seq<char>) -> Result<reqwest::Proxy, reqwest::Error>;

/// Whether a transport error says that a response body could not be
/// decoded, as `reqwest::Error::is_decode` reports it.
pub uninterp spec fn is_decode_error(e: reqwest::Error) -> bool;

/// Whether a transport error goes back to a timeout, as
/// `reqwest::Error::is_timeout` reports it.
pub uninterp spec fn is_timeout_error(e: reqwest::Error) -> bool;

/// `reqwest::Client::builder` gives a fresh builder: no timeout, no user
/// agent, no proxy, no failure.
pub assume_specification[ reqwest::Client::builder ]() -> (b: reqwest::ClientBuilder)
    ensures
        async_builder_config(b) == (TransportConfig {
            timeout: None,
            user_agent: None,
            proxies: Seq::empty(),
        }),
        !async_builder_failed(b),
;

/// `reqwest::ClientBuilder::timeout` stores the timeout and leaves the rest
/// of the builder as it was.
pub assume_specification[ reqwest::ClientBuilder::timeout ](
    b: reqwest::ClientBuilder,
    timeout: Duration,
) -> (r: reqwest::ClientBuilder)
    ensures
        async_builder_config(r) == (TransportConfig {
            timeout: Some(duration_nanos(timeout)),
            ..async_builder_config(b)
        }),
        async_builder_failed(r) == async_builder_failed(b),
;

/// `reqwest::ClientBuilder::user_agent` with a string. A text that can be
/// the value of a header becomes the `User-Agent` header of every request,
/// in place of the one before. For any other text the builder keeps what
/// it held and notes a failure.
#[verifier::external_body]
pub(crate) fn async_user_agent(b: reqwest::ClientBuilder, user_agent: &str) -> (r:
    reqwest::ClientBuilder)
    ensures
        is_header_value(user_agent@) ==> async_builder_config(r) == (TransportConfig {
            user_agent: Some(user_agent@),
            ..async_builder_config(b)
        }) && async_builder_failed(r) == async_builder_failed(b),
        !is_header_value(user_agent@) ==> async_builder_config(r) == async_builder_config(b)
            && async_builder_failed(r),
{
    b.user_agent(user_agent)
}

/// `reqwest::ClientBuilder::proxy` adds the proxy behind those already
/// there and leaves the rest of the builder as it was.
pub assume_specification[ reqwest::ClientBuilder::proxy ](
    b: reqwest::ClientBuilder,
    proxy: reqwest::Proxy,
) -> (r: reqwest::ClientBuilder)
    ensures
        async_builder_config(r) == (TransportConfig {
            proxies: async_builder_config(b).proxies.push(proxy),
            ..async_builder_config(b)
        }),
        async_builder_failed(r) == async_builder_failed(b),
;

/// `reqwest::ClientBuilder::build` either fails or gives a handle that
/// carries what the builder held. It fails where the builder has noted a
/// failure. Whether it fails otherwise depends on the machine (the TLS
/// backend, the resolver's configuration), so no more is said of when.
pub assume_specification[ reqwest::ClientBuilder::build ](b: reqwest::ClientBuilder) -> (r: Result<
    reqwest::Client,
    reqwest::Error,
>)
    ensures
        r matches Ok(c) ==> async_transport_config(c) == async_builder_config(b),
        async_builder_failed(b) ==> r is Err,
;

/// `reqwest::blocking::Client::builder` gives a fresh builder: the
/// blocking transport's own timeout of thirty seconds, no user agent, no
/// proxy, no failure.
pub assume_specification[ reqwest::blocking::Client::builder ]() -> (b:
    reqwest::blocking::ClientBuilder)
    ensures
        blocking_builder_config(b) == (TransportConfig {
            timeout: Some((BLOCKING_DEFAULT_TIMEOUT_SECS * NANOS_PER_SEC) as nat),
            user_agent: None,
            proxies: Seq::empty(),
        }),
        !blocking_builder_failed(b),
;

/// `reqwest::blocking::ClientBuilder::timeout` with a duration: the builder
/// stores it in place of the timeout it had.
#[verifier::external_body]
pub(crate) fn blocking_timeout(b: reqwest::blocking::ClientBuilder, timeout: Duration) -> (r:
    reqwest::blocking::ClientBuilder)
    ensures
        blocking_builder_config(r) == (TransportConfig {
            timeout: Some(duration_nanos(timeout)),
            ..blocking_builder_config(b)
        }),
        blocking_builder_failed(r) == blocking_builder_failed(b),
{
    b.timeout(timeout)
}

/// `reqwest::blocking::ClientBuilder::user_agent` with a string: as for
/// the asynchronous builder, to which it hands the text.
#[verifier::external_body]
pub(crate) fn blocking_user_agent(b: reqwest::blocking::ClientBuilder, user_agent: &str) -> (r:
    reqwest::blocking::ClientBuilder)
    ensures
        is_header_value(user_agent@) ==> blocking_builder_config(r) == (TransportConfig {
            user_agent: Some(user_agent@),
            ..blocking_builder_config(b)
        }) && blocking_builder_failed(r) == blocking_builder_failed(b),
        !is_header_value(user_agent@) ==> blocking_builder_config(r) == blocking_builder_config(b)
            && blocking_builder_failed(r),
{
    b.user_agent(user_agent)
}

/// `reqwest::blocking::ClientBuilder::proxy`: as for the asynchronous
/// builder.
pub assume_specification[ reqwest::blocking::ClientBuilder::proxy ](
    b: reqwest::blocking::ClientBuilder,
    proxy: reqwest::Proxy,
) -> (r: reqwest::blocking::ClientBuilder)
    ensures
        blocking_builder_config(r) == (TransportConfig {
            proxies: blocking_builder_config(b).proxies.push(proxy),
            ..blocking_builder_config(b)
        }),
        blocking_builder_failed(r) == blocking_builder_failed(b),
;

/// `reqwest::Proxy::all` with a string: a pure reading of the text.
#[verifier::external_body]
pub(crate) fn proxy_all(uri: &str) -> (r: Result<reqwest::Proxy, reqwest::Error>)
    ensures
        r == parse_proxy(uri@),
{
    reqwest::Proxy::all(uri)
}

/// `reqwest::Error::is_decode` reads the error's kind.
pub assume_specification[ reqwest::Error::is_decode ](e: &reqwest::Error) -> (r: bool)
    ensures
        r == is_decode_error(*e),
;

/// `reqwest::Error::is_timeout` looks for a timeout among the error's
/// causes.
pub assume_specification[ reqwest::Error::is_timeout ](e: &reqwest::Error) -> (r: bool)
    ensures
        r == is_timeout_error(*e),
;

/// A clone of an asynchronous handle is a handle on the same transport.
pub assume_specification[ <reqwest::Client as Clone>::clone ](c: &reqwest::Client) -> (r:
    reqwest::Client)
    ensures
        async_transport_config(r) == async_transport_config(*c),
;

/// A clone of a blocking handle is a second handle on the same transport.
/// The library reads nothing from a blocking handle, so nothing is stated
/// of the clone.
pub assume_specification[ <reqwest::blocking::Client as Clone>::clone ](
    c: &reqwest::blocking::Client,
) -> (r: reqwest::blocking::Client)
;

} // verus!
