//! The client: a setting and the transport handles built from it.
//!
//! The client decides and does not send. Each query method hands back the
//! request to make: the handle to send it over and the URL to get. The
//! caller sends it, decodes the body, and gives the outcome to `conclude`,
//! which says what the query returns.
//!
//! Construction goes the same way for the one call that the library
//! leaves out. `ApiClient::new` builds the asynchronous transport. Where
//! the setting asks for blocking it hands back the builder of the blocking
//! transport, the caller builds it outside any asynchronous runtime, and
//! `Unfinished::finish` takes what came of that.

use crate::endpoint::{lookup_url, lookup_url_of, self_url, self_url_of, AddressFamily, DetailLevel};
use crate::error::{exchange_error, ClientError};
use crate::setting::{ClientSetting, ClientSettingView, DEFAULT_USER_AGENT};
use crate::transport::{
    async_builder_config, async_builder_failed, async_transport_config, async_user_agent,
    blocking_builder_config, blocking_builder_failed, blocking_timeout, blocking_user_agent,
    is_decode_error, is_header_value, is_timeout_error, parse_proxy, proxy_all, TransportConfig,
};
use vstd::prelude::*;

verus! {

/// API client for ipstruct.com
///
/// A client is not changed by its queries, so any number of callers may
/// share one.
#[derive(Debug)]
pub struct ApiClient {
    inner: reqwest::Client,
    blocking_inner: Option<reqwest::blocking::Client>,
    /// The setting the client was built from.
    pub setting: ClientSetting,
}

/// A request to send over the asynchronous transport: one GET of `url`.
#[derive(Debug)]
pub struct Request<'a> {
    pub transport: &'a reqwest::Client,
    pub url: String,
}

/// A request to send over the blocking transport: one GET of `url`.
#[derive(Debug)]
pub struct BlockingRequest<'a> {
    pub transport: &'a reqwest::blocking::Client,
    pub url: String,
}

/// A client that lacks only its blocking transport: the setting asks for
/// blocking, and the asynchronous transport stands.
#[derive(Debug)]
pub struct Unfinished {
    inner: reqwest::Client,
    setting: ClientSetting,
}

/// How far `ApiClient::new` brings a client.
#[derive(Debug)]
pub enum Started {
    /// The client, complete. This is what comes of a setting without
    /// blocking.
    Ready(ApiClient),
    /// The client but for its blocking transport, and the builder of that
    /// transport. The caller calls `build` on the builder, outside any
    /// asynchronous runtime, and gives the outcome to `Unfinished::finish`.
    NeedsBlocking(Unfinished, reqwest::blocking::ClientBuilder),
}

/// The user agent that the transports of a setting send: the setting's
/// own, or the library's where it names none.
pub open spec fn user_agent_of(setting: ClientSettingView) -> Seq<char> {
    match setting.user_agent {
        Some(user_agent) => user_agent,
        None => DEFAULT_USER_AGENT@,
    }
}

/// What the proxy URI of a setting stands for: the proxy for all traffic,
/// or the error that says why the text is no proxy URI. `None` where the
/// setting has no proxy URI.
pub open spec fn proxy_of(setting: ClientSettingView) -> Option<
    Result<reqwest::Proxy, reqwest::Error>,
> {
    match setting.proxy_scheme {
        Some(uri) => Some(parse_proxy(uri)),
        None => None,
    }
}

/// The error that the proxy URI of a setting gives, where it has one and
/// it is not valid.
pub open spec fn proxy_failure(setting: ClientSettingView) -> Option<reqwest::Error> {
    match proxy_of(setting) {
        Some(Err(e)) => Some(e),
        _ => None,
    }
}

/// What a transport is told for a setting and the proxy to go through, if
/// any: the setting's timeout, its user agent, and that proxy alone.
pub open spec fn config_via(
    setting: ClientSettingView,
    proxy: Option<reqwest::Proxy>,
) -> TransportConfig {
    TransportConfig {
        timeout: Some(setting.timeout),
        user_agent: Some(user_agent_of(setting)),
        proxies: match proxy {
            Some(proxy) => seq![proxy],
            None => Seq::empty(),
        },
    }
}

/// What the transports of a setting are set up with.
pub open spec fn config_of(setting: ClientSettingView) -> TransportConfig {
    config_via(
        setting,
        match proxy_of(setting) {
            Some(Ok(proxy)) => Some(proxy),
            _ => None,
        },
    )
}

/// What a builder made for a setting and a proxy holds, given its
/// configuration and whether it has noted a failure. With a user agent
/// that can be a header value it holds the setting's timeout, that user
/// agent and the proxy, and no failure. With any other user agent it holds
/// no user agent and has noted the failure.
pub open spec fn builder_told(
    config: TransportConfig,
    failed: bool,
    setting: ClientSettingView,
    proxy: Option<reqwest::Proxy>,
) -> bool {
    if is_header_value(user_agent_of(setting)) {
        config == config_via(setting, proxy) && !failed
    } else {
        config == (TransportConfig { user_agent: None, ..config_via(setting, proxy) }) && failed
    }
}

/// What a query returns for the outcome of its exchange: the record where
/// there is one, and else the error by its class.
pub open spec fn concluded<T>(outcome: Result<T, reqwest::Error>) -> Result<T, ClientError> {
    match outcome {
        Ok(record) => Ok(record),
        Err(e) => Err(exchange_error(e, is_decode_error(e), is_timeout_error(e))),
    }
}

/// Says what a query returns, given how its exchange ended: `Ok` with the
/// decoded record, or `Err` with what the transport reported for sending
/// the request or for reading and decoding the body. No record is made up:
/// there is one only where the exchange gave one.
pub fn conclude<T>(outcome: Result<T, reqwest::Error>) -> (r: Result<T, ClientError>)
    ensures
        r == concluded(outcome),
{
    match outcome {
        Ok(record) => Ok(record),
        Err(e) => {
            let decode = e.is_decode();
            let timeout = e.is_timeout();
            Err(ClientError::of_exchange(e, decode, timeout))
        },
    }
}

/// Says what an address-typed query returns, given what came of reading
/// the address of a well-formed answer: the address where it was read, and
/// `AddressParse` where the text is no IP literal.
pub fn address_outcome<A>(parsed: Option<A>) -> (r: Result<A, ClientError>)
    ensures
        r == match parsed {
            Some(address) => Ok::<A, ClientError>(address),
            None => Err(ClientError::AddressParse),
        },
{
    match parsed {
        Some(address) => Ok(address),
        None => Err(ClientError::AddressParse),
    }
}

/// The user agent that the transports of a setting send.
fn user_agent_for(setting: &ClientSetting) -> (user_agent: &str)
    ensures
        user_agent@ == user_agent_of(setting@),
{
    match &setting.user_agent {
        Some(user_agent) => user_agent.as_str(),
        None => DEFAULT_USER_AGENT,
    }
}

/// Reads the proxy URI of a setting, where it has one.
pub fn proxy_for(setting: &ClientSetting) -> (r: Option<Result<reqwest::Proxy, reqwest::Error>>)
    ensures
        r == proxy_of(setting@),
{
    match &setting.proxy_scheme {
        Some(uri) => Some(proxy_all(uri.as_str())),
        None => None,
    }
}

/// The builder of the asynchronous transport of a setting, given what came
/// of reading its proxy URI. It holds the setting's timeout, its user
/// agent (the library's own where it names none) and, where there is a
/// proxy, that proxy for all traffic. A user agent that cannot be a header
/// value is not taken: the builder then notes a failure, and its `build`
/// fails. Where the proxy URI could not be read there is no builder, and
/// the error is handed on.
pub fn async_builder_with(
    setting: &ClientSetting,
    proxy: Option<Result<reqwest::Proxy, reqwest::Error>>,
) -> (r: Result<reqwest::ClientBuilder, reqwest::Error>)
    ensures
        match proxy {
            Some(Err(e)) => r == Err::<reqwest::ClientBuilder, reqwest::Error>(e),
            Some(Ok(p)) => r matches Ok(b) && builder_told(
                async_builder_config(b),
                async_builder_failed(b),
                setting@,
                Some(p),
            ),
            None => r matches Ok(b) && builder_told(
                async_builder_config(b),
                async_builder_failed(b),
                setting@,
                None,
            ),
        },
{
    let builder = reqwest::Client::builder().timeout(setting.timeout);
    let builder = async_user_agent(builder, user_agent_for(setting));
    match proxy {
        Some(Ok(proxy)) => Ok(builder.proxy(proxy)),
        Some(Err(e)) => Err(e),
        None => Ok(builder),
    }
}

/// The builder of the blocking transport of a setting, which holds what
/// the asynchronous one holds. Building it is for the caller: `build`
/// panics inside an asynchronous runtime.
pub fn blocking_builder_with(
    setting: &ClientSetting,
    proxy: Option<Result<reqwest::Proxy, reqwest::Error>>,
) -> (r: Result<reqwest::blocking::ClientBuilder, reqwest::Error>)
    ensures
        match proxy {
            Some(Err(e)) => r == Err::<reqwest::blocking::ClientBuilder, reqwest::Error>(e),
            Some(Ok(p)) => r matches Ok(b) && builder_told(
                blocking_builder_config(b),
                blocking_builder_failed(b),
                setting@,
                Some(p),
            ),
            None => r matches Ok(b) && builder_told(
                blocking_builder_config(b),
                blocking_builder_failed(b),
                setting@,
                None,
            ),
        },
{
    let builder = blocking_timeout(reqwest::blocking::Client::builder(), setting.timeout);
    let builder = blocking_user_agent(builder, user_agent_for(setting));
    match proxy {
        Some(Ok(proxy)) => Ok(builder.proxy(proxy)),
        Some(Err(e)) => Err(e),
        None => Ok(builder),
    }
}

impl Unfinished {
    /// The handle of the asynchronous transport.
    pub closed spec fn transport(&self) -> reqwest::Client {
        self.inner
    }

    /// The setting the client is being built from.
    pub closed spec fn configuration(&self) -> ClientSetting {
        self.setting
    }

    /// The setting asks for blocking, and the asynchronous transport is
    /// set up as the setting says.
    #[verifier::type_invariant]
    closed spec fn well_formed(&self) -> bool {
        self.setting.blocking && async_transport_config(self.inner) == config_of(self.setting@)
    }

    /// Completes the client with what came of building its blocking
    /// transport. A handle gives the client, which then has both
    /// transports; a failure gives `Construction` with that failure, and no
    /// client.
    pub fn finish(self, built: Result<reqwest::blocking::Client, reqwest::Error>) -> (r: Result<
        ApiClient,
        ClientError,
    >)
        ensures
            match built {
                Ok(blocking) => {
                    &&& r matches Ok(client)
                    &&& client.transport() == self.transport()
                    &&& client.blocking_transport() == Some(blocking)
                    &&& client.configuration() == self.configuration()
                    &&& client.built_for(self.configuration()@)
                },
                Err(e) => r matches Err(ClientError::Construction(cause)) && cause == e,
            },
    {
        proof {
            use_type_invariant(&self);
        }
        ApiClient::assemble(self.setting, Ok(self.inner), Some(built))
    }
}

impl ApiClient {
    /// The handle of the asynchronous transport.
    pub closed spec fn transport(&self) -> reqwest::Client {
        self.inner
    }

    /// The handle of the blocking transport, where the client has one.
    pub closed spec fn blocking_transport(&self) -> Option<reqwest::blocking::Client> {
        self.blocking_inner
    }

    /// The setting the client was built from.
    pub closed spec fn configuration(&self) -> ClientSetting {
        self.setting
    }

    /// That the client is what construction makes of a setting: it keeps
    /// the setting, its asynchronous transport is set up as the setting
    /// says, and it has a blocking transport if and only if the setting
    /// asks for blocking.
    pub open spec fn built_for(&self, setting: ClientSettingView) -> bool {
        &&& self.configuration()@ == setting
        &&& async_transport_config(self.transport()) == config_of(setting)
        &&& self.blocking_transport() is Some <==> setting.blocking
    }

    /// What a blocking query for `url` returns: the request over the
    /// blocking transport where the client has one, and
    /// `BlockingNotEnabled` where it has none.
    pub open spec fn blocking_answer(
        &self,
        url: Seq<char>,
        r: Result<BlockingRequest<'_>, ClientError>,
    ) -> bool {
        match self.blocking_transport() {
            Some(blocking) => r matches Ok(request) && *request.transport == blocking
                && request.url@ == url,
            None => r matches Err(e) && e == ClientError::BlockingNotEnabled,
        }
    }

    /// That a request goes over the client's asynchronous transport to `url`.
    pub open spec fn async_answer(&self, url: Seq<char>, r: Request<'_>) -> bool {
        *r.transport == self.transport() && r.url@ == url
    }

    /// Create a new client with the given setting
    ///
    /// The asynchronous transport is built here, with the setting's
    /// timeout and user agent (the library's own where the setting names
    /// none) and, where the setting has a proxy URI, through that proxy.
    /// Without blocking that makes the client. With blocking the client
    /// still lacks its blocking transport: what comes back is the rest of
    /// it and the builder of that transport, set up like the asynchronous
    /// one, for the caller to build and hand to `Unfinished::finish`.
    ///
    /// A proxy URI that is not valid, a user agent that cannot be a header
    /// value, or a transport that cannot be set up gives `Construction`
    /// with the transport's error, and no client. Whether a transport can
    /// be set up is otherwise for the machine to say.
    pub fn new(setting: ClientSetting) -> (r: Result<Started, ClientError>)
        ensures
            match r {
                Ok(Started::Ready(client)) => !setting.blocking && client.built_for(setting@),
                Ok(Started::NeedsBlocking(rest, builder)) => {
                    &&& setting.blocking
                    &&& rest.configuration() == setting
                    &&& async_transport_config(rest.transport()) == config_of(setting@)
                    &&& blocking_builder_config(builder) == config_of(setting@)
                    &&& !blocking_builder_failed(builder)
                },
                Err(e) => e is Construction,
            },
            r is Ok ==> proxy_failure(setting@) is None && is_header_value(
                user_agent_of(setting@),
            ),
            proxy_failure(setting@) matches Some(e) ==> r matches Err(
                ClientError::Construction(cause),
            ) && cause == e,
    {
        let built = match async_builder_with(&setting, proxy_for(&setting)) {
            Ok(builder) => builder.build(),
            Err(e) => Err(e),
        };
        match built {
            Err(e) => Err(ClientError::Construction(e)),
            Ok(inner) => if setting.blocking {
                match blocking_builder_with(&setting, proxy_for(&setting)) {
                    Ok(builder) => Ok(
                        Started::NeedsBlocking(Unfinished { inner, setting }, builder),
                    ),
                    Err(e) => Err(ClientError::Construction(e)),
                }
            } else {
                Ok(Started::Ready(ApiClient { inner, blocking_inner: None, setting }))
            },
        }
    }

    /// The setting the client was built from.
    pub fn setting(&self) -> (r: &ClientSetting)
        ensures
            *r == self.configuration(),
    {
        &self.setting
    }

    /// Puts a client together from what came of building its transports:
    /// the asynchronous one, and the blocking one where it was built. The
    /// client has both handles where both were built, and the asynchronous
    /// one alone where no blocking one is given. If either failed to build
    /// there is no client: the error is `Construction` with the failure,
    /// that of the asynchronous transport first. The client offers the
    /// blocking queries exactly where it is given a blocking handle,
    /// whatever the setting says.
    pub fn assemble(
        setting: ClientSetting,
        inner: Result<reqwest::Client, reqwest::Error>,
        blocking_inner: Option<Result<reqwest::blocking::Client, reqwest::Error>>,
    ) -> (r: Result<ApiClient, ClientError>)
        ensures
            match (inner, blocking_inner) {
                (Err(e), _) => r matches Err(ClientError::Construction(cause)) && cause == e,
                (Ok(_), Some(Err(e))) => r matches Err(ClientError::Construction(cause))
                    && cause == e,
                (Ok(handle), Some(Ok(blocking))) => {
                    &&& r matches Ok(client)
                    &&& client.transport() == handle
                    &&& client.blocking_transport() == Some(blocking)
                    &&& client.configuration() == setting
                },
                (Ok(handle), None) => {
                    &&& r matches Ok(client)
                    &&& client.transport() == handle
                    &&& client.blocking_transport() is None
                    &&& client.configuration() == setting
                },
            },
    {
        match inner {
            Err(e) => Err(ClientError::Construction(e)),
            Ok(handle) => match blocking_inner {
                Some(Err(e)) => Err(ClientError::Construction(e)),
                Some(Ok(blocking)) => Ok(
                    ApiClient { inner: handle, blocking_inner: Some(blocking), setting },
                ),
                None => Ok(ApiClient { inner: handle, blocking_inner: None, setting }),
            },
        }
    }

    /// The request of a query over the asynchronous transport.
    fn request(&self, url: String) -> (r: Request<'_>)
        ensures
            self.async_answer(url@, r),
    {
        Request { transport: &self.inner, url }
    }

    /// The request of a query about the caller itself over the blocking
    /// transport. No URL is made where there is no transport to send over.
    fn blocking_request(&self, family: AddressFamily, detail: DetailLevel) -> (r: Result<
        BlockingRequest<'_>,
        ClientError,
    >)
        ensures
            self.blocking_answer(
                self_url_of(family, detail, self.configuration().reverse_dns),
                r,
            ),
    {
        match &self.blocking_inner {
            Some(blocking) => Ok(
                BlockingRequest {
                    transport: blocking,
                    url: self_url(family, detail, self.setting.reverse_dns),
                },
            ),
            None => Err(ClientError::BlockingNotEnabled),
        }
    }

    /// Get public IP address without any additional information.
    ///
    /// Supports both IPv4 and IPv6.
    ///
    /// The request to send; the answer is an `IpInfoSimple`, whose
    /// `ip_addr` the caller reads as an IP address.
    pub fn get_self_ip(&self) -> (r: Request<'_>)
        ensures
            self.async_answer(
                self_url_of(
                    AddressFamily::DualStack,
                    DetailLevel::Address,
                    self.configuration().reverse_dns,
                ),
                r,
            ),
    {
        self.request(
            self_url(AddressFamily::DualStack, DetailLevel::Address, self.setting.reverse_dns),
        )
    }

    /// Get public IPv4 address without any additional information.
    ///
    /// The request to send; the answer is an `IpInfoSimple`, whose
    /// `ip_addr` the caller reads as an IP address.
    pub fn get_self_ipv4(&self) -> (r: Request<'_>)
        ensures
            self.async_answer(
                self_url_of(
                    AddressFamily::V4Only,
                    DetailLevel::Address,
                    self.configuration().reverse_dns,
                ),
                r,
            ),
    {
        self.request(
            self_url(AddressFamily::V4Only, DetailLevel::Address, self.setting.reverse_dns),
        )
    }

    /// Get public IP address with additional information.
    ///
    /// Supports both IPv4 and IPv6.
    ///
    /// This includes IP address, country, ASN, AS Name(ISP), and hostname(optional).
    ///
    /// The request to send; the answer is an `IpInfo`.
    pub fn get_self_ip_info(&self) -> (r: Request<'_>)
        ensures
            self.async_answer(
                self_url_of(
                    AddressFamily::DualStack,
                    DetailLevel::Info,
                    self.configuration().reverse_dns,
                ),
                r,
            ),
    {
        self.request(
            self_url(AddressFamily::DualStack, DetailLevel::Info, self.setting.reverse_dns),
        )
    }

    /// Get public IPv4 address with additional information.
    ///
    /// This includes IP address, country, ASN, AS Name(ISP), and hostname(optional).
    ///
    /// The request to send; the answer is an `IpInfo`.
    pub fn get_self_ipv4_info(&self) -> (r: Request<'_>)
        ensures
            self.async_answer(
                self_url_of(
                    AddressFamily::V4Only,
                    DetailLevel::Info,
                    self.configuration().reverse_dns,
                ),
                r,
            ),
    {
        self.request(self_url(AddressFamily::V4Only, DetailLevel::Info, self.setting.reverse_dns))
    }

    /// Get header information of the request.
    ///
    /// The request to send; the answer is a `HeaderInfo`.
    pub fn get_header_info(&self) -> (r: Request<'_>)
        ensures
            self.async_answer(
                self_url_of(
                    AddressFamily::DualStack,
                    DetailLevel::Headers,
                    self.configuration().reverse_dns,
                ),
                r,
            ),
    {
        self.request(
            self_url(AddressFamily::DualStack, DetailLevel::Headers, self.setting.reverse_dns),
        )
    }

    /// Get header information of the request for IPv4.
    ///
    /// The request to send; the answer is a `HeaderInfo`.
    pub fn get_header_info_ipv4(&self) -> (r: Request<'_>)
        ensures
            self.async_answer(
                self_url_of(
                    AddressFamily::V4Only,
                    DetailLevel::Headers,
                    self.configuration().reverse_dns,
                ),
                r,
            ),
    {
        self.request(
            self_url(AddressFamily::V4Only, DetailLevel::Headers, self.setting.reverse_dns),
        )
    }

    /// Get IP information of the given IP address.
    ///
    /// The request to send; the answer is an `IpInfo`. The address is
    /// put into the URL as it stands: a valid literal is for the caller to
    /// supply.
    pub fn get_ip_info(&self, ip: &str) -> (r: Request<'_>)
        ensures
            self.async_answer(lookup_url_of(self.configuration().reverse_dns, ip@), r),
    {
        self.request(lookup_url(self.setting.reverse_dns, ip))
    }

    /// Get public IP address without any additional information.
    ///
    /// Supports both IPv4 and IPv6.
    ///
    /// The request to send where the client has a blocking transport, and
    /// `BlockingNotEnabled` where it has none; the answer is an
    /// `IpInfoSimple`, whose `ip_addr` the caller reads as an IP address.
    pub fn get_self_ip_blocking(&self) -> (r: Result<BlockingRequest<'_>, ClientError>)
        ensures
            self.blocking_answer(
                self_url_of(
                    AddressFamily::DualStack,
                    DetailLevel::Address,
                    self.configuration().reverse_dns,
                ),
                r,
            ),
    {
        self.blocking_request(AddressFamily::DualStack, DetailLevel::Address)
    }

    /// Get public IPv4 address without any additional information.
    ///
    /// The request to send where the client has a blocking transport, and
    /// `BlockingNotEnabled` where it has none; the answer is an
    /// `IpInfoSimple`, whose `ip_addr` the caller reads as an IP address.
    pub fn get_self_ipv4_blocking(&self) -> (r: Result<BlockingRequest<'_>, ClientError>)
        ensures
            self.blocking_answer(
                self_url_of(
                    AddressFamily::V4Only,
                    DetailLevel::Address,
                    self.configuration().reverse_dns,
                ),
                r,
            ),
    {
        self.blocking_request(AddressFamily::V4Only, DetailLevel::Address)
    }

    /// Get public IP address with additional information.
    ///
    /// Supports both IPv4 and IPv6.
    ///
    /// This includes IP address, country, ASN, AS Name(ISP), and hostname(optional).
    ///
    /// The request to send where the client has a blocking transport, and
    /// `BlockingNotEnabled` where it has none; the answer is an `IpInfo`.
    pub fn get_self_ip_info_blocking(&self) -> (r: Result<BlockingRequest<'_>, ClientError>)
        ensures
            self.blocking_answer(
                self_url_of(
                    AddressFamily::DualStack,
                    DetailLevel::Info,
                    self.configuration().reverse_dns,
                ),
                r,
            ),
    {
        self.blocking_request(AddressFamily::DualStack, DetailLevel::Info)
    }

    /// Get public IPv4 address with additional information.
    ///
    /// This includes IP address, country, ASN, AS Name(ISP), and hostname(optional).
    ///
    /// The request to send where the client has a blocking transport, and
    /// `BlockingNotEnabled` where it has none; the answer is an `IpInfo`.
    pub fn get_self_ipv4_info_blocking(&self) -> (r: Result<BlockingRequest<'_>, ClientError>)
        ensures
            self.blocking_answer(
                self_url_of(
                    AddressFamily::V4Only,
                    DetailLevel::Info,
                    self.configuration().reverse_dns,
                ),
                r,
            ),
    {
        self.blocking_request(AddressFamily::V4Only, DetailLevel::Info)
    }

    /// Get header information of the request.
    ///
    /// The request to send where the client has a blocking transport, and
    /// `BlockingNotEnabled` where it has none; the answer is a `HeaderInfo`.
    pub fn get_header_info_blocking(&self) -> (r: Result<BlockingRequest<'_>, ClientError>)
        ensures
            self.blocking_answer(
                self_url_of(
                    AddressFamily::DualStack,
                    DetailLevel::Headers,
                    self.configuration().reverse_dns,
                ),
                r,
            ),
    {
        self.blocking_request(AddressFamily::DualStack, DetailLevel::Headers)
    }

    /// Get header information of the request for IPv4.
    ///
    /// The request to send where the client has a blocking transport, and
    /// `BlockingNotEnabled` where it has none; the answer is a `HeaderInfo`.
    pub fn get_header_info_ipv4_blocking(&self) -> (r: Result<BlockingRequest<'_>, ClientError>)
        ensures
            self.blocking_answer(
                self_url_of(
                    AddressFamily::V4Only,
                    DetailLevel::Headers,
                    self.configuration().reverse_dns,
                ),
                r,
            ),
    {
        self.blocking_request(AddressFamily::V4Only, DetailLevel::Headers)
    }

    /// Get IP information of the given IP address.
    ///
    /// The request to send where the client has a blocking transport, and
    /// `BlockingNotEnabled` where it has none; the answer is an `IpInfo`.
    /// The address is put into the URL as it stands.
    pub fn get_ip_info_blocking(&self, ip: &str) -> (r: Result<BlockingRequest<'_>, ClientError>)
        ensures
            self.blocking_answer(lookup_url_of(self.configuration().reverse_dns, ip@), r),
    {
        match &self.blocking_inner {
            Some(blocking) => Ok(
                BlockingRequest {
                    transport: blocking,
                    url: lookup_url(self.setting.reverse_dns, ip),
                },
            ),
            None => Err(ClientError::BlockingNotEnabled),
        }
    }
}

impl Clone for ApiClient {
    /// A second client on the same transports, with a copy of the setting.
    fn clone(&self) -> (r: Self)
        ensures
            r.configuration()@ == self.configuration()@,
            async_transport_config(r.transport()) == async_transport_config(self.transport()),
            r.blocking_transport() is Some <==> self.blocking_transport() is Some,
    {
        ApiClient {
            inner: self.inner.clone(),
            blocking_inner: match &self.blocking_inner {
                Some(blocking) => Some(blocking.clone()),
                None => None,
            },
            setting: self.setting.clone(),
        }
    }
}

/// A client built for a setting without blocking answers every blocking
/// query with `BlockingNotEnabled`, whatever the URL, and so without any
/// request for the caller to send.
pub proof fn lemma_blocking_off_refuses(
    client: ApiClient,
    setting: ClientSettingView,
    url: Seq<char>,
    r: Result<BlockingRequest<'_>, ClientError>,
)
    requires
        client.built_for(setting),
        !setting.blocking,
        client.blocking_answer(url, r),
    ensures
        r matches Err(e) && e == ClientError::BlockingNotEnabled,
{
}

/// A client built for a setting with blocking has both transports and
/// answers every blocking query with a request over the blocking one.
pub proof fn lemma_blocking_on_has_both(
    client: ApiClient,
    setting: ClientSettingView,
    url: Seq<char>,
    r: Result<BlockingRequest<'_>, ClientError>,
)
    requires
        client.built_for(setting),
        setting.blocking,
        client.blocking_answer(url, r),
    ensures
        async_transport_config(client.transport()) == config_of(setting),
        client.blocking_transport() is Some,
        r matches Ok(request) && Some(*request.transport) == client.blocking_transport()
            && request.url@ == url,
{
}

} // verus!
