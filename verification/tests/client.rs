use ipstruct::client::{
    address_outcome, async_builder_with, blocking_builder_with, conclude, proxy_for, ApiClient,
    BlockingRequest, Started,
};
use ipstruct::error::ClientError;
use ipstruct::setting::ClientSetting;
use std::time::Duration;

fn built(setting: ClientSetting) -> Result<ApiClient, ClientError> {
    match ApiClient::new(setting) {
        Ok(Started::Ready(client)) => Ok(client),
        Ok(Started::NeedsBlocking(rest, builder)) => rest.finish(builder.build()),
        Err(e) => Err(e),
    }
}

fn client_for(setting: ClientSetting) -> ApiClient {
    match built(setting) {
        Ok(client) => client,
        Err(e) => panic!("no client: {}", e.message()),
    }
}

fn url_of(planned: Result<BlockingRequest<'_>, ClientError>) -> String {
    match planned {
        Ok(request) => request.url,
        Err(e) => panic!("no request: {}", e.message()),
    }
}

fn refused(planned: Result<BlockingRequest<'_>, ClientError>) -> bool {
    matches!(planned, Err(ClientError::BlockingNotEnabled))
}

/// An error of the transport that is no decoding error: a URL that cannot be read.
fn url_failure() -> reqwest::Error {
    let handle = match reqwest::Client::builder().build() {
        Ok(handle) => handle,
        Err(e) => panic!("no handle: {}", e),
    };
    match handle.get("no scheme here").build() {
        Err(e) => e,
        Ok(_) => panic!("the URL was accepted"),
    }
}

/// The error that decoding a body as JSON gives.
fn decode_failure(body: &'static str) -> reqwest::Error {
    let response = reqwest::blocking::Response::from(http::Response::new(body));
    match response.json::<String>() {
        Err(e) => e,
        Ok(_) => panic!("the body was decoded"),
    }
}

#[test]
fn default_setting_builds_a_client() {
    let client = client_for(ClientSetting::new());
    assert!(!client.setting.blocking);
    assert!(!client.setting.reverse_dns);
    assert_eq!(client.setting.timeout, Duration::from_secs(10));
    assert_eq!(client.setting.user_agent, None);
}

#[test]
fn client_keeps_the_setting_it_was_built_from() {
    let setting = ClientSetting::new()
        .timeout(Duration::from_secs(3))
        .user_agent("probe/1.0")
        .reverse_dns(true);
    let client = client_for(setting);
    assert_eq!(client.setting.timeout, Duration::from_secs(3));
    assert_eq!(client.setting.get_user_agent(), "probe/1.0");
    assert!(client.setting.reverse_dns);
    assert!(!client.setting.blocking);
}

#[test]
fn later_change_of_a_setting_does_not_reach_the_client() {
    let mut setting = ClientSetting::new();
    let client = client_for(setting.clone());
    setting.set_reverse_dns(true);
    setting.set_user_agent("changed");
    assert!(!client.setting.reverse_dns);
    assert_eq!(client.setting.user_agent, None);
    assert_eq!(client.get_self_ip_info().url, "https://api.ipstruct.com/ip");
}

#[test]
fn async_queries_go_to_their_urls() {
    let client = client_for(ClientSetting::new());
    assert_eq!(client.get_self_ip().url, "https://api.ipstruct.com/");
    assert_eq!(client.get_self_ipv4().url, "https://ipv4.ipstruct.com/");
    assert_eq!(client.get_self_ip_info().url, "https://api.ipstruct.com/ip");
    assert_eq!(client.get_self_ipv4_info().url, "https://ipv4.ipstruct.com/ip");
    assert_eq!(client.get_header_info().url, "https://api.ipstruct.com/header");
    assert_eq!(client.get_header_info_ipv4().url, "https://ipv4.ipstruct.com/header");
    assert_eq!(client.get_ip_info("1.1.1.1").url, "https://api.ipstruct.com/ip/1.1.1.1");
}

#[test]
fn async_queries_with_reverse_dns_go_to_their_urls() {
    let client = client_for(ClientSetting::new().reverse_dns(true));
    assert_eq!(client.get_self_ip().url, "https://api.ipstruct.com/");
    assert_eq!(client.get_self_ipv4().url, "https://ipv4.ipstruct.com/");
    assert_eq!(client.get_self_ip_info().url, "https://api.ipstruct.com/ip/reverse");
    assert_eq!(client.get_self_ipv4_info().url, "https://ipv4.ipstruct.com/ip/reverse");
    assert_eq!(client.get_header_info().url, "https://api.ipstruct.com/header");
    assert_eq!(client.get_header_info_ipv4().url, "https://ipv4.ipstruct.com/header");
    assert_eq!(client.get_ip_info("1.1.1.1").url, "https://api.ipstruct.com/ip/reverse/1.1.1.1");
}

#[test]
fn self_ip_info_with_reverse_dns_targets_ip_reverse() {
    let client = client_for(ClientSetting::new().reverse_dns(true));
    let url = client.get_self_ip_info().url;
    assert!(url.ends_with("/ip/reverse"));
    assert_ne!(url, "https://api.ipstruct.com/ip");
}

#[test]
fn lookup_of_one_one_one_one_targets_ip_one_one_one_one() {
    let client = client_for(ClientSetting::new().reverse_dns(false));
    assert_eq!(client.get_ip_info("1.1.1.1").url, "https://api.ipstruct.com/ip/1.1.1.1");
}

#[test]
fn lookup_does_not_check_the_address() {
    let client = client_for(ClientSetting::new());
    assert_eq!(client.get_ip_info("").url, "https://api.ipstruct.com/ip/");
    assert_eq!(client.get_ip_info("nonsense").url, "https://api.ipstruct.com/ip/nonsense");
}

#[test]
fn the_same_query_gives_the_same_url_every_time() {
    let client = client_for(ClientSetting::new().reverse_dns(true));
    assert_eq!(client.get_self_ip_info().url, client.get_self_ip_info().url);
    assert_eq!(client.get_ip_info("8.8.8.8").url, client.get_ip_info("8.8.8.8").url);
}

#[test]
fn without_blocking_every_blocking_query_is_refused() {
    let client = client_for(ClientSetting::new());
    assert!(refused(client.get_self_ip_blocking()));
    assert!(refused(client.get_self_ipv4_blocking()));
    assert!(refused(client.get_self_ip_info_blocking()));
    assert!(refused(client.get_self_ipv4_info_blocking()));
    assert!(refused(client.get_header_info_blocking()));
    assert!(refused(client.get_header_info_ipv4_blocking()));
    assert!(refused(client.get_ip_info_blocking("1.1.1.1")));
}

#[test]
fn without_blocking_the_refusal_does_not_depend_on_the_rest_of_the_setting() {
    let setting = ClientSetting::new()
        .blocking(false)
        .reverse_dns(true)
        .timeout(Duration::from_secs(1))
        .user_agent_chrome()
        .proxy_scheme("http://127.0.0.1:8080");
    let client = client_for(setting);
    assert!(refused(client.get_self_ip_blocking()));
    assert!(refused(client.get_self_ip_info_blocking()));
    assert!(refused(client.get_header_info_blocking()));
    assert!(refused(client.get_ip_info_blocking("1.1.1.1")));
    assert_eq!(client.get_self_ip_info().url, "https://api.ipstruct.com/ip/reverse");
}

#[test]
fn refusal_reads_blocking_is_not_enabled() {
    let client = client_for(ClientSetting::new());
    match client.get_self_ip_blocking() {
        Err(e) => assert_eq!(e.message(), "Blocking is not enabled"),
        Ok(_) => panic!("a request came back"),
    }
}

#[test]
fn with_blocking_both_transports_are_built() {
    let client = client_for(ClientSetting::new().blocking(true));
    assert!(client.setting.blocking);
    assert!(client.get_self_ip_blocking().is_ok());
    assert_eq!(client.get_self_ip().url, "https://api.ipstruct.com/");
}

#[test]
fn blocking_queries_go_to_their_urls() {
    let client = client_for(ClientSetting::new().blocking(true));
    assert_eq!(url_of(client.get_self_ip_blocking()), "https://api.ipstruct.com/");
    assert_eq!(url_of(client.get_self_ipv4_blocking()), "https://ipv4.ipstruct.com/");
    assert_eq!(url_of(client.get_self_ip_info_blocking()), "https://api.ipstruct.com/ip");
    assert_eq!(url_of(client.get_self_ipv4_info_blocking()), "https://ipv4.ipstruct.com/ip");
    assert_eq!(url_of(client.get_header_info_blocking()), "https://api.ipstruct.com/header");
    assert_eq!(url_of(client.get_header_info_ipv4_blocking()), "https://ipv4.ipstruct.com/header");
    assert_eq!(
        url_of(client.get_ip_info_blocking("1.1.1.1")),
        "https://api.ipstruct.com/ip/1.1.1.1"
    );
}

#[test]
fn blocking_queries_with_reverse_dns_go_to_their_urls() {
    let client = client_for(ClientSetting::new().blocking(true).reverse_dns(true));
    assert_eq!(url_of(client.get_self_ip_blocking()), "https://api.ipstruct.com/");
    assert_eq!(url_of(client.get_self_ipv4_blocking()), "https://ipv4.ipstruct.com/");
    assert_eq!(url_of(client.get_self_ip_info_blocking()), "https://api.ipstruct.com/ip/reverse");
    assert_eq!(
        url_of(client.get_self_ipv4_info_blocking()),
        "https://ipv4.ipstruct.com/ip/reverse"
    );
    assert_eq!(url_of(client.get_header_info_blocking()), "https://api.ipstruct.com/header");
    assert_eq!(url_of(client.get_header_info_ipv4_blocking()), "https://ipv4.ipstruct.com/header");
    assert_eq!(
        url_of(client.get_ip_info_blocking("1.1.1.1")),
        "https://api.ipstruct.com/ip/reverse/1.1.1.1"
    );
}

#[test]
fn async_transport_sends_the_library_user_agent_by_default() {
    let client = client_for(ClientSetting::new());
    let shown = format!("{:?}", client.get_self_ip().transport);
    assert!(shown.contains("ipstruct-rust-client/0.2.0"), "{}", shown);
}

#[test]
fn async_transport_sends_the_user_agent_of_the_setting() {
    let client = client_for(ClientSetting::new().user_agent("probe/1.0"));
    let shown = format!("{:?}", client.get_self_ip().transport);
    assert!(shown.contains("probe/1.0"), "{}", shown);
    assert!(!shown.contains("ipstruct-rust-client"), "{}", shown);
}

#[test]
fn async_transport_has_the_timeout_of_the_setting() {
    let client = client_for(ClientSetting::new());
    let shown = format!("{:?}", client.get_self_ip().transport);
    assert!(shown.contains("timeout: 10s"), "{}", shown);
    let client = client_for(ClientSetting::new().timeout(Duration::from_secs(3)));
    let shown = format!("{:?}", client.get_self_ip().transport);
    assert!(shown.contains("timeout: 3s"), "{}", shown);
}

#[test]
fn async_transport_goes_through_the_proxy_of_the_setting() {
    let client = client_for(ClientSetting::new().proxy_scheme("http://127.0.0.1:8080"));
    let shown = format!("{:?}", client.get_self_ip().transport);
    assert!(shown.contains("http://127.0.0.1:8080"), "{}", shown);
}

#[test]
fn proxy_uri_without_a_host_fails_construction() {
    match built(ClientSetting::new().proxy_scheme("http://")) {
        Err(ClientError::Construction(_)) => {}
        Err(e) => panic!("another error: {}", e.message()),
        Ok(_) => panic!("a client was built"),
    }
}

#[test]
fn proxy_uri_of_an_unknown_scheme_fails_construction() {
    match built(ClientSetting::new().proxy_scheme("gopher://127.0.0.1:70")) {
        Err(ClientError::Construction(e)) => {
            assert_eq!(e.to_string(), "builder error: unknown proxy scheme")
        }
        Err(e) => panic!("another error: {}", e.message()),
        Ok(_) => panic!("a client was built"),
    }
}

#[test]
fn invalid_proxy_fails_construction_with_blocking_too() {
    let setting = ClientSetting::new().blocking(true).proxy_scheme("gopher://127.0.0.1:70");
    match built(setting) {
        Err(e) => {
            assert!(matches!(e, ClientError::Construction(_)));
            assert_eq!(e.message(), "builder error: unknown proxy scheme");
        }
        Ok(_) => panic!("a client was built"),
    }
}

#[test]
fn valid_proxy_builds_both_transports() {
    let setting = ClientSetting::new().blocking(true).proxy_scheme("http://127.0.0.1:8080");
    let client = client_for(setting);
    assert_eq!(url_of(client.get_self_ip_blocking()), "https://api.ipstruct.com/");
}

#[test]
fn user_agent_that_is_no_header_value_fails_construction() {
    match built(ClientSetting::new().user_agent("two\nlines")) {
        Err(ClientError::Construction(_)) => {}
        Err(e) => panic!("another error: {}", e.message()),
        Ok(_) => panic!("a client was built"),
    }
}

#[test]
fn assemble_with_the_async_handle_alone_refuses_blocking() {
    let handle = reqwest::Client::builder().build();
    match ApiClient::assemble(ClientSetting::new(), handle, None) {
        Ok(client) => {
            assert!(refused(client.get_self_ip_blocking()));
            assert_eq!(client.get_self_ip().url, "https://api.ipstruct.com/");
        }
        Err(e) => panic!("no client: {}", e.message()),
    }
}

#[test]
fn assemble_with_both_handles_offers_blocking() {
    let handle = reqwest::Client::builder().build();
    let blocking = reqwest::blocking::Client::builder().build();
    let setting = ClientSetting::new().blocking(true).reverse_dns(true);
    match ApiClient::assemble(setting, handle, Some(blocking)) {
        Ok(client) => {
            assert_eq!(
                url_of(client.get_self_ip_info_blocking()),
                "https://api.ipstruct.com/ip/reverse"
            );
            assert!(client.setting.reverse_dns);
        }
        Err(e) => panic!("no client: {}", e.message()),
    }
}

#[test]
fn assemble_fails_when_the_async_handle_failed() {
    let failed = reqwest::Client::builder().user_agent("two\nlines").build();
    assert!(failed.is_err());
    let blocking = reqwest::blocking::Client::builder().build();
    match ApiClient::assemble(ClientSetting::new().blocking(true), failed, Some(blocking)) {
        Err(ClientError::Construction(_)) => {}
        Err(e) => panic!("another error: {}", e.message()),
        Ok(_) => panic!("a client was built"),
    }
}

#[test]
fn assemble_fails_when_the_blocking_handle_failed() {
    let handle = reqwest::Client::builder().build();
    let failed = reqwest::blocking::Client::builder().user_agent("two\nlines").build();
    assert!(failed.is_err());
    match ApiClient::assemble(ClientSetting::new().blocking(true), handle, Some(failed)) {
        Err(ClientError::Construction(_)) => {}
        Err(e) => panic!("another error: {}", e.message()),
        Ok(_) => panic!("a client was built"),
    }
}

#[test]
fn clone_of_a_client_answers_as_the_client_does() {
    let client = client_for(ClientSetting::new().blocking(true).reverse_dns(true));
    let copy = client.clone();
    assert!(copy.setting.blocking);
    assert!(copy.setting.reverse_dns);
    assert_eq!(copy.get_self_ip_info().url, "https://api.ipstruct.com/ip/reverse");
    assert_eq!(url_of(copy.get_header_info_blocking()), "https://api.ipstruct.com/header");
    let plain = client_for(ClientSetting::new());
    assert!(refused(plain.clone().get_self_ip_blocking()));
}

#[test]
fn conclude_hands_a_decoded_record_on() {
    let record: Result<String, reqwest::Error> = Ok("203.0.113.7".to_string());
    match conclude(record) {
        Ok(text) => assert_eq!(text, "203.0.113.7"),
        Err(e) => panic!("an error: {}", e.message()),
    }
}

#[test]
fn conclude_calls_a_failed_exchange_a_transport_error() {
    let failure = url_failure();
    assert!(!failure.is_decode());
    let text = failure.to_string();
    match conclude::<String>(Err(failure)) {
        Err(ClientError::Transport(e)) => assert_eq!(e.to_string(), text),
        Err(e) => panic!("another error: {}", e.message()),
        Ok(_) => panic!("a record came back"),
    }
}

#[test]
fn conclude_calls_malformed_json_a_deserialization_error() {
    let bodies =
        ["", "not json", "{\"ip_addr\":", "{\"ip_addr\":\"203.0.113.7\"", "[1,2", "\"open"];
    for body in bodies {
        let failure = decode_failure(body);
        assert!(failure.is_decode());
        match conclude::<String>(Err(failure)) {
            Err(ClientError::Deserialize(_)) => {}
            Err(e) => panic!("another error: {}", e.message()),
            Ok(_) => panic!("a record came back"),
        }
    }
}

#[test]
fn conclude_calls_a_body_of_another_shape_a_deserialization_error() {
    let body = "{\"status_code\":\"400\",\"error_message\":\"bad request\"}";
    let response = reqwest::blocking::Response::from(http::Response::new(body));
    let outcome = response.json::<Vec<String>>();
    assert!(outcome.is_err());
    match conclude(outcome) {
        Err(ClientError::Deserialize(_)) => {}
        Err(e) => panic!("another error: {}", e.message()),
        Ok(_) => panic!("a record came back"),
    }
}

#[test]
fn conclude_keeps_the_words_of_the_transport() {
    let failure = decode_failure("not json");
    let text = failure.to_string();
    match conclude::<String>(Err(failure)) {
        Err(e) => assert_eq!(e.message(), text),
        Ok(_) => panic!("a record came back"),
    }
}

#[test]
fn async_builder_is_told_what_the_setting_says() {
    let setting = ClientSetting::new()
        .timeout(Duration::from_secs(3))
        .user_agent("probe/1.0")
        .proxy_scheme("http://127.0.0.1:8080");
    match async_builder_with(&setting, proxy_for(&setting)) {
        Ok(builder) => {
            let shown = format!("{:?}", builder);
            assert!(shown.contains("\"user-agent\": \"probe/1.0\""), "{}", shown);
            assert!(shown.contains("timeout: 3s"), "{}", shown);
            assert!(shown.contains("http://127.0.0.1:8080"), "{}", shown);
        }
        Err(e) => panic!("no builder: {}", e),
    }
}

#[test]
fn blocking_builder_is_told_the_user_agent_and_the_proxy() {
    let setting =
        ClientSetting::new().user_agent("probe/1.0").proxy_scheme("http://127.0.0.1:8080");
    match blocking_builder_with(&setting, proxy_for(&setting)) {
        Ok(builder) => {
            let shown = format!("{:?}", builder);
            assert!(shown.contains("\"user-agent\": \"probe/1.0\""), "{}", shown);
            assert!(shown.contains("http://127.0.0.1:8080"), "{}", shown);
        }
        Err(e) => panic!("no builder: {}", e),
    }
}

#[test]
fn blocking_builder_is_told_the_library_user_agent_by_default() {
    match blocking_builder_with(&ClientSetting::new(), None) {
        Ok(builder) => {
            let shown = format!("{:?}", builder);
            assert!(shown.contains("ipstruct-rust-client/0.2.0"), "{}", shown);
            assert!(!shown.contains("proxies"), "{}", shown);
        }
        Err(e) => panic!("no builder: {}", e),
    }
}

#[test]
fn builders_fail_on_a_proxy_uri_that_is_not_valid() {
    let setting = ClientSetting::new().proxy_scheme("gopher://127.0.0.1:70");
    match async_builder_with(&setting, proxy_for(&setting)) {
        Err(e) => assert_eq!(e.to_string(), "builder error: unknown proxy scheme"),
        Ok(_) => panic!("a builder came back"),
    }
    match blocking_builder_with(&setting, proxy_for(&setting)) {
        Err(e) => assert_eq!(e.to_string(), "builder error: unknown proxy scheme"),
        Ok(_) => panic!("a builder came back"),
    }
}

#[test]
fn proxy_for_reads_the_proxy_uri_of_the_setting() {
    assert!(proxy_for(&ClientSetting::new()).is_none());
    match proxy_for(&ClientSetting::new().proxy_scheme("http://127.0.0.1:8080")) {
        Some(Ok(proxy)) => assert!(format!("{:?}", proxy).contains("http://127.0.0.1:8080")),
        _ => panic!("no proxy"),
    }
    match proxy_for(&ClientSetting::new().proxy_scheme("gopher://127.0.0.1:70")) {
        Some(Err(e)) => assert_eq!(e.to_string(), "builder error: unknown proxy scheme"),
        _ => panic!("no error"),
    }
}

#[test]
fn proxy_uri_without_a_scheme_is_read_as_http() {
    match proxy_for(&ClientSetting::new().proxy_scheme("127.0.0.1:8080")) {
        Some(Ok(proxy)) => assert!(format!("{:?}", proxy).contains("http://127.0.0.1:8080")),
        _ => panic!("no proxy"),
    }
}

#[test]
fn builder_goes_through_the_proxy_it_is_given() {
    let setting = ClientSetting::new();
    let proxy = reqwest::Proxy::all("http://10.0.0.1:3128");
    match async_builder_with(&setting, Some(proxy)) {
        Ok(builder) => {
            let shown = format!("{:?}", builder);
            assert!(shown.contains("http://10.0.0.1:3128"), "{}", shown);
            assert!(shown.contains("timeout: 10s"), "{}", shown);
        }
        Err(e) => panic!("no builder: {}", e),
    }
    match async_builder_with(&setting, None) {
        Ok(builder) => assert!(!format!("{:?}", builder).contains("proxies")),
        Err(e) => panic!("no builder: {}", e),
    }
}

#[test]
fn without_blocking_new_gives_the_client() {
    match ApiClient::new(ClientSetting::new()) {
        Ok(Started::Ready(client)) => {
            assert!(!client.setting().blocking);
            assert!(refused(client.get_self_ip_blocking()));
        }
        Ok(Started::NeedsBlocking(_, _)) => panic!("a blocking transport is asked for"),
        Err(e) => panic!("no client: {}", e.message()),
    }
}

#[test]
fn with_blocking_new_hands_out_the_blocking_builder() {
    let setting = ClientSetting::new()
        .blocking(true)
        .user_agent("probe/1.0")
        .proxy_scheme("http://127.0.0.1:8080");
    match ApiClient::new(setting) {
        Ok(Started::NeedsBlocking(_, builder)) => {
            let shown = format!("{:?}", builder);
            assert!(shown.contains("\"user-agent\": \"probe/1.0\""), "{}", shown);
            assert!(shown.contains("http://127.0.0.1:8080"), "{}", shown);
        }
        Ok(Started::Ready(_)) => panic!("the client came back without its blocking transport"),
        Err(e) => panic!("no client: {}", e.message()),
    }
}

#[test]
fn finish_with_a_handle_gives_the_client_with_both_transports() {
    match ApiClient::new(ClientSetting::new().blocking(true).reverse_dns(true)) {
        Ok(Started::NeedsBlocking(rest, builder)) => match rest.finish(builder.build()) {
            Ok(client) => {
                assert!(client.setting().blocking);
                assert!(client.setting().reverse_dns);
                assert_eq!(client.get_self_ip_info().url, "https://api.ipstruct.com/ip/reverse");
                assert_eq!(
                    url_of(client.get_self_ip_info_blocking()),
                    "https://api.ipstruct.com/ip/reverse"
                );
            }
            Err(e) => panic!("no client: {}", e.message()),
        },
        Ok(Started::Ready(_)) => panic!("the client came back without its blocking transport"),
        Err(e) => panic!("no client: {}", e.message()),
    }
}

#[test]
fn finish_with_a_failure_gives_no_client() {
    let failed = reqwest::blocking::Client::builder().user_agent("two\nlines").build();
    assert!(failed.is_err());
    match ApiClient::new(ClientSetting::new().blocking(true)) {
        Ok(Started::NeedsBlocking(rest, _)) => match rest.finish(failed) {
            Err(ClientError::Construction(_)) => {}
            Err(e) => panic!("another error: {}", e.message()),
            Ok(_) => panic!("a client was built"),
        },
        Ok(Started::Ready(_)) => panic!("the client came back without its blocking transport"),
        Err(e) => panic!("no client: {}", e.message()),
    }
}

#[test]
fn user_agent_that_is_no_header_value_fails_construction_with_blocking_too() {
    match ApiClient::new(ClientSetting::new().blocking(true).user_agent("two\nlines")) {
        Err(ClientError::Construction(_)) => {}
        Err(e) => panic!("another error: {}", e.message()),
        Ok(_) => panic!("construction went on"),
    }
}

#[test]
fn user_agent_is_a_header_value_by_its_characters() {
    for accepted in ["", "plain", "with space", "tab\there", "caf\u{e9}", "~", "\u{80}"] {
        assert!(built(ClientSetting::new().user_agent(accepted)).is_ok(), "{:?}", accepted);
    }
    for refused in ["\n", "a\u{0}b", "bell\u{7}", "escape\u{1b}", "unit\u{1f}", "delete\u{7f}"] {
        match built(ClientSetting::new().user_agent(refused)) {
            Err(ClientError::Construction(_)) => {}
            Err(e) => panic!("another error for {:?}: {}", refused, e.message()),
            Ok(_) => panic!("a client was built for {:?}", refused),
        }
    }
}

#[test]
fn builder_with_a_user_agent_that_is_no_header_value_holds_none() {
    let setting = ClientSetting::new().user_agent("two\nlines");
    match async_builder_with(&setting, None) {
        Ok(builder) => {
            let shown = format!("{:?}", builder);
            assert!(!shown.contains("user-agent"), "{}", shown);
            assert!(shown.contains("timeout: 10s"), "{}", shown);
            assert!(builder.build().is_err());
        }
        Err(e) => panic!("no builder: {}", e),
    }
    match blocking_builder_with(&setting, None) {
        Ok(builder) => assert!(!format!("{:?}", builder).contains("user-agent")),
        Err(e) => panic!("no builder: {}", e),
    }
}

#[test]
fn setting_getter_gives_the_setting_of_the_client() {
    let client = client_for(ClientSetting::new().user_agent("probe/1.0").reverse_dns(true));
    assert_eq!(client.setting().get_user_agent(), "probe/1.0");
    assert!(client.setting().reverse_dns);
    assert_eq!(client.setting().timeout, client.setting.timeout);
}

#[test]
fn address_outcome_hands_a_read_address_on() {
    match address_outcome(Some([203u8, 0, 113, 7])) {
        Ok(address) => assert_eq!(address, [203u8, 0, 113, 7]),
        Err(e) => panic!("an error: {}", e.message()),
    }
}

#[test]
fn address_outcome_of_an_unreadable_address_is_address_parse() {
    match address_outcome::<[u8; 4]>(None) {
        Err(ClientError::AddressParse) => {}
        Err(e) => panic!("another error: {}", e.message()),
        Ok(_) => panic!("an address came back"),
    }
    match address_outcome::<String>(None) {
        Err(e) => assert_eq!(e.message(), "Failed to parse IP address"),
        Ok(_) => panic!("an address came back"),
    }
}
