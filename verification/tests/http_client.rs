use mcprouter::http_client::{
    create_transport_config, create_transport_config_with_auth, HttpClientFactory, HttpTransportConfig,
};
use mcprouter::keyed::KeyedList;

#[test]
fn test_http_transport_config() {
    let config = HttpTransportConfig::new("http://example.com")
        .authorization("test-token")
        .header("X-Custom", "value")
        .build_config()
        .unwrap();

    assert!(config.uri().contains("http://example.com"));
}

#[test]
fn test_create_transport_with_auth() {
    let config = create_transport_config_with_auth("http://example.com", "test-token").unwrap();

    assert!(config.uri().contains("http://example.com"));
}

#[test]
fn bearer_prefix_is_stripped_from_the_token() {
    let config = HttpTransportConfig::new("http://h").authorization("abc").build_config().unwrap();
    assert_eq!(config.auth_header, Some("abc".to_string()));
}

#[test]
fn authorization_header_name_ignores_case() {
    let config = HttpTransportConfig::new("http://h").header("AUTHORIZATION", "raw-token").build_config().unwrap();
    assert_eq!(config.auth_header, Some("raw-token".to_string()));
}

#[test]
fn other_headers_give_no_token() {
    let config = HttpClientFactory::create_with_content_type("http://h", "application/json").unwrap();
    assert_eq!(config.uri(), "http://h");
    assert_eq!(config.auth_header, None);
    assert_eq!(HttpClientFactory::create_default("http://h").unwrap().auth_header, None);
}

#[test]
fn api_key_becomes_bearer_token() {
    let config = HttpClientFactory::create_with_api_key("http://h", "k1").unwrap();
    assert_eq!(config.auth_header, Some("k1".to_string()));
    let config = HttpClientFactory::create_with_bearer_token("http://h", "k2").unwrap();
    assert_eq!(config.auth_header, Some("k2".to_string()));
}

#[test]
fn headers_map_carries_authorization() {
    let mut h = KeyedList::new();
    h.insert("X-Other".to_string(), "1".to_string());
    h.insert("Authorization".to_string(), "Bearer zz".to_string());
    let config = create_transport_config("http://h", &h).unwrap();
    assert_eq!(config.auth_header, Some("zz".to_string()));
}

#[test]
fn later_header_value_replaces_earlier() {
    let c = HttpTransportConfig::new("u").api_key("X-Key", "a").api_key("X-Key", "b");
    let config = c.authorization("t").build_config().unwrap();
    assert_eq!(config.auth_header, Some("t".to_string()));
}

#[test]
fn connection_headers_keep_valid_ones() {
    let accept = ("Accept".to_string(), "application/json, text/event-stream; charset=utf-8".to_string());
    assert_eq!(mcprouter::http_client::connection_headers(None), vec![accept.clone()]);
    let mut h = KeyedList::new();
    h.insert("X-Good".to_string(), "v".to_string());
    h.insert("bad name".to_string(), "v".to_string());
    h.insert("X-Ctl".to_string(), "a\nb".to_string());
    h.insert("X-Uni".to_string(), "é\tok".to_string());
    h.insert("".to_string(), "v".to_string());
    let got = mcprouter::http_client::connection_headers(Some(&h));
    assert_eq!(
        got,
        vec![accept, ("X-Good".to_string(), "v".to_string()), ("X-Uni".to_string(), "é\tok".to_string())]
    );
    assert_eq!(mcprouter::http_client::HTTP_CLIENT_TIMEOUT_SECONDS, 30);
}

#[test]
fn listing_headers_of_sources() {
    let sources = mcprouter::marketplace::default_sources();
    assert_eq!(
        mcprouter::http_client::listing_headers(&sources[0]),
        vec![("Content-Type".to_string(), "application/json".to_string())]
    );
    let mut h = KeyedList::new();
    h.insert("X-Api-Key".to_string(), "k".to_string());
    h.insert("X\u{7f}".to_string(), "k".to_string());
    let source = mcprouter::marketplace::MarketplaceSource {
        name: "s".to_string(),
        url: "https://example.com".to_string(),
        enabled: true,
        headers: Some(h),
    };
    assert_eq!(
        mcprouter::http_client::listing_headers(&source),
        vec![
            ("Content-Type".to_string(), "application/json".to_string()),
            ("X-Api-Key".to_string(), "k".to_string())
        ]
    );
}

#[test]
fn headers_overlay_those_already_set() {
    let mut replace = KeyedList::new();
    replace.insert("Authorization".to_string(), "Bearer new".to_string());
    let c = HttpTransportConfig::new("u").authorization("old").headers(&replace).build_config().unwrap();
    assert_eq!(c.auth_header, Some("new".to_string()));
    let mut other = KeyedList::new();
    other.insert("X-Trace".to_string(), "1".to_string());
    let c = HttpTransportConfig::new("u").authorization("old").headers(&other).build_config().unwrap();
    assert_eq!(c.auth_header, Some("old".to_string()));
}
