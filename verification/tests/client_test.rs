use bytes::Bytes;
use etcd::client::{
    build_url, first_error, parse_empty_response, parse_etcd_response, ClusterInfo, DecodeReason,
    Endpoint, UndecodedHeader,
};
use etcd::dispatch::on_each;
use etcd::{
    Accept, ApiError, Client, ClientBuilder, Dispatch, Duration, EtcdError, Health, Method, Reply,
    Response, VersionInfo,
};
use http::header::{HeaderMap, HeaderValue};

fn missing(what: &str) -> serde_json::Error {
    <serde_json::Error as serde::de::Error>::custom(format!("missing field `{}`", what))
}

fn text_field(value: &serde_json::Value, name: &str) -> Result<String, serde_json::Error> {
    match value.get(name).and_then(|field| field.as_str()) {
        Some(text) => Ok(text.to_owned()),
        None => Err(missing(name)),
    }
}

fn number_field(value: &serde_json::Value, name: &str) -> Result<u64, serde_json::Error> {
    match value.get(name).and_then(|field| field.as_u64()) {
        Some(number) => Ok(number),
        None => Err(missing(name)),
    }
}

fn decode_health(body: Bytes) -> Result<Health, serde_json::Error> {
    let value: serde_json::Value = serde_json::from_slice(&body)?;
    Ok(Health { health: text_field(&value, "health")? })
}

fn decode_versions(body: Bytes) -> Result<VersionInfo, serde_json::Error> {
    let value: serde_json::Value = serde_json::from_slice(&body)?;
    Ok(VersionInfo {
        cluster_version: text_field(&value, "etcdcluster")?,
        server_version: text_field(&value, "etcdserver")?,
    })
}

fn decode_api_error(body: Bytes) -> Result<ApiError, serde_json::Error> {
    let value: serde_json::Value = serde_json::from_slice(&body)?;
    Ok(ApiError {
        cause: text_field(&value, "cause")?,
        error_code: number_field(&value, "errorCode")? as u16,
        index: number_field(&value, "index")?,
        message: text_field(&value, "message")?,
    })
}

fn cluster_headers() -> HeaderMap<HeaderValue> {
    let mut headers = HeaderMap::new();
    headers.insert("x-etcd-cluster-id", HeaderValue::from_static("7e27652122e8b2ae"));
    headers.insert("x-etcd-index", HeaderValue::from_static("5"));
    headers.insert("x-raft-index", HeaderValue::from_static("11"));
    headers.insert("x-raft-term", HeaderValue::from_static("2"));
    headers
}

#[test]
fn health() {
    let client = Client::new(&["http://etcd:2379"]);
    let request = client.health();
    assert_eq!(request.method, Method::Get);
    assert_eq!(request.path, "/health");
    assert!(request.body.is_none());
    assert_eq!(request.reply, Reply::Etcd(Accept::OnlyOk));
    assert_eq!(request.dispatch, Dispatch::EveryEndpoint);

    let headers = cluster_headers();
    let responses = on_each(client.endpoint_count(), |position: usize| {
        assert_eq!(client.url(position, &request), "http://etcd:2379/health");
        parse_etcd_response(
            200,
            &headers,
            Bytes::from_static(b"{\"health\": \"true\"}"),
            Accept::OnlyOk,
            decode_health,
            decode_api_error,
        )
    });

    assert_eq!(responses.len(), 1);
    for response in responses {
        assert_eq!(response.unwrap().data.health, "true");
    }
}

#[test]
fn versions() {
    let client = Client::new(&["http://etcd:2379"]);
    let request = client.versions();
    assert_eq!(request.method, Method::Get);
    assert_eq!(request.path, "/version");
    assert_eq!(request.dispatch, Dispatch::EveryEndpoint);

    let headers = cluster_headers();
    let responses = on_each(client.endpoint_count(), |position: usize| {
        assert_eq!(client.url(position, &request), "http://etcd:2379/version");
        parse_etcd_response(
            200,
            &headers,
            Bytes::from_static(b"{\"etcdserver\":\"2.3.8\",\"etcdcluster\":\"2.3.0\"}"),
            Accept::OnlyOk,
            decode_versions,
            decode_api_error,
        )
    });

    for response in responses {
        let response = response.unwrap();
        assert_eq!(response.data.cluster_version, "2.3.0");
        assert_eq!(response.data.server_version, "2.3.8");
    }
}

#[test]
fn health_goes_to_every_member_in_the_configured_order() {
    let client = Client::new(&["http://a:2379", "http://b:2379", "http://c:2379"]);
    let request = client.health();
    let urls = on_each(client.endpoint_count(), |position: usize| client.url(position, &request));
    assert_eq!(
        urls,
        vec![
            "http://a:2379/health".to_owned(),
            "http://b:2379/health".to_owned(),
            "http://c:2379/health".to_owned()
        ]
    );
}

#[test]
fn cluster_info_reads_all_four_headers() {
    let info = ClusterInfo::from(&cluster_headers());
    assert_eq!(info.cluster_id, Some("7e27652122e8b2ae".to_owned()));
    assert_eq!(info.etcd_index, Some(5));
    assert_eq!(info.raft_index, Some(11));
    assert_eq!(info.raft_term, Some(2));
}

#[test]
fn cluster_info_finds_headers_whatever_their_case() {
    let mut headers = HeaderMap::new();
    headers.insert(
        http::header::HeaderName::from_bytes(b"X-Etcd-Index").unwrap(),
        HeaderValue::from_static("42"),
    );
    let info = ClusterInfo::from(&headers);
    assert_eq!(info.etcd_index, Some(42));
}

#[test]
fn cluster_info_without_headers_is_empty() {
    let info = ClusterInfo::from(&HeaderMap::new());
    assert_eq!(info.cluster_id, None);
    assert_eq!(info.etcd_index, None);
    assert_eq!(info.raft_index, None);
    assert_eq!(info.raft_term, None);
}

#[test]
fn cluster_info_leaves_out_what_is_malformed_and_keeps_the_rest() {
    let mut headers = HeaderMap::new();
    headers.insert("x-etcd-cluster-id", HeaderValue::from_bytes(&[0x61, 0xff, 0x62]).unwrap());
    headers.insert("x-etcd-index", HeaderValue::from_static("12x"));
    headers.insert("x-raft-index", HeaderValue::from_static("18446744073709551616"));
    headers.insert("x-raft-term", HeaderValue::from_static("18446744073709551615"));
    let info = ClusterInfo::from(&headers);
    assert_eq!(info.cluster_id, None);
    assert_eq!(info.etcd_index, None);
    assert_eq!(info.raft_index, None);
    assert_eq!(info.raft_term, Some(u64::MAX));
}

#[test]
fn cluster_info_takes_the_first_of_several_values() {
    let mut headers = HeaderMap::new();
    headers.append("x-etcd-index", HeaderValue::from_static("1"));
    headers.append("x-etcd-index", HeaderValue::from_static("2"));
    let info = ClusterInfo::from(&headers);
    assert_eq!(info.etcd_index, Some(1));
}

#[test]
fn cluster_info_keeps_a_cluster_id_that_is_no_number() {
    let mut headers = HeaderMap::new();
    headers.insert("x-etcd-cluster-id", HeaderValue::from_bytes("cl\u{fc}ster".as_bytes()).unwrap());
    let info = ClusterInfo::from(&headers);
    assert_eq!(info.cluster_id, Some("cl\u{fc}ster".to_owned()));
}

#[test]
fn decode_lists_nothing_where_every_header_decodes_or_is_missing() {
    let (info, undecoded) = ClusterInfo::decode(&cluster_headers());
    assert_eq!(info, ClusterInfo::from(&cluster_headers()));
    assert!(undecoded.is_empty());
    let (info, undecoded) = ClusterInfo::decode(&HeaderMap::new());
    assert_eq!(info.etcd_index, None);
    assert!(undecoded.is_empty());
}

#[test]
fn decode_lists_each_header_that_does_not_decode_with_the_reason() {
    let mut headers = HeaderMap::new();
    headers.insert("x-etcd-cluster-id", HeaderValue::from_bytes(&[0x61, 0xff, 0x62]).unwrap());
    headers.insert("x-etcd-index", HeaderValue::from_static("12x"));
    headers.insert("x-raft-index", HeaderValue::from_bytes(&[0x31, 0xfe]).unwrap());
    headers.insert("x-raft-term", HeaderValue::from_static("7"));
    let (info, undecoded) = ClusterInfo::decode(&headers);
    assert_eq!(
        info,
        ClusterInfo { cluster_id: None, etcd_index: None, raft_index: None, raft_term: Some(7) }
    );
    assert_eq!(
        undecoded,
        vec![
            UndecodedHeader { header: "X-Etcd-Cluster-Id", reason: DecodeReason::InvalidUtf8 },
            UndecodedHeader { header: "X-Etcd-Index", reason: DecodeReason::InvalidNumber },
            UndecodedHeader { header: "X-Raft-Index", reason: DecodeReason::InvalidUtf8 },
        ]
    );
}

#[test]
fn decode_lists_a_number_that_does_not_fit() {
    let mut headers = HeaderMap::new();
    headers.insert("x-raft-term", HeaderValue::from_static("18446744073709551616"));
    headers.insert("x-raft-index", HeaderValue::from_static(""));
    let (info, undecoded) = ClusterInfo::decode(&headers);
    assert_eq!(info.raft_term, None);
    assert_eq!(info.raft_index, None);
    assert_eq!(
        undecoded,
        vec![
            UndecodedHeader { header: "X-Raft-Index", reason: DecodeReason::InvalidNumber },
            UndecodedHeader { header: "X-Raft-Term", reason: DecodeReason::InvalidNumber },
        ]
    );
}

#[test]
fn cluster_info_from_into() {
    let headers = cluster_headers();
    let info: ClusterInfo = (&headers).into();
    assert_eq!(info.raft_term, Some(2));
}

#[test]
fn etcd_response_under_an_accepted_status_is_the_payload() {
    let response: Response<Health> = parse_etcd_response(
        200,
        &cluster_headers(),
        Bytes::from_static(b"{\"health\":\"true\"}"),
        Accept::OnlyOk,
        decode_health,
        decode_api_error,
    )
    .unwrap();
    assert_eq!(response.data.health, "true");
    assert_eq!(response.cluster_info.etcd_index, Some(5));
    assert_eq!(response.cluster_info.cluster_id, Some("7e27652122e8b2ae".to_owned()));
}

#[test]
fn etcd_response_counts_created_only_where_it_is_accepted() {
    let body = b"{\"health\":\"true\"}";
    let created = parse_etcd_response(
        201,
        &HeaderMap::new(),
        Bytes::from_static(body),
        Accept::OkOrCreated,
        decode_health,
        decode_api_error,
    );
    assert!(created.is_ok());
    let refused = parse_etcd_response(
        201,
        &HeaderMap::new(),
        Bytes::from_static(body),
        Accept::OnlyOk,
        decode_health,
        decode_api_error,
    );
    match refused {
        Err(EtcdError::Serialization(_)) => {}
        _ => panic!("a payload is no API error"),
    }
}

#[test]
fn etcd_response_with_a_payload_that_does_not_decode_is_a_serialization_error() {
    let result = parse_etcd_response(
        200,
        &HeaderMap::new(),
        Bytes::from_static(b"{\"wealth\":\"true\"}"),
        Accept::OnlyOk,
        decode_health,
        decode_api_error,
    );
    match result {
        Err(EtcdError::Serialization(_)) => {}
        _ => panic!("expected EtcdError::Serialization"),
    }
}

#[test]
fn etcd_response_under_another_status_is_the_api_error() {
    let body = b"{\"errorCode\":100,\"message\":\"Key not found\",\"cause\":\"/test/foo\",\"index\":9}";
    let result = parse_etcd_response(
        404,
        &cluster_headers(),
        Bytes::from_static(body),
        Accept::OkOrCreated,
        decode_health,
        decode_api_error,
    );
    match result {
        Err(EtcdError::Api(error)) => {
            assert_eq!(error.error_code, 100);
            assert_eq!(error.message, "Key not found");
            assert_eq!(error.cause, "/test/foo");
            assert_eq!(error.index, 9);
        }
        _ => panic!("expected EtcdError::Api"),
    }
}

#[test]
fn etcd_response_with_an_error_that_does_not_decode_is_a_serialization_error() {
    let result = parse_etcd_response(
        500,
        &HeaderMap::new(),
        Bytes::from_static(b"internal server error"),
        Accept::OnlyOk,
        decode_health,
        decode_api_error,
    );
    match result {
        Err(EtcdError::Serialization(_)) => {}
        _ => panic!("expected EtcdError::Serialization"),
    }
}

#[test]
fn empty_response_is_success_under_no_content_only() {
    let response =
        parse_empty_response(204, &cluster_headers(), Bytes::new(), decode_api_error).unwrap();
    assert_eq!(response.data, ());
    assert_eq!(response.cluster_info.raft_index, Some(11));

    let body = b"{\"errorCode\":500,\"message\":\"boom\",\"cause\":\"\",\"index\":0}";
    match parse_empty_response(200, &HeaderMap::new(), Bytes::from_static(body), decode_api_error) {
        Err(EtcdError::Api(error)) => assert_eq!(error.message, "boom"),
        _ => panic!("expected EtcdError::Api"),
    }
    match parse_empty_response(200, &HeaderMap::new(), Bytes::new(), decode_api_error) {
        Err(EtcdError::Serialization(_)) => {}
        _ => panic!("expected EtcdError::Serialization"),
    }
}

#[test]
fn endpoint_ends_with_one_slash() {
    let endpoint = Endpoint::parse("http://etcd:2379").unwrap();
    assert_eq!(endpoint.as_str(), "http://etcd:2379");
    let endpoint = Endpoint::parse("http://etcd:2379/").unwrap();
    assert_eq!(endpoint.as_str(), "http://etcd:2379");
    let endpoint = Endpoint::parse("https://etcd.example.com:2379/base/").unwrap();
    assert_eq!(endpoint.as_str(), "https://etcd.example.com:2379/base");
    assert_eq!(build_url(&endpoint, "/v2/keys/foo"), "https://etcd.example.com:2379/base/v2/keys/foo");
}

#[test]
fn endpoint_refuses_what_is_no_uri() {
    match Endpoint::parse("") {
        Err(EtcdError::InvalidUri) => {}
        _ => panic!("expected EtcdError::InvalidUri"),
    }
    match Endpoint::parse("http://etcd:2379/a b") {
        Err(EtcdError::InvalidUri) => {}
        _ => panic!("expected EtcdError::InvalidUri"),
    }
}

#[test]
fn endpoint_refuses_a_uri_that_is_not_absolute() {
    for text in ["etcd:2379", "/v2/keys", "*", "localhost"] {
        match Endpoint::parse(text) {
            Err(EtcdError::InvalidUri) => {}
            _ => panic!("expected EtcdError::InvalidUri"),
        }
    }
    assert!(Client::try_new(&["http://etcd:2379", "etcd:2379"]).is_none());
}

#[test]
fn endpoint_keeps_what_the_uri_holds() {
    let endpoint = Endpoint::parse("https://user@etcd.example.com:2379/base").unwrap();
    assert_eq!(endpoint.as_str(), "https://user@etcd.example.com:2379/base");
    assert_eq!(build_url(&endpoint, "/health"), "https://user@etcd.example.com:2379/base/health");
    let endpoint = Endpoint::parse("HTTP://Etcd:2379").unwrap();
    assert_eq!(build_url(&endpoint, "/version"), "http://Etcd:2379/version");
}

#[test]
fn builder_needs_endpoints_that_are_uris() {
    assert!(ClientBuilder::try_new(&[]).is_none());
    assert!(ClientBuilder::try_new(&["http://etcd:2379", ""]).is_none());
    assert!(ClientBuilder::try_new(&["http://etcd:2379", "http://other:2379"]).is_some());
    assert!(Client::try_new(&[]).is_none());
    assert!(Client::try_new(&["http://etcd:2379"]).is_some());
}

#[test]
fn builder_defaults() {
    let client = ClientBuilder::new(&["http://etcd:2379"]).build();
    assert_eq!(client.endpoint_count(), 1);
    assert_eq!(client.endpoint(0).as_str(), "http://etcd:2379");
    assert_eq!(client.default_authorization(), None);
    assert_eq!(client.connection_timeout(), Duration::from_secs(90));
    assert_eq!(client.connection_timeout(), Duration { secs: 90, nanos: 0 });
}

#[test]
fn builder_with_basic_auth_sets_the_authorization_header() {
    let client = ClientBuilder::new(&["http://etcd:2379"])
        .with_basic_auth("root".to_owned(), "secret".to_owned())
        .build();
    assert_eq!(client.default_authorization(), Some("Basic cm9vdDpzZWNyZXQ="));
    let client = ClientBuilder::new(&["http://etcd:2379"])
        .with_basic_auth("us\u{e9}r".to_owned(), "p@ss word".to_owned())
        .build();
    assert_eq!(client.default_authorization(), Some("Basic dXPDqXI6cEBzcyB3b3Jk"));
}

#[test]
fn builder_with_connect_timeout() {
    let client = ClientBuilder::new(&["http://etcd:2379"])
        .with_connect_timeout(Duration::from_millis(1500))
        .build();
    assert_eq!(client.connection_timeout(), Duration { secs: 1, nanos: 500_000_000 });
}

#[test]
fn duration_from_millis() {
    assert_eq!(Duration::from_millis(1), Duration { secs: 0, nanos: 1_000_000 });
    assert_eq!(Duration::from_millis(999), Duration { secs: 0, nanos: 999_000_000 });
    assert_eq!(Duration::from_millis(1000), Duration { secs: 1, nanos: 0 });
    assert_eq!(Duration::from_millis(u64::MAX), Duration {
        secs: 18446744073709551,
        nanos: 615_000_000
    });
}

#[test]
fn client_keeps_the_configured_order() {
    let client = Client::new(&["http://a:1", "http://b:2/", "http://c:3"]);
    assert_eq!(client.endpoint_count(), 3);
    assert_eq!(client.endpoint(0).as_str(), "http://a:1");
    assert_eq!(client.endpoint(1).as_str(), "http://b:2");
    assert_eq!(client.endpoint(2).as_str(), "http://c:3");
    let copy = client.clone();
    assert_eq!(copy.endpoint_count(), 3);
    assert_eq!(copy.endpoint(2).as_str(), "http://c:3");
}

#[test]
fn request_first_ok_is_a_get_for_one_member_after_another() {
    let client = Client::new(&["http://etcd:2379"]);
    let request = client.request_first_ok("/v2/stats/leader");
    assert_eq!(request.method, Method::Get);
    assert_eq!(request.path, "/v2/stats/leader");
    assert_eq!(request.reply, Reply::Etcd(Accept::OnlyOk));
    assert_eq!(request.dispatch, Dispatch::FirstOk);
    assert!(!request.form_content_type);
    assert_eq!(client.url(0, &request), "http://etcd:2379/v2/stats/leader");
}

#[test]
fn first_error_stands_for_all() {
    let all: Result<(), Vec<EtcdError>> =
        Err(vec![EtcdError::UnexpectedStatus(500), EtcdError::InvalidConditions]);
    match first_error(all) {
        Err(EtcdError::UnexpectedStatus(500)) => {}
        _ => panic!("expected the first error"),
    }
    let fine: Result<u8, Vec<EtcdError>> = Ok(3);
    assert_eq!(first_error(fine).unwrap(), 3);
}

#[test]
fn accept_admits_what_it_names() {
    assert!(Accept::OnlyOk.admits(200));
    assert!(!Accept::OnlyOk.admits(201));
    assert!(!Accept::OnlyOk.admits(204));
    assert!(Accept::OkOrCreated.admits(200));
    assert!(Accept::OkOrCreated.admits(201));
    assert!(!Accept::OkOrCreated.admits(202));
    assert!(!Accept::OkOrCreated.admits(404));
}
