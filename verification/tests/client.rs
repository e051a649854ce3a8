use jirac::errors::{classify, Verdict};
use jirac::v2::Pagination;
use jirac::{Client, Credentials, Error, Errors, Headers, Method, Options, Query, Reply};
use std::collections::BTreeMap;

fn query_of(pairs: &[(&str, &str)]) -> Query {
    let mut query = Query::new();
    for (key, value) in pairs {
        query.insert(key.to_string(), value.to_string());
    }
    query
}

fn client() -> Client {
    let creds = Credentials::new_basic("test".to_string(), "test".to_string()).unwrap();
    Client::new("http://localhost:8080".to_string(), creds)
}

struct Fixed(Vec<(&'static str, &'static str)>);

impl Options for Fixed {
    fn to_query(&self) -> Query {
        query_of(&self.0)
    }
}

#[test]
fn test_hashmap_to_query() {
    let mut query = Query::new();
    query.insert(String::from("q"), String::from("true"));
    query.insert(String::from("h"), String::from("other-text"));

    let unpacked = Client::unpack_query(&query);

    assert!(&unpacked.contains("q=true"));
    assert!(&unpacked.contains("h=other-text"));
}

#[test]
fn test_empty_hashmap_empty_query() {
    let query = Query::new();
    assert_eq!(Client::unpack_query(&query), "");
}

#[test]
fn query_string_lists_entries_in_order() {
    let query = query_of(&[("q", "true"), ("h", "other-text")]);
    assert_eq!(Client::unpack_query(&query), "?q=true&h=other-text");
}

#[test]
fn query_string_of_one_entry_has_no_separator() {
    let query = query_of(&[("k", "v")]);
    let unpacked = Client::unpack_query(&query);
    assert_eq!(unpacked, "?k=v");
    assert!(!unpacked.ends_with('&'));
    assert!(unpacked.starts_with('?'));
    assert!(!unpacked[1..].starts_with('?'));
}

#[test]
fn query_string_keeps_empty_keys_and_values() {
    let query = query_of(&[("", "v"), ("k", "")]);
    assert_eq!(Client::unpack_query(&query), "?=v&k=");
}

#[test]
fn query_string_of_three_entries() {
    let query = query_of(&[("a", "1"), ("b", "2"), ("c", "3")]);
    assert_eq!(Client::unpack_query(&query), "?a=1&b=2&c=3");
}

#[test]
fn query_string_is_never_a_bare_question_mark() {
    assert_ne!(Client::unpack_query(&Query::new()), "?");
    assert_ne!(Client::unpack_query(&query_of(&[("", "")])), "?");
    assert_eq!(Client::unpack_query(&query_of(&[("", "")])), "?=");
}

#[test]
fn merging_options_lets_the_later_win() {
    let first = Fixed(vec![("a", "1")]);
    let second = Fixed(vec![("a", "2")]);
    let merged = Client::unpack_options(vec![&first, &second]);
    assert_eq!(merged.len(), 1);
    assert_eq!(merged.get("a").unwrap(), "2");
}

#[test]
fn merging_options_keeps_what_only_one_gives() {
    let first = Fixed(vec![("a", "1"), ("b", "x")]);
    let second = Fixed(vec![("c", "y"), ("a", "2")]);
    let third = Fixed(vec![("b", "z")]);
    let merged = Client::unpack_options(vec![&first, &second, &third]);
    assert_eq!(merged.len(), 3);
    assert_eq!(merged.get("a").unwrap(), "2");
    assert_eq!(merged.get("b").unwrap(), "z");
    assert_eq!(merged.get("c").unwrap(), "y");
    assert_eq!(Client::unpack_query(&merged), "?a=2&b=z&c=y");
}

#[test]
fn merging_no_option_gives_the_empty_query() {
    let merged = Client::unpack_options(vec![]);
    assert!(merged.is_empty());
    assert_eq!(Client::unpack_query(&merged), "");
}

#[test]
fn merging_real_options() {
    let page = Pagination::new(10, 20);
    let extra = Fixed(vec![("maxResults", "5")]);
    let merged = Client::unpack_options(vec![&page, &extra]);
    assert_eq!(Client::unpack_query(&merged), "?startAt=10&maxResults=5");
}

#[test]
fn new_client_has_no_defaults() {
    let c = client();
    assert_eq!(c.host, "http://localhost:8080");
    assert!(c.headers.is_empty());
    assert!(c.query.is_empty());
    assert!(matches!(c.credentials, Credentials::Basic(ref u, ref p) if u == "test" && p == "test"));
}

#[test]
fn add_header_sets_and_replaces() {
    let mut c = client();
    c.add_header("If-Match", "one".to_string());
    c.add_header("X-Other", "two".to_string());
    c.add_header("if-match", "three".to_string());
    assert_eq!(c.headers.len(), 2);
    assert_eq!(c.headers.get("If-Match").unwrap(), "three");
    assert_eq!(c.headers.get("x-other").unwrap(), "two");
    assert_eq!(c.host, "http://localhost:8080");
    assert!(c.query.is_empty());
}

#[test]
fn add_headers_lets_the_new_fields_win() {
    let mut c = client();
    c.add_header("Accept", "text/plain".to_string());
    c.add_header("X-Keep", "kept".to_string());
    let mut more = Headers::new();
    more.insert("accept", "application/json".to_string());
    more.insert("X-New", "new".to_string());
    c.add_headers(&more);
    assert_eq!(c.headers.len(), 3);
    assert_eq!(c.headers.get("accept").unwrap(), "application/json");
    assert_eq!(c.headers.get("x-keep").unwrap(), "kept");
    assert_eq!(c.headers.get("x-new").unwrap(), "new");
}

#[test]
fn add_query_lets_the_new_entries_win() {
    let c = client().add_query(query_of(&[("a", "1"), ("b", "2")]));
    let c = c.add_query(query_of(&[("b", "3"), ("c", "4")]));
    assert_eq!(Client::unpack_query(&c.query), "?a=1&b=3&c=4");
    assert_eq!(c.host, "http://localhost:8080");
}

#[test]
fn cloned_client_sends_the_same() {
    let mut c = client().add_query(query_of(&[("a", "1")]));
    c.add_header("X-One", "1".to_string());
    let d = c.clone();
    assert_eq!(d.host, c.host);
    assert_eq!(Client::unpack_query(&d.query), "?a=1");
    assert_eq!(d.headers.get("x-one").unwrap(), "1");
    let left = c.get("api/2/x");
    let right = d.get("api/2/x");
    assert_eq!(left.url, right.url);
}

#[test]
fn request_is_addressed_to_host_root_endpoint_and_query() {
    let c = client().add_query(query_of(&[("q", "true"), ("h", "other-text")]));
    let r = c.request(Method::Get, "api/2/issue/X-1", None);
    assert_eq!(r.url, "http://localhost:8080/rest/api/2/issue/X-1?q=true&h=other-text");
    assert_eq!(r.method, Method::Get);
    assert!(r.body.is_none());
}

#[test]
fn request_without_query_has_no_question_mark() {
    let r = client().get("api/2/version/1");
    assert_eq!(r.url, "http://localhost:8080/rest/api/2/version/1");
}

#[test]
fn request_forces_the_content_type() {
    let mut c = client();
    c.add_header("Content-Type", "text/plain".to_string());
    c.add_header("If-Match", "abc".to_string());
    let r = c.get("api/2/x");
    assert_eq!(r.headers.len(), 2);
    assert_eq!(r.headers.get("content-type").unwrap(), "application/json");
    assert_eq!(r.headers.get("if-match").unwrap(), "abc");
    assert_eq!(c.headers.get("content-type").unwrap(), "text/plain");
}

#[test]
fn request_adds_the_content_type_where_there_is_none() {
    let r = client().get("api/2/x");
    assert_eq!(r.headers.len(), 1);
    let (name, value) = r.headers.get_index(0).unwrap();
    assert_eq!(name, "content-type");
    assert_eq!(value, "application/json");
}

#[test]
fn request_carries_the_credentials() {
    let r = client().get("api/2/x");
    assert!(matches!(r.credentials, Credentials::Basic(ref u, ref p) if u == "test" && p == "test"));
    let token = Credentials::new_oauth("tok".to_string()).unwrap();
    let r = Client::new("h".to_string(), token).get("x");
    assert!(matches!(r.credentials, Credentials::OAuth(ref t) if t == "tok"));
}

#[test]
fn put_and_post_carry_the_body() {
    let c = client();
    let put = c.put("api/2/a", b"{\"a\":1}".to_vec());
    assert_eq!(put.method, Method::Put);
    assert_eq!(put.body.unwrap(), b"{\"a\":1}".to_vec());
    assert_eq!(put.url, "http://localhost:8080/rest/api/2/a");
    let post = c.post("api/2/b", b"[]".to_vec());
    assert_eq!(post.method, Method::Post);
    assert_eq!(post.body.unwrap(), b"[]".to_vec());
    assert_eq!(post.url, "http://localhost:8080/rest/api/2/b");
    let get = c.get("api/2/c");
    assert_eq!(get.method, Method::Get);
    assert!(get.body.is_none());
}

#[test]
fn unauthorized_whatever_the_body() {
    for body in ["", "null", "{\"errorMessages\":[],\"errors\":{}}", "}{ not json", "\u{0}"] {
        match Client::receive(401, body.to_string()) {
            Reply::Failed(Error::Unauthorized) => {}
            other => panic!("unexpected reply {:?}", other),
        }
    }
}

#[test]
fn named_statuses_have_their_variants() {
    assert!(matches!(Client::receive(403, "x".to_string()), Reply::Failed(Error::Forbidden)));
    assert!(matches!(Client::receive(404, "x".to_string()), Reply::Failed(Error::NotFound)));
    assert!(matches!(
        Client::receive(405, "x".to_string()),
        Reply::Failed(Error::MethodNotAllowed)
    ));
    assert!(matches!(
        Client::receive(412, "x".to_string()),
        Reply::Failed(Error::PreconditionFailed)
    ));
    assert!(matches!(Client::receive(401, "x".to_string()), Reply::Failed(Error::Unauthorized)));
}

#[test]
fn other_client_errors_are_faults_with_the_raw_body() {
    for status in [400u16, 402, 406, 409, 411, 413, 422, 429, 499] {
        match Client::receive(status, "raw body".to_string()) {
            Reply::Fault { code, document } => {
                assert_eq!(code, status);
                assert_eq!(document, "raw body");
            }
            other => panic!("unexpected reply {:?}", other),
        }
    }
    match Client::receive(400, String::new()) {
        Reply::Fault { code, document } => {
            assert_eq!(code, 400);
            assert_eq!(document, "");
        }
        other => panic!("unexpected reply {:?}", other),
    }
}

#[test]
fn every_other_status_is_a_success() {
    for status in [0u16, 100, 200, 201, 204, 301, 302, 399, 500, 502, 503, 599, 600, 65535] {
        match Client::receive(status, "{\"a\":1}".to_string()) {
            Reply::Success { document } => assert_eq!(document, "{\"a\":1}"),
            other => panic!("unexpected reply {:?}", other),
        }
    }
}

#[test]
fn empty_success_body_decodes_as_null() {
    match Client::receive(200, String::new()) {
        Reply::Success { document } => {
            assert_eq!(document, "null");
            let decoded: Option<Vec<String>> = serde_json::from_str(&document).unwrap();
            assert!(decoded.is_none());
            let delivered =
                Client::deliver(Ok::<Option<Vec<String>>, String>(decoded), Headers::new())
                    .unwrap();
            assert!(delivered.data.is_none());
        }
        other => panic!("unexpected reply {:?}", other),
    }
}

#[test]
fn normalize_keeps_what_is_not_empty() {
    assert_eq!(jirac::client::normalize(String::new()), "null");
    assert_eq!(jirac::client::normalize(" ".to_string()), " ");
    assert_eq!(jirac::client::normalize("null".to_string()), "null");
    assert_eq!(jirac::client::normalize("{}".to_string()), "{}");
}

#[test]
fn fault_carries_code_and_document() {
    let body = "{\"errorMessages\":[\"x\"],\"errors\":{\"field\":\"bad\"}}";
    let (code, document) = match Client::receive(400, body.to_string()) {
        Reply::Fault { code, document } => (code, document),
        other => panic!("unexpected reply {:?}", other),
    };
    let value: serde_json::Value = serde_json::from_str(&document).unwrap();
    let error_messages: Vec<String> = value["errorMessages"]
        .as_array()
        .unwrap()
        .iter()
        .map(|m| m.as_str().unwrap().to_string())
        .collect();
    let errors: BTreeMap<String, String> = value["errors"]
        .as_object()
        .unwrap()
        .iter()
        .map(|(k, v)| (k.clone(), v.as_str().unwrap().to_string()))
        .collect();
    match Error::fault(code, Ok(Errors { error_messages, errors })) {
        Error::Fault { code, errors } => {
            assert_eq!(code, 400);
            assert_eq!(errors.error_messages, vec!["x".to_string()]);
            assert_eq!(errors.errors.len(), 1);
            assert_eq!(errors.errors.get("field").unwrap(), "bad");
        }
        other => panic!("unexpected error {:?}", other),
    }
}

#[test]
fn fault_with_an_unreadable_document_is_a_serialization_error() {
    let error = Error::fault(400, Err("expected value at line 1 column 1".to_string()));
    assert_eq!(error, Error::Serde("expected value at line 1 column 1".to_string()));
}

#[test]
fn deliver_wraps_payload_and_headers() {
    let mut headers = Headers::new();
    headers.insert("If-Match", "test".to_string());
    let resp = Client::deliver(Ok::<u32, String>(7), headers).unwrap();
    assert_eq!(resp.data, 7);
    assert_eq!(resp.headers.get("If-Match").unwrap(), "test");
}

#[test]
fn deliver_surfaces_a_decoding_failure() {
    let result = Client::deliver(Err::<u32, String>("bad".to_string()), Headers::new());
    match result {
        Err(Error::Serde(message)) => assert_eq!(message, "bad"),
        _ => panic!("a decoding failure must surface"),
    }
}

#[test]
fn classify_gives_one_verdict_per_status() {
    assert!(matches!(classify(401), Verdict::Reject(Error::Unauthorized)));
    assert!(matches!(classify(403), Verdict::Reject(Error::Forbidden)));
    assert!(matches!(classify(404), Verdict::Reject(Error::NotFound)));
    assert!(matches!(classify(405), Verdict::Reject(Error::MethodNotAllowed)));
    assert!(matches!(classify(412), Verdict::Reject(Error::PreconditionFailed)));
    assert!(matches!(classify(400), Verdict::Fault));
    assert!(matches!(classify(499), Verdict::Fault));
    assert!(matches!(classify(399), Verdict::Accept));
    assert!(matches!(classify(500), Verdict::Accept));
    assert!(matches!(classify(200), Verdict::Accept));
}

#[test]
fn body_surfaces_a_failure_to_encode() {
    assert_eq!(Client::body(Ok(b"{}".to_vec())), Ok(b"{}".to_vec()));
    assert_eq!(Client::body(Ok(Vec::new())), Ok(Vec::new()));
    assert_eq!(
        Client::body(Err("key must be a string".to_string())),
        Err(Error::Serde("key must be a string".to_string()))
    );
}

#[test]
fn merging_options_goes_by_position() {
    let one = Fixed(vec![("a", "1")]);
    let two = Fixed(vec![("a", "2")]);
    let merged = Client::unpack_options(vec![&two, &one]);
    assert_eq!(merged.len(), 1);
    assert_eq!(merged.get("a").unwrap(), "1");
}

#[test]
fn merging_the_default_options_of_a_group_listing() {
    let opts = jirac::v2::GroupOptions::default();
    let page = Pagination::default();
    let merged = Client::unpack_options(vec![&opts, &page]);
    assert_eq!(merged.len(), 3);
    assert_eq!(merged.get("includeInactiveUsers").unwrap(), "false");
    assert_eq!(merged.get("startAt").unwrap(), "0");
    assert_eq!(merged.get("maxResults").unwrap(), "50");
    assert_eq!(
        Client::unpack_query(&merged),
        "?includeInactiveUsers=false&startAt=0&maxResults=50"
    );
}

#[test]
fn merging_pages_lets_the_later_page_win() {
    let first = Pagination::new(1, 2);
    let second = Pagination::new(3, 4);
    let merged = Client::unpack_options(vec![&first, &second]);
    assert_eq!(Client::unpack_query(&merged), "?startAt=3&maxResults=4");
    let merged = Client::unpack_options(vec![&second, &first]);
    assert_eq!(Client::unpack_query(&merged), "?startAt=1&maxResults=2");
}
