// Tests of the client core and the request dispatcher: endpoint
// derivation, host changes, credential handling, and the fail-fast rule
// when a required key is absent.

use jsonbank::error::JsbError;
use jsonbank::request::{HttpMethod, HttpRequest, RawResponse};
use jsonbank::{InitConfig, JsonBank, Keys, DEFAULT_HOST, JSONBANK, JSONBANK_IO};

fn client_with_keys() -> JsonBank {
    JsonBank::new(InitConfig {
        host: Some("https://api.example.test".to_string()),
        keys: Some(Keys {
            public: Some("pub-key-value".to_string()),
            private: Some("prv-key-value".to_string()),
        }),
    })
}

// A spy transport: records every request it is asked to send.
struct SpyTransport {
    sent: Vec<HttpRequest>,
}

impl SpyTransport {
    fn new() -> SpyTransport {
        SpyTransport { sent: Vec::new() }
    }

    fn send(&mut self, req: HttpRequest) -> RawResponse {
        self.sent.push(req);
        RawResponse {
            status: 200,
            status_text: "200 OK".to_string(),
            body: "{}".to_string(),
        }
    }
}

#[test]
fn constants_hold_the_known_words() {
    assert_eq!(JSONBANK, "jsonbank");
    assert_eq!(JSONBANK_IO, "jsonbankio");
    assert_eq!(DEFAULT_HOST, "https://api.jsonbank.io");
}

#[test]
fn new_without_config_uses_default_host() {
    let jsb = JsonBank::new_without_config();
    assert_eq!(jsb.config.host, DEFAULT_HOST);
    assert_eq!(
        jsb.public_url(vec!["f", "x"]),
        "https://api.jsonbank.io/f/x"
    );
    assert_eq!(
        jsb.v1_url(vec!["file", "x"]),
        "https://api.jsonbank.io/v1/file/x"
    );
}

#[test]
fn set_host_recomputes_endpoints_at_once() {
    let mut jsb = JsonBank::new_without_config();
    jsb.set_host("https://one.example.test");
    assert_eq!(jsb.config.host, "https://one.example.test");
    assert_eq!(jsb.public_url(vec!["a"]), "https://one.example.test/a");
    assert_eq!(jsb.v1_url(vec!["a"]), "https://one.example.test/v1/a");

    // a second change is reflected immediately as well: no stale state
    jsb.set_host("https://two.example.test");
    assert_eq!(jsb.public_url(vec!["a"]), "https://two.example.test/a");
    assert_eq!(jsb.v1_url(vec!["a"]), "https://two.example.test/v1/a");
}

#[test]
fn has_key_and_get_key_answer_by_kind() {
    let jsb = client_with_keys();
    assert!(jsb.has_key("public"));
    assert!(jsb.has_key("private"));
    assert!(!jsb.has_key("other"));
    assert_eq!(jsb.get_key("public"), "pub-key-value");
    assert_eq!(jsb.get_key("private"), "prv-key-value");
    assert_eq!(jsb.get_key("other"), "");

    let bare = JsonBank::new_without_config();
    assert!(!bare.has_key("public"));
    assert!(!bare.has_key("private"));
    assert_eq!(bare.get_key("public"), "");
}

#[test]
fn dispatch_without_public_key_fails_fast() {
    let jsb = JsonBank::new_without_config();
    let mut spy = SpyTransport::new();

    let r = jsb.dispatch(
        HttpMethod::Get,
        jsb.v1_url(vec!["authenticate"]),
        None,
        true,
        false,
    );
    let err: JsbError = match r {
        Ok(req) => {
            // would have been sent; the test must not reach this
            spy.send(req);
            panic!("expected an error before any transport call");
        }
        Err(e) => e,
    };
    assert_eq!(err.code, "bad_request");
    assert_eq!(err.message, "Public key is not set");
    // the transport collaborator was never called
    assert_eq!(spy.sent.len(), 0);
}

#[test]
fn dispatch_without_private_key_fails_fast() {
    let jsb = JsonBank::new(InitConfig {
        host: None,
        keys: Some(Keys {
            public: Some("pub-key-value".to_string()),
            private: None,
        }),
    });
    let r = jsb.dispatch(HttpMethod::Post, jsb.v1_url(vec!["x"]), None, false, true);
    let err = r.err().expect("expected an error");
    assert_eq!(err.code, "bad_request");
    assert_eq!(err.message, "Private key is not set");
}

#[test]
fn dispatch_attaches_headers_in_order() {
    let jsb = client_with_keys();
    let req = jsb
        .dispatch(HttpMethod::Post, jsb.v1_url(vec!["x"]), None, true, true)
        .expect("both keys are configured");
    assert_eq!(req.method, HttpMethod::Post);
    assert_eq!(req.url, "https://api.example.test/v1/x");
    assert_eq!(
        req.headers,
        vec![
            ("Content-Type".to_string(), "application/json".to_string()),
            ("jsb-pub-key".to_string(), "pub-key-value".to_string()),
            ("jsb-prv-key".to_string(), "prv-key-value".to_string()),
        ]
    );
}

#[test]
fn dispatch_get_serializes_body_as_query() {
    let jsb = client_with_keys();
    let body = vec![("stats".to_string(), "true".to_string())];
    let req = jsb
        .dispatch(
            HttpMethod::Get,
            jsb.v1_url(vec!["folder", "a"]),
            Some(body),
            true,
            false,
        )
        .expect("public key is configured");
    assert_eq!(req.query, vec![("stats".to_string(), "true".to_string())]);
    assert_eq!(req.body, None);
}

#[test]
fn dispatch_post_encodes_body_and_delete_sends_none() {
    let jsb = client_with_keys();
    let body = vec![("name".to_string(), "a".to_string())];
    let req = jsb
        .dispatch(
            HttpMethod::Post,
            jsb.v1_url(vec!["x"]),
            Some(body),
            false,
            true,
        )
        .expect("private key is configured");
    assert_eq!(req.body.as_deref(), Some("{\"name\":\"a\"}"));
    assert!(req.query.is_empty());

    let req = jsb
        .dispatch(HttpMethod::Post, jsb.v1_url(vec!["x"]), None, false, true)
        .expect("private key is configured");
    assert_eq!(req.body.as_deref(), Some("{}"));

    let req = jsb
        .dispatch(
            HttpMethod::Delete,
            jsb.v1_url(vec!["x"]),
            Some(vec![("k".to_string(), "v".to_string())]),
            false,
            true,
        )
        .expect("private key is configured");
    assert_eq!(req.body, None);
    assert!(req.query.is_empty());
}

#[test]
fn transport_error_takes_the_default_code() {
    let e = jsonbank::error::transport_error("connection refused".to_string());
    assert_eq!(e.code, "500");
    assert_eq!(e.message, "connection refused");
}

#[test]
fn err_invalid_json_is_the_fixed_error() {
    let e = jsonbank::error::err_invalid_json();
    assert_eq!(e.code, "invalid_json_content");
    assert_eq!(e.message, "Content is not a valid JSON string");
}
