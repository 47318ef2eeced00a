//! The response classification: one scenario per error kind, and the
//! success statuses.

use lettr::config::Config;
use lettr::error::Error;

fn config() -> Config {
    Config::new("test-key")
}

#[test]
fn success_statuses_classify_as_no_error() {
    let c = config();
    assert!(c.classify(200, "{}").is_none());
    assert!(c.classify(204, "").is_none());
    assert!(c.classify(299, "ignored").is_none());
}

#[test]
fn envelope_with_errors_is_a_validation_failure() {
    let c = config();
    let body = "{\"message\":\"Invalid\",\"errors\":{\"to\":[\"is required\"]}}";
    match c.classify(422, body) {
        Some(Error::Validation(v)) => {
            assert_eq!(v.message, "Invalid");
            assert_eq!(v.error_code, None);
            let msgs = v.messages_for("to").expect("field missing");
            assert_eq!(msgs.len(), 1);
            assert_eq!(msgs[0], "is required");
            assert!(v.messages_for("from").is_none());
        },
        other => panic!("unexpected: {:?}", other),
    }
}

#[test]
fn empty_errors_object_is_still_a_validation_failure() {
    let c = config();
    let body = "{\"message\":\"Invalid\",\"errors\":{}}";
    match c.classify(422, body) {
        Some(Error::Validation(v)) => {
            assert_eq!(v.message, "Invalid");
            assert_eq!(v.errors.len(), 0);
        },
        other => panic!("unexpected: {:?}", other),
    }
}

#[test]
fn envelope_without_errors_is_an_api_failure() {
    let c = config();
    let body = "{\"message\":\"Not found\",\"error_code\":\"not_found\"}";
    match c.classify(404, body) {
        Some(Error::Api(a)) => {
            assert_eq!(a.message, "Not found");
            assert_eq!(a.error_code, Some("not_found".to_owned()));
        },
        other => panic!("unexpected: {:?}", other),
    }
}

#[test]
fn null_errors_is_an_api_failure() {
    let c = config();
    let body = "{\"message\":\"Too many requests\",\"errors\":null}";
    match c.classify(429, body) {
        Some(Error::Api(a)) => {
            assert_eq!(a.message, "Too many requests");
            assert_eq!(a.error_code, None);
        },
        other => panic!("unexpected: {:?}", other),
    }
}

#[test]
fn undecodable_body_is_a_parse_failure_keeping_the_text() {
    let c = config();
    match c.classify(500, "<html>oops</html>") {
        Some(Error::Parse(t)) => {
            assert_eq!(t, "HTTP 500: <html>oops</html>");
            assert!(t.contains("500"));
            assert!(t.contains("<html>oops</html>"));
        },
        other => panic!("unexpected: {:?}", other),
    }
}

#[test]
fn envelope_without_message_is_a_parse_failure() {
    let c = config();
    match c.classify(400, "{\"error_code\":\"bad\"}") {
        Some(Error::Parse(t)) => assert_eq!(t, "HTTP 400: {\"error_code\":\"bad\"}"),
        other => panic!("unexpected: {:?}", other),
    }
}

#[test]
fn badly_shaped_errors_field_is_a_parse_failure() {
    let c = config();
    let body = "{\"message\":\"m\",\"errors\":{\"to\":[1]}}";
    assert!(matches!(c.classify(422, body), Some(Error::Parse(_))));
    let body2 = "{\"message\":\"m\",\"errors\":[\"x\"]}";
    assert!(matches!(c.classify(422, body2), Some(Error::Parse(_))));
}

#[test]
fn unknown_envelope_fields_are_ignored() {
    let c = config();
    let body = "{\"message\":\"m\",\"error_code\":null,\"hint\":{\"deep\":[1,2,{}]},\"errors\":{\"a\":[\"x\",\"y\"]}}";
    match c.classify(418, body) {
        Some(Error::Validation(v)) => {
            assert_eq!(v.message, "m");
            assert_eq!(v.error_code, None);
            assert_eq!(v.messages_for("a").unwrap().as_slice(), ["x", "y"]);
        },
        other => panic!("unexpected: {:?}", other),
    }
}

#[test]
fn error_texts_match_their_shapes() {
    let c = config();
    let api = match c.classify(404, "{\"message\":\"Missing\",\"error_code\":\"not_found\"}") {
        Some(e) => e,
        None => panic!("expected an error"),
    };
    assert_eq!(api.to_text(), "api error: [not_found] Missing");
    let api_plain = match c.classify(404, "{\"message\":\"Missing\"}") {
        Some(Error::Api(a)) => a,
        other => panic!("unexpected: {:?}", other),
    };
    assert_eq!(api_plain.to_text(), "Missing");
    let val = match c.classify(422, "{\"message\":\"Invalid\",\"errors\":{\"to\":[\"a\",\"b\"]}}")
    {
        Some(e) => e,
        None => panic!("expected an error"),
    };
    assert_eq!(val.to_text(), "validation error: Invalid\n  to: a\n  to: b");
    let parse = match c.classify(500, "boom") {
        Some(e) => e,
        None => panic!("expected an error"),
    };
    assert_eq!(parse.to_text(), "failed to parse API response: HTTP 500: boom");
    let http = Error::Http("connection refused".to_owned());
    assert_eq!(http.to_text(), "http error: connection refused");
}

#[test]
fn build_attaches_url_and_default_headers() {
    let c = config();
    let r = c.build(lettr::config::Method::Get, "/health");
    assert_eq!(r.url, "https://app.lettr.com/api/health");
    assert_eq!(r.headers.len(), 3);
    assert_eq!(r.headers[0].0, "authorization");
    assert_eq!(r.headers[0].1, "Bearer test-key");
    assert_eq!(r.headers[1].0, "content-type");
    assert_eq!(r.headers[1].1, "application/json");
    assert_eq!(r.headers[2].0, "user-agent");
    assert_eq!(r.headers[2].1, "lettr-rust/0.1.0");
    assert!(r.query.is_empty());
    assert!(r.body.is_none());
    assert_eq!(r.method.to_text(), "GET");
}

#[test]
fn base_url_can_be_overridden() {
    let mut c = config();
    c.set_base_url("http://localhost:8080");
    let r = c.build(lettr::config::Method::Delete, "/domains/example.com");
    assert_eq!(r.url, "http://localhost:8080/domains/example.com");
    assert_eq!(r.method.to_text(), "DELETE");
}
