use holdcrypt::res::{frame, Res};
use serde_json::Value;
use std::collections::HashMap;

fn object(pairs: &[(&str, &str)]) -> Value {
    let mut map = serde_json::Map::new();
    for (key, value) in pairs {
        map.insert(key.to_string(), Value::String(value.to_string()));
    }
    Value::Object(map)
}

#[test]
fn response_ok() {
    let res = Res::ok("test message response").into_response();

    let expected = object(&[("message", "test message response")]);

    assert_eq!(res.status, 200);
    assert_eq!(res.body, serde_json::to_string(&expected).unwrap());
}

#[test]
fn ok_with_body() {
    let body = object(&[("name", "test"), ("type", "ok_body")]);
    let body_serialized = serde_json::to_string(&body).expect("failed to parse json body");

    let res = Res::ok_body(&body_serialized).into_response();

    assert_eq!(res.status, 200);
    assert_eq!(res.body, serde_json::to_string(&body).unwrap());
}

#[test]
fn parse_body_error() {
    let invalid_json = "name: bill";

    // Will only parse if it errors and runs the assertions below
    let person: HashMap<String, String> = match serde_json::from_str(invalid_json) {
        Ok(v) => v,
        Err(error) => {
            let res = Res::parse_body_error(error);
            assert_eq!(res.status(), 400);
            assert_eq!(res.message(), "failed to parse json body");
            assert_eq!(res.error(), "expected ident at line 1 column 2");
            HashMap::from([("name".to_string(), "error worked".to_string())])
        }
    };
    assert_eq!(person["name"], "error worked".to_string());
}

#[test]
fn bad_request() {
    let res = Res::bad_request("testing a bad request").into_response();
    assert_eq!(
        res.body,
        serde_json::to_string(&object(&[("message", "testing a bad request")])).unwrap()
    )
}

#[test]
fn parse_response_error() {
    let error = reqwest::get("fakeurl")
        .err()
        .expect("failed to generate error");
    let res = Res::parse_response_error("testing a reqwest error", error);
    assert_eq!(res.message(), "testing a reqwest error");
    assert_eq!(res.error(), "relative URL without a base");

    let response = res.into_response();
    assert_eq!(response.status, 500);
}

#[test]
fn internal_server_error() {
    let error = std::io::Error::new(std::io::ErrorKind::Other, "test internal error");
    let res = Res::internal_server_error(
        "testing an arbitrary internal server error",
        &error.to_string(),
    );
    assert_eq!(res.message(), "testing an arbitrary internal server error");
    assert_eq!(res.error(), "test internal error");

    let response = res.into_response();
    assert_eq!(response.status, 500);
}

#[test]
fn failure_is_sent_with_message_and_error() {
    let res = Res::internal_server_error("it \"broke\"", "line one\nline two");
    assert!(res.is_failure());
    let response = res.into_response();
    assert!(response.failed);
    assert_eq!(
        response.body,
        "{\"message\":\"it \\\"broke\\\"\",\"error\":\"line one\\nline two\"}"
    );
    let parsed: Value = serde_json::from_str(&response.body).unwrap();
    assert_eq!(parsed["message"], "it \"broke\"");
    assert_eq!(parsed["error"], "line one\nline two");
}

#[test]
fn success_is_not_a_failure() {
    let res = Res::ok("fine");
    assert!(!res.is_failure());
    assert_eq!(res.status(), 200);
    assert_eq!(res.error(), "");
    assert_eq!(res.body(), "");
    assert!(!res.into_response().failed);
}

#[test]
fn default_answer_is_empty() {
    let res = Res::default();
    assert_eq!(res.status(), 0);
    assert_eq!(res.message(), "");
    assert_eq!(res.response_body(), "{\"message\":\"\"}");
}

#[test]
fn frame_puts_the_parts_into_one_object() {
    assert_eq!(frame("\"m\"", None), "{\"message\":\"m\"}");
    assert_eq!(frame("\"m\"", Some("\"e\"")), "{\"message\":\"m\",\"error\":\"e\"}");
}

#[test]
fn every_answer_carries_the_headers() {
    let response = Res::ok("x").into_response();
    assert_eq!(
        response.headers,
        vec![
            ("Access-Control-Allow-Origin".to_string(), "https://holdcrypt.com".to_string()),
            ("Access-Control-Allow-Methods".to_string(), "*".to_string()),
            ("Access-Control-Allow-Headers".to_string(), "*".to_string()),
        ]
    );
}

#[test]
fn json_escapes_are_the_quote_the_backslash_and_the_controls() {
    let res = Res::ok("a\"b\\c\u{8}\t\n\u{c}\r\u{1}\u{1f}\u{7f} \u{e9}/");
    assert_eq!(
        res.response_body(),
        "{\"message\":\"a\\\"b\\\\c\\b\\t\\n\\f\\r\\u0001\\u001f\u{7f} \u{e9}/\"}"
    );
    for code in 0u32..0x20 {
        let c = char::from_u32(code).unwrap();
        let body = Res::ok(&c.to_string()).response_body();
        let expected = match c {
            '\u{8}' => "\\b".to_string(),
            '\t' => "\\t".to_string(),
            '\n' => "\\n".to_string(),
            '\u{c}' => "\\f".to_string(),
            '\r' => "\\r".to_string(),
            _ => format!("\\u00{:x}{:x}", code / 16, code % 16),
        };
        assert_eq!(body, format!("{{\"message\":\"{}\"}}", expected));
    }
}
