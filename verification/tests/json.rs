use hidmaestro::json::Json;
use hidmaestro::Error;

#[test]
fn documents_are_read_and_written() {
    let text = r#"{"a":[1,-2,0.5,null,true,"x\n"],"b":{}}"#;
    let json = Json::parse(text).unwrap();
    assert_eq!(json.to_text(), text);
    assert_eq!(json.clone(), json);
    assert_eq!(
        Json::parse("{\"k\":[]}").unwrap().to_pretty(),
        "{\n  \"k\": []\n}"
    );
}

#[test]
fn the_last_of_a_repeated_key_counts() {
    let json = Json::parse(r#"{"k":1,"k":2}"#).unwrap();
    assert_eq!(json.get("k").and_then(|v| v.as_u64()), Some(2));
    let twice = Json::Object(vec![
        ("k".to_string(), Json::Bool(false)),
        ("k".to_string(), Json::Bool(true)),
    ]);
    assert_eq!(twice.get("k"), Some(&Json::Bool(true)));
    assert_eq!(twice.to_text(), r#"{"k":true}"#);
}

#[test]
fn errors_carry_the_words_of_the_parser() {
    let expected = serde_json::from_str::<serde_json::Value>("{")
        .unwrap_err()
        .to_string();
    assert_eq!(Json::parse("{"), Err(expected));
}

#[test]
fn parts_are_told_apart() {
    let number = Json::parse("3").unwrap();
    assert_eq!(number.as_u64(), Some(3));
    assert_eq!(number.as_double_bits(), Some(3.0f64.to_bits()));
    assert_eq!(number.as_str(), None);
    assert_eq!(Json::parse("-3").unwrap().as_u64(), None);
    assert_eq!(Json::parse("3.0").unwrap().as_u64(), None);
    assert_eq!(Json::integer(-32601).to_text(), "-32601");
    assert_eq!(Json::text("s").as_str(), Some("s"));
    assert_eq!(Json::Bool(true).as_bool(), Some(true));
    assert_eq!(Json::Null.as_bool(), None);
    assert!(Json::Null.is_null());
    assert!(!Json::text("").is_null());
    assert_eq!(Json::single("k", Json::Null).get("k"), Some(&Json::Null));
    assert_eq!(Json::single("k", Json::Null).get("j"), None);
    assert_eq!(Json::text("k").get("k"), None);
}

#[test]
fn a_document_is_written_on_one_line() {
    let document = Json::single("a\nb", Json::text("c\nd\r\u{2028}"));
    assert_eq!(document.to_text(), "{\"a\\nb\":\"c\\nd\\r\u{2028}\"}");
    assert!(!document.to_text().contains('\n'));
}

#[test]
fn values_go_both_ways() {
    let value: serde_json::Value =
        serde_json::from_str(r#"{"z":1,"a":[true,{"q":"w"}]}"#).unwrap();
    let json = Json::from_value(value.clone());
    assert_eq!(json.to_value(), value);
}

#[test]
fn errors_in_words() {
    let text = |s: &str| s.to_string();
    for (error, words) in [
        (
            Error::BridgeNotFound(text("hint")),
            "bridge executable not found: hint",
        ),
        (
            Error::Spawn {
                program: text("p"),
                source: text("s"),
            },
            "failed to spawn bridge process `p`: s",
        ),
        (
            Error::InvalidPipeName {
                name: text("n"),
                reason: "r",
            },
            "invalid HIDMaestro pipe name `n`: r",
        ),
        (
            Error::PipeUnsupported,
            "named-pipe bridge mode is only supported on Windows; remove HIDMAESTRO_PIPE_NAME or use stdio bridge spawning",
        ),
        (
            Error::PipeConnect {
                name: text("n"),
                source: text("s"),
            },
            "failed to connect to HIDMaestro named pipe `n`: s",
        ),
        (Error::Io(text("s")), "bridge I/O error: s"),
        (
            Error::Protocol(text("s")),
            "bridge returned malformed JSON: s",
        ),
        (Error::Remote(text("m")), "bridge error: m"),
        (
            Error::BridgeExited(text(" (status 1)")),
            "bridge exited unexpectedly (status 1)",
        ),
        (
            Error::UnknownButton(text("b")),
            "unknown button name: b",
        ),
        (Error::UnknownAxis(text("a")), "unknown axis name: a"),
        (Error::UnknownHat(text("h")), "unknown hat direction: h"),
        (
            Error::NoSuchController(text("k")),
            "no such controller: k",
        ),
        (Error::Timeout, "timeout waiting for bridge response"),
    ] {
        assert_eq!(error.message(), words);
    }
    assert_eq!(
        hidmaestro::error::bridge_write_error(true, text("gone")),
        Error::BridgeExited(String::new())
    );
    assert_eq!(
        hidmaestro::error::bridge_write_error(false, text("full")),
        Error::Io(text("full"))
    );
}
