use context0::codec::{encode_message, read_message_body};
use context0::framing::{frame_message, header_start, header_step, FrameError, HeaderStep};
use context0::json::{JsonNumber, JsonValue};

fn feed(lines: &[Option<&str>]) -> HeaderStep {
    let mut state = header_start();
    for line in lines {
        match header_step(state, *line) {
            HeaderStep::Continue(next) => state = next,
            other => return other,
        }
    }
    HeaderStep::Continue(state)
}

#[test]
fn header_block_gives_body_length() {
    assert!(matches!(feed(&[Some("Content-Length: 42\r\n"), Some("\r\n")]), HeaderStep::Body(42)));
    assert!(matches!(
        feed(&[Some("content-length:7\n"), Some("X-Other: y\n"), Some("\n")]),
        HeaderStep::Body(7)
    ));
    assert!(matches!(feed(&[Some("CONTENT-LENGTH: +9 \r\n"), Some("\r\n")]), HeaderStep::Body(9)));
}

#[test]
fn header_errors_are_reported() {
    assert!(matches!(feed(&[None]), HeaderStep::EndOfInput));
    match feed(&[Some("Content-Length: 4\r\n"), None]) {
        HeaderStep::Fail(e) => {
            assert!(matches!(e, FrameError::UnexpectedEof));
            assert_eq!(e.message(), "unexpected EOF while reading MCP headers");
        },
        _ => panic!("expected an EOF error"),
    }
    match feed(&[Some("Content-Length: abc\r\n")]) {
        HeaderStep::Fail(e) => assert_eq!(e.message(), "invalid Content-Length header: abc"),
        _ => panic!("expected an invalid length"),
    }
    match feed(&[Some("Content-Length: -1\r\n")]) {
        HeaderStep::Fail(FrameError::InvalidContentLength(v)) => assert_eq!(v, "-1"),
        _ => panic!("expected an invalid length"),
    }
    match feed(&[Some("Content-Length: 99999999999999999999999\r\n")]) {
        HeaderStep::Fail(FrameError::InvalidContentLength(_)) => {},
        _ => panic!("expected an overflowing length to be refused"),
    }
    match feed(&[Some("X: 1\r\n"), Some("\r\n")]) {
        HeaderStep::Fail(e) => assert_eq!(e.message(), "missing Content-Length header"),
        _ => panic!("expected a missing length"),
    }
}

#[test]
fn framed_message_reads_back() {
    let body = b"{\"jsonrpc\":\"2.0\"}".to_vec();
    let framed = frame_message(&body);
    let expected = format!("Content-Length: {}\r\n\r\n{{\"jsonrpc\":\"2.0\"}}", body.len());
    assert_eq!(framed, expected.into_bytes());
    let text = String::from_utf8(framed.clone()).expect("utf8");
    let mut lines: Vec<&str> = text.split_inclusive('\n').collect();
    lines.truncate(2);
    let steps: Vec<Option<&str>> = lines.into_iter().map(Some).collect();
    match feed(&steps) {
        HeaderStep::Body(n) => {
            assert_eq!(n, body.len());
            assert_eq!(&framed[framed.len() - n..], &body[..]);
        },
        _ => panic!("expected the body length"),
    }
    assert_eq!(frame_message(&[]), b"Content-Length: 0\r\n\r\n".to_vec());
}

#[test]
fn message_body_decodes_into_the_model() {
    let doc = read_message_body(b"{\"id\": 3, \"n\": -2, \"f\": 1.5, \"s\": \"x\", \"a\": [true, null]}")
        .ok()
        .expect("valid JSON");
    match doc {
        JsonValue::Object(m) => {
            assert_eq!(m.len(), 5);
            let find = |k: &str| m.iter().find(|(key, _)| key == k).map(|(_, v)| v).expect("member");
            assert!(matches!(find("id"), JsonValue::Number(JsonNumber::PosInt(3))));
            assert!(matches!(find("n"), JsonValue::Number(JsonNumber::NegInt(-2))));
            assert!(matches!(find("f"), JsonValue::Number(JsonNumber::Float(t)) if t == "1.5"));
            assert!(matches!(find("s"), JsonValue::Str(t) if t == "x"));
            assert!(matches!(find("a"), JsonValue::Array(items) if items.len() == 2));
        },
        _ => panic!("expected an object"),
    }
    let err = read_message_body(b"{not json").err().expect("invalid JSON");
    assert!(matches!(err, FrameError::InvalidJson(_)));
    assert!(err.message().starts_with("invalid MCP JSON payload: "));
}

#[test]
fn encoded_message_is_framed_compact_json() {
    let doc = JsonValue::Object(vec![
        ("jsonrpc".to_string(), JsonValue::Str("2.0".to_string())),
        ("id".to_string(), JsonValue::Number(JsonNumber::PosInt(1))),
    ]);
    let bytes = encode_message(&doc);
    assert_eq!(String::from_utf8(bytes).expect("utf8"), "Content-Length: 24\r\n\r\n{\"id\":1,\"jsonrpc\":\"2.0\"}");
}

#[test]
fn encoded_body_reads_back_as_the_document() {
    let doc = JsonValue::Object(vec![
        ("a".to_string(), JsonValue::Array(vec![JsonValue::Number(JsonNumber::NegInt(-7)), JsonValue::Null])),
        ("b".to_string(), JsonValue::Str("line\n\"quoted\" é".to_string())),
        ("c".to_string(), JsonValue::Number(JsonNumber::PosInt(u64::MAX))),
    ]);
    let framed = encode_message(&doc);
    let text = String::from_utf8(framed.clone()).expect("utf8");
    let split = text.find("\r\n\r\n").expect("header end") + 4;
    let back = read_message_body(&framed[split..]).ok().expect("reads back");
    match back {
        JsonValue::Object(m) => {
            let keys: Vec<&str> = m.iter().map(|(k, _)| k.as_str()).collect();
            assert_eq!(keys, vec!["a", "b", "c"]);
            assert!(matches!(&m[0].1, JsonValue::Array(items)
                if matches!(items[0], JsonValue::Number(JsonNumber::NegInt(-7))) && matches!(items[1], JsonValue::Null)));
            assert!(matches!(&m[1].1, JsonValue::Str(t) if t == "line\n\"quoted\" é"));
            assert!(matches!(&m[2].1, JsonValue::Number(JsonNumber::PosInt(u)) if *u == u64::MAX));
        },
        _ => panic!("expected an object"),
    }
}
