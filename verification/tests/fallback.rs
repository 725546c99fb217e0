use std::collections::HashMap;

use json_log::{
    do_log_encoded, encode_payload, finish, get_default_logger, log_at, log_envelope, now_millis,
    recover, recover_at, settle, EncodingFailure, Level, LevelFilter, Msg, Payload, Stream,
};
use serde_json::Value;

fn text(s: &str) -> Payload {
    Payload::Text(s.to_string())
}

// A map whose keys are not strings: the encoder refuses it.
fn refused() -> serde_json::Error {
    let mut map: HashMap<(u8, u8), u8> = HashMap::new();
    map.insert((1, 2), 3);
    serde_json::to_string(&map).unwrap_err()
}

fn parsed(line: &str) -> serde_json::Map<String, Value> {
    assert!(!line.contains('\n'));
    match serde_json::from_str::<Value>(line).unwrap() {
        Value::Object(map) => map,
        other => panic!("not an object: {:?}", other),
    }
}

fn shape_of(line: &str, level: &str) -> Value {
    let prefix = format!("{{\"level\":\"{}\",\"ts\":", level);
    assert!(line.starts_with(&prefix), "{}", line);
    let rest = &line[prefix.len()..];
    let digits = rest.chars().take_while(|c| c.is_ascii_digit()).count();
    assert!(digits > 0);
    assert!(rest[digits..].starts_with(",\"msg\":"), "{}", line);
    assert!(line.ends_with('}'));
    let map = parsed(line);
    assert_eq!(map.len(), 3);
    assert_eq!(map["level"], Value::from(level));
    assert!(map["ts"].is_u64());
    map["msg"].clone()
}

#[test]
fn suppressed_record_produces_nothing() {
    let r = log_at(Level::Debug, &text("x"), LevelFilter::Info);
    assert!(matches!(r, Ok(None)));
}

#[test]
fn info_text_under_debug_goes_to_standard_error() {
    let before = now_millis();
    let emission = log_at(Level::Info, &text("a=6"), LevelFilter::Debug).unwrap().unwrap();
    let after = now_millis();
    assert_eq!(emission.stream, Stream::Stderr);
    assert_eq!(shape_of(&emission.line, "Info"), Value::from("a=6"));
    let ts = parsed(&emission.line)["ts"].as_u64().unwrap() as u128;
    assert!(before <= ts && ts <= after);
    assert_eq!(emission.line, format!("{{\"level\":\"Info\",\"ts\":{},\"msg\":\"a=6\"}}", ts));
}

#[test]
fn error_object_under_error_goes_to_standard_output() {
    let mut object = serde_json::Map::new();
    object.insert("status".to_string(), Value::from(404));
    object.insert("method".to_string(), Value::from("GET"));
    let payload = Payload::Json(Value::Object(object.clone()));
    let emission = log_at(Level::Error, &payload, LevelFilter::Error).unwrap().unwrap();
    assert_eq!(emission.stream, Stream::Stdout);
    assert_eq!(shape_of(&emission.line, "Error"), Value::Object(object));
}

#[test]
fn unencodable_warn_becomes_a_marshal_error_on_standard_output() {
    let first: Result<String, serde_json::Error> = Err(refused());
    let emission = do_log_encoded(Level::Warn, now_millis(), first).unwrap();
    assert_eq!(emission.stream, Stream::Stdout);
    assert!(emission.line.contains("\"level\":\"Warn\""));
    let msg = shape_of(&emission.line, "Warn");
    assert!(msg.as_str().unwrap().starts_with("Marshal Error:"));
    assert_eq!(msg, Value::from(format!("Marshal Error: {}", refused())));
    assert!(emission.line.contains(",\"msg\":\"Marshal Error: "));
}

#[test]
fn fallback_keeps_level_and_stream_for_every_level() {
    let all = [
        (Level::Trace, "Trace", Stream::Stderr),
        (Level::Debug, "Debug", Stream::Stderr),
        (Level::Info, "Info", Stream::Stderr),
        (Level::Warn, "Warn", Stream::Stdout),
        (Level::Error, "Error", Stream::Stdout),
    ];
    for (level, name, stream) in all {
        let emission = recover(level, &refused()).unwrap();
        assert_eq!(emission.stream, stream);
        let msg = shape_of(&emission.line, name);
        assert!(msg.as_str().unwrap().starts_with("Marshal Error:"));
    }
}

#[test]
fn settle_frames_an_encoded_payload_at_the_given_time() {
    let emission = settle(Level::Debug, 1234, Ok("[1,2,3]".to_string())).unwrap();
    assert_eq!(emission.stream, Stream::Stderr);
    assert_eq!(emission.line, "{\"level\":\"Debug\",\"ts\":1234,\"msg\":[1,2,3]}");
}

#[test]
fn settle_hands_an_error_on() {
    let expected = format!("{}", refused());
    match settle(Level::Error, 5, Err(refused())) {
        Ok(_) => panic!("an error cannot become a line"),
        Err(e) => assert_eq!(format!("{}", e), expected),
    }
}

#[test]
fn finish_leaves_a_made_line_alone() {
    let first = settle(Level::Warn, 77, Ok("true".to_string()));
    let emission = finish(Level::Warn, first).unwrap();
    assert_eq!(emission.stream, Stream::Stdout);
    assert_eq!(emission.line, "{\"level\":\"Warn\",\"ts\":77,\"msg\":true}");
}

#[test]
fn finish_replaces_a_failure_by_its_diagnostic() {
    let emission = finish(Level::Info, Err(refused())).unwrap();
    assert_eq!(emission.stream, Stream::Stderr);
    let msg = shape_of(&emission.line, "Info");
    assert_eq!(msg, Value::from(format!("Marshal Error: {}", refused())));
}

#[test]
fn do_log_encoded_frames_what_it_is_given() {
    let emission = do_log_encoded(Level::Trace, 3, Ok("{\"k\":null}".to_string())).unwrap();
    assert_eq!(emission.stream, Stream::Stderr);
    assert_eq!(emission.line, "{\"level\":\"Trace\",\"ts\":3,\"msg\":{\"k\":null}}");
}

#[test]
fn text_payloads_are_encoded_as_json_strings() {
    assert_eq!(encode_payload(&text("plain")).unwrap(), "\"plain\"");
    assert_eq!(encode_payload(&text("a \"b\" \\ c")).unwrap(), "\"a \\\"b\\\" \\\\ c\"");
    assert_eq!(encode_payload(&text("line\nbreak\ttab")).unwrap(), "\"line\\nbreak\\ttab\"");
    assert_eq!(encode_payload(&text("\u{1}")).unwrap(), "\"\\u0001\"");
    assert_eq!(encode_payload(&text("你好")).unwrap(), "\"你好\"");
    assert_eq!(encode_payload(&text("")).unwrap(), "\"\"");
}

#[test]
fn json_payloads_of_every_kind_are_encoded() {
    assert_eq!(encode_payload(&Payload::Json(Value::Null)).unwrap(), "null");
    assert_eq!(encode_payload(&Payload::Json(Value::from(true))).unwrap(), "true");
    assert_eq!(encode_payload(&Payload::Json(Value::from(-12302))).unwrap(), "-12302");
    assert_eq!(encode_payload(&Payload::Json(Value::from("s"))).unwrap(), "\"s\"");
    let array = Value::Array(vec![Value::from(1), Value::Null]);
    assert_eq!(encode_payload(&Payload::Json(array)).unwrap(), "[1,null]");
}

#[test]
fn a_line_never_holds_a_line_break() {
    let emission = log_at(Level::Error, &text("one\ntwo\r\nthree"), LevelFilter::Trace)
        .unwrap()
        .unwrap();
    assert!(!emission.line.contains('\n'));
    assert!(!emission.line.contains('\r'));
    assert_eq!(shape_of(&emission.line, "Error"), Value::from("one\ntwo\r\nthree"));
}

#[test]
fn envelope_keeps_level_and_payload_and_reads_the_clock() {
    let payload = text("kept");
    let before = now_millis();
    let envelope = Msg::new(Level::Warn, &payload);
    let after = now_millis();
    assert_eq!(envelope.level, Level::Warn);
    assert!(before <= envelope.ts && envelope.ts <= after);
    assert!(matches!(envelope.msg, Payload::Text(s) if s == "kept"));
    let emission = envelope.encode().unwrap();
    assert_eq!(emission.stream, Stream::Stdout);
    assert_eq!(
        emission.line,
        format!("{{\"level\":\"Warn\",\"ts\":{},\"msg\":\"kept\"}}", envelope.ts)
    );
}

#[test]
fn the_clock_is_past_the_year_2020() {
    assert!(now_millis() > 1_577_836_800_000);
}

#[test]
fn do_log_does_not_consult_the_threshold() {
    let emission = get_default_logger().do_log(Level::Trace, &text("always")).unwrap();
    assert_eq!(emission.stream, Stream::Stderr);
    assert_eq!(shape_of(&emission.line, "Trace"), Value::from("always"));
}

#[test]
fn encoding_failure_is_a_plain_value() {
    assert_eq!(EncodingFailure, EncodingFailure);
}

#[test]
fn plain_words_at_the_start_of_a_text_are_not_escaped() {
    let body = encode_payload(&text("Marshal Error: \"quoted\" and \\ more")).unwrap();
    assert!(body.starts_with("\"Marshal Error: "));
    assert!(body.ends_with('"'));
    assert_eq!(body, "\"Marshal Error: \\\"quoted\\\" and \\\\ more\"");
    let short = encode_payload(&text("\u{7f}é\u{1f}")).unwrap();
    assert_eq!(short, "\"\u{7f}é\\u001f\"");
}

#[test]
fn every_text_gets_its_own_line() {
    let texts = ["", "plain", "\"", "\\", "\u{0}\u{1f}", "tab\there", "你好，世界", "Marshal Error: x"];
    for t in texts {
        let emission = get_default_logger().do_log(Level::Info, &text(t)).unwrap();
        assert_eq!(emission.stream, Stream::Stderr);
        assert_eq!(shape_of(&emission.line, "Info"), Value::from(t));
        let body = encode_payload(&text(t)).unwrap();
        assert!(emission.line.ends_with(&format!(",\"msg\":{}}}", body)));
    }
}

#[test]
fn an_envelope_gives_the_line_at_its_own_time() {
    let payload = text("a=6");
    let envelope = Msg { level: Level::Info, ts: 1700000000000, msg: &payload };
    let emission = log_envelope(&envelope).unwrap();
    assert_eq!(emission.stream, Stream::Stderr);
    assert_eq!(emission.line, "{\"level\":\"Info\",\"ts\":1700000000000,\"msg\":\"a=6\"}");

    let mut object = serde_json::Map::new();
    object.insert("a".to_string(), Value::from("Hello World"));
    object.insert("b".to_string(), Value::from(1u8));
    object.insert("c".to_string(), Value::from(10231u32));
    object.insert("d".to_string(), Value::from(-12302i64));
    object.insert("e".to_string(), Value::from(true));
    let payload = Payload::Json(Value::Object(object));
    let envelope = Msg { level: Level::Error, ts: 1700000000000, msg: &payload };
    let emission = log_envelope(&envelope).unwrap();
    assert_eq!(emission.stream, Stream::Stdout);
    assert_eq!(
        emission.line,
        "{\"level\":\"Error\",\"ts\":1700000000000,\"msg\":{\"a\":\"Hello World\",\"b\":1,\"c\":10231,\"d\":-12302,\"e\":true}}"
    );
}

#[test]
fn the_diagnostic_carries_the_text_of_the_error_at_hand() {
    let error = refused();
    let description = format!("{}", error);
    let emission = recover_at(Level::Warn, 12, &error).unwrap();
    assert_eq!(emission.stream, Stream::Stdout);
    assert_eq!(
        emission.line,
        format!("{{\"level\":\"Warn\",\"ts\":12,\"msg\":\"Marshal Error: {}\"}}", description)
    );
    assert!(!description.is_empty());

    let other = serde_json::from_str::<Value>("{").unwrap_err();
    let emission = recover_at(Level::Debug, 0, &other).unwrap();
    assert_eq!(emission.stream, Stream::Stderr);
    let msg = shape_of(&emission.line, "Debug");
    assert_eq!(msg, Value::from(format!("Marshal Error: {}", other)));
    assert!(format!("{}", other) != description);
}
