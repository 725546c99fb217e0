use json_log::{
    get_default_logger, init_with_level, Emission, EncodingFailure, Installer, JsonLogger,
    LevelFilter, Payload, Stream,
};
use serde_json::Value;

fn init() -> Result<(), log::SetLoggerError> {
    let mut registry = Installer::new();
    let r = init_with_level(&mut registry, LevelFilter::Error, Ok(()));
    assert_eq!(registry.threshold(), LevelFilter::Error);
    r
}

fn logger() -> &'static JsonLogger {
    get_default_logger()
}

fn msg_of(line: &str) -> Value {
    match serde_json::from_str::<Value>(line).unwrap() {
        Value::Object(map) => {
            assert_eq!(map.len(), 3);
            assert!(map["ts"].is_u64());
            map["msg"].clone()
        }
        other => panic!("not an object: {:?}", other),
    }
}

fn expect_error_line(r: Result<Option<Emission>, EncodingFailure>, msg: &Value) {
    let emission = r.unwrap().unwrap();
    assert_eq!(emission.stream, Stream::Stdout);
    assert!(emission.line.starts_with("{\"level\":\"Error\",\"ts\":"));
    assert_eq!(&msg_of(&emission.line), msg);
}

// Under the threshold `Error` only the last of the five calls gives a line.
fn test_all_log(msg: Value) {
    let payload = Payload::Json(msg.clone());
    assert!(matches!(logger().trace(&payload), Ok(None)));
    assert!(matches!(logger().debug(&payload), Ok(None)));
    assert!(matches!(logger().info(&payload), Ok(None)));
    assert!(matches!(logger().warn(&payload), Ok(None)));
    expect_error_line(logger().error(&payload), &msg);
}

#[test]
fn test_simple() {
    init().unwrap();

    assert!(matches!(logger().trace(&Payload::Text("trace".to_string())), Ok(None)));
    assert!(matches!(logger().debug(&Payload::Text("debug".to_string())), Ok(None)));
    assert!(matches!(logger().info(&Payload::Text("info".to_string())), Ok(None)));
    assert!(matches!(logger().warn(&Payload::Text("warn".to_string())), Ok(None)));
    expect_error_line(logger().error(&Payload::Text("error".to_string())), &Value::from("error"));
}

#[test]
fn test_simple_struct() {
    init().unwrap();

    let mut s = serde_json::Map::new();
    s.insert("a".to_string(), Value::from("Hello World"));
    s.insert("b".to_string(), Value::from(1u8));
    s.insert("c".to_string(), Value::from(10231u32));
    s.insert("d".to_string(), Value::from(-12302i64));
    s.insert("e".to_string(), Value::from(true));

    test_all_log(Value::Object(s));
}

#[test]
fn test_hashmap() {
    init().unwrap();

    let map = {
        let mut map = serde_json::Map::new();

        map.insert("a".to_string(), Value::from("bcd"));
        map.insert("c".to_string(), Value::from("efs"));
        map.insert("en".to_string(), Value::from("Hello World"));
        map.insert("zh".to_string(), Value::from("你好，世界"));
        map.insert("ja".to_string(), Value::from("こんにちは世界"));

        Value::Object(map)
    };

    test_all_log(map.clone());
    test_all_log(map);
}

#[test]
fn test_http_full() {
    init().unwrap();

    let mut queries = serde_json::Map::new();
    queries.insert("info".to_string(), Value::from("full"));
    queries.insert("status".to_string(), Value::from("ok"));

    let mut http = serde_json::Map::new();
    http.insert("version".to_string(), Value::from("HTTP/1.1"));
    http.insert("method".to_string(), Value::from("GET"));
    http.insert("path".to_string(), Value::from("/api/v1/users/10000"));
    http.insert("queries".to_string(), Value::Object(queries));
    http.insert("headers".to_string(), Value::Object(serde_json::Map::new()));
    http.insert("status".to_string(), Value::from(404u16));
    http.insert("time".to_string(), Value::from(8usize));

    test_all_log(Value::Object(http));
}

#[test]
fn should_log_follows_the_front_end_threshold() {
    init().unwrap();

    assert_eq!(log::max_level(), log::LevelFilter::Error);
    assert!(logger().should_log(LevelFilter::Error));
    assert!(logger().should_log(LevelFilter::Off));
    assert!(!logger().should_log(LevelFilter::Warn));
    assert!(!logger().should_log(LevelFilter::Info));
    assert!(!logger().should_log(LevelFilter::Debug));
    assert!(!logger().should_log(LevelFilter::Trace));
}
