use slog_gelf::address::SocketAddress;
use slog_gelf::level::Level;
use slog_gelf::message::{Field, Message, Timestamp, Value};
use slog_gelf::{Gelf, KeyValueList, VERSION};

fn text(key: &str, value: &str) -> Field {
    Field { key: key.to_string(), value: Value::Text(value.to_string()) }
}

#[test]
fn slog_levels_map_to_gelf_levels() {
    assert_eq!(Level::from(slog::Level::Critical), Level::Critical);
    assert_eq!(Level::from(slog::Level::Error), Level::Error);
    assert_eq!(Level::from(slog::Level::Warning), Level::Warning);
    assert_eq!(Level::from(slog::Level::Info), Level::Informational);
    assert_eq!(Level::from(slog::Level::Debug), Level::Debug);
    assert_eq!(Level::from(slog::Level::Trace), Level::Debug);
}

#[test]
fn slog_ranks_map_to_gelf_levels() {
    assert_eq!(Level::from_rank(1), Some(Level::Critical));
    assert_eq!(Level::from_rank(2), Some(Level::Error));
    assert_eq!(Level::from_rank(3), Some(Level::Warning));
    assert_eq!(Level::from_rank(4), Some(Level::Informational));
    assert_eq!(Level::from_rank(5), Some(Level::Debug));
    assert_eq!(Level::from_rank(6), Some(Level::Debug));
    assert_eq!(Level::from_rank(0), None);
    assert_eq!(Level::from_rank(7), None);
    assert_eq!(Level::from_rank(usize::MAX), None);
}

#[test]
fn slog_ranks_are_what_the_mapping_expects() {
    assert_eq!(Level::from_rank(slog::Level::Critical.as_usize()), Some(Level::Critical));
    assert_eq!(Level::from_rank(slog::Level::Info.as_usize()), Some(Level::Informational));
    assert_eq!(Level::from_rank(slog::Level::Trace.as_usize()), Some(Level::Debug));
}

#[test]
fn gelf_levels_have_the_syslog_numbers() {
    assert_eq!(Level::Emergency.code(), 0);
    assert_eq!(Level::Alert.code(), 1);
    assert_eq!(Level::Critical.code(), 2);
    assert_eq!(Level::Error.code(), 3);
    assert_eq!(Level::Warning.code(), 4);
    assert_eq!(Level::Notice.code(), 5);
    assert_eq!(Level::Informational.code(), 6);
    assert_eq!(Level::Debug.code(), 7);
}

#[test]
fn trace_and_debug_collapse() {
    assert_eq!(Level::from(slog::Level::Trace).code(), 7);
    assert_eq!(Level::from(slog::Level::Debug).code(), 7);
    assert_eq!(Level::from(slog::Level::Info).code(), 6);
}

#[test]
fn a_bare_message_has_three_fields() {
    let message = Message {
        version: "1.1",
        host: "web-1",
        short_message: "started".to_string(),
        full_message: None,
        timestamp: None,
        level: None,
        module: None,
        file: None,
        line: None,
        column: None,
        additional: Vec::new(),
    };
    assert_eq!(
        message.fields(),
        vec![text("version", "1.1"), text("host", "web-1"), text("short_message", "started")]
    );
}

#[test]
fn a_full_message_has_its_fields_in_order() {
    let time = Timestamp { seconds: 1_700_000_000, millis: 250 };
    let message = Message {
        version: "1.1",
        host: "web-1",
        short_message: "failed".to_string(),
        full_message: Some("failed badly".to_string()),
        timestamp: Some(time),
        level: Some(Level::Error),
        module: Some("app::db"),
        file: Some("src/db.rs"),
        line: Some(17),
        column: Some(5),
        additional: vec![("user", "ann".to_string()), ("request", "r-9".to_string())],
    };
    assert_eq!(
        message.fields(),
        vec![
            text("version", "1.1"),
            text("host", "web-1"),
            text("short_message", "failed"),
            text("full_message", "failed badly"),
            Field { key: "timestamp".to_string(), value: Value::Time(time) },
            Field { key: "level".to_string(), value: Value::Severity(Level::Error) },
            text("_module", "app::db"),
            text("_file", "src/db.rs"),
            Field { key: "_line".to_string(), value: Value::Number(17) },
            Field { key: "_column".to_string(), value: Value::Number(5) },
            text("_request", "r-9"),
            text("_user", "ann"),
        ]
    );
}

#[test]
fn additional_fields_come_last_one_first_behind_an_underscore() {
    let message = Message {
        version: "1.1",
        host: "h",
        short_message: "m".to_string(),
        full_message: None,
        timestamp: None,
        level: None,
        module: None,
        file: None,
        line: Some(3),
        column: None,
        additional: vec![
            ("a", "1".to_string()),
            ("b", "2".to_string()),
            ("_c", "3".to_string()),
        ],
    };
    let fields = message.fields();
    let keys: Vec<&str> = fields.iter().map(|field| field.key.as_str()).collect();
    assert_eq!(keys, vec!["version", "host", "short_message", "_line", "__c", "_b", "_a"]);
    assert_eq!(fields[4].value, Value::Text("3".to_string()));
    assert_eq!(fields[6].value, Value::Text("1".to_string()));
}

#[test]
fn key_value_list_keeps_the_order_of_emission() {
    let mut list = KeyValueList::new();
    assert!(list.0.is_empty());
    list.emit("first", "1".to_string());
    list.emit("second", "2".to_string());
    assert_eq!(list.0, vec![("first", "1".to_string()), ("second", "2".to_string())]);
}

#[test]
fn gelf_assembles_the_document_of_an_event() {
    let address = SocketAddress::V4 { octets: [10, 0, 0, 1], port: 12201 };
    let gelf = Gelf::with_udp("web-1", vec![address]).unwrap();
    let mut additional = KeyValueList::new();
    additional.emit("holy", "cow".to_string());
    additional.emit("45342", "34523".to_string());
    let time = Timestamp { seconds: 1_600_000_000, millis: 7 };
    let message = gelf.message(
        "An example log message".to_string(),
        time,
        Level::Informational,
        "example",
        "examples/test.rs",
        15,
        additional,
    );
    assert_eq!(VERSION, "1.1");
    assert_eq!(message.version, "1.1");
    assert_eq!(message.host, "web-1");
    assert_eq!(message.short_message, "An example log message");
    assert_eq!(message.full_message, None);
    assert_eq!(message.timestamp, Some(time));
    assert_eq!(message.level, Some(Level::Informational));
    assert_eq!(message.module, Some("example"));
    assert_eq!(message.file, Some("examples/test.rs"));
    assert_eq!(message.line, Some(15));
    assert_eq!(message.column, None);
    assert_eq!(
        message.fields(),
        vec![
            text("version", "1.1"),
            text("host", "web-1"),
            text("short_message", "An example log message"),
            Field { key: "timestamp".to_string(), value: Value::Time(time) },
            Field { key: "level".to_string(), value: Value::Severity(Level::Informational) },
            text("_module", "example"),
            text("_file", "examples/test.rs"),
            Field { key: "_line".to_string(), value: Value::Number(15) },
            text("_45342", "34523"),
            text("_holy", "cow"),
        ]
    );
}
