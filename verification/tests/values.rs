use mamcli::checks::{integer_to_sql, sql_to_integer, validate_non_empty};
use mamcli::connection::{
    self, ConnectOptions, JournalMode, OpenAction, OpenStep, OpenStore, Synchronous,
};
use mamcli::error::database_error;
use mamcli::json::{decode_json, decoded_json, encode_json, encoded_json};
use mamcli::nesting::{is_within_limit, NESTING_LIMIT};
use mamcli::text::{decimal_text, join};
use mamcli::time::{decode_timestamp, decoded_timestamp, encode_timestamp};
use mamcli::{
    AgentName, CreateSession, EventKind, EventSequence, NewEvent, SessionId, SessionQuery,
    SessionVersion, StoreError, Timestamp,
};
use serde_json::Value;

fn noon(year: i32) -> Timestamp {
    Timestamp {
        year,
        month: 7,
        day: 9,
        hour: 12,
        minute: 0,
        second: 5,
        nanosecond: 60,
    }
}

fn message<T>(result: Result<T, StoreError>) -> String {
    match result {
        Ok(_) => panic!("an error was expected"),
        Err(error) => error.to_string(),
    }
}

#[test]
fn names_keep_their_text() {
    let id = SessionId::from("ses_1");
    assert_eq!(id, SessionId::from(String::from("ses_1")));
    assert_eq!(id, SessionId::from_string("ses_1"));
    assert_eq!(id.as_str(), "ses_1");
    assert_eq!(id.to_string(), "ses_1");
    assert_eq!(id.clone(), id);
    let text: &str = id.as_ref();
    assert_eq!(text, "ses_1");
    assert_eq!(AgentName::from("a").as_str(), "a");
    assert_eq!(AgentName::from_string(String::from("b")).to_string(), "b");
    assert_eq!(EventKind::from("k").as_str(), "k");
    assert_eq!(EventKind::from_string("k").clone().to_string(), "k");
}

#[test]
fn numbers_are_shown_in_decimal() {
    assert_eq!(SessionVersion(0).to_string(), "0");
    assert_eq!(SessionVersion(1209).to_string(), "1209");
    assert_eq!(EventSequence(u64::MAX).to_string(), "18446744073709551615");
    assert_eq!(decimal_text(10), "10");
    assert_eq!(SessionVersion::default(), SessionVersion::initial());
    assert_eq!(SessionVersion::initial(), SessionVersion(0));
    assert_eq!(join("ab", "c"), "abc");
}

#[test]
fn errors_have_their_messages() {
    let id = SessionId::from("ses_1");
    assert_eq!(
        StoreError::NotFound(id.clone()).to_string(),
        "session `ses_1` was not found"
    );
    assert_eq!(
        StoreError::AlreadyExists(id).to_string(),
        "session `ses_1` already exists"
    );
    let conflict = StoreError::Conflict {
        expected: SessionVersion(3),
        actual: SessionVersion(10),
    };
    assert_eq!(
        conflict.to_string(),
        "session version conflict: expected version 3, but current version is 10"
    );
    assert_eq!(
        StoreError::InvalidInput(String::from("x")).to_string(),
        "invalid store input: x"
    );
    assert_eq!(
        StoreError::InvalidData(String::from("x")).to_string(),
        "stored data is invalid: x"
    );
    assert_eq!(
        database_error(String::from("x")).to_string(),
        "database error: x"
    );
}

#[test]
fn blank_is_what_unicode_calls_white_space() {
    let white: Vec<u32> = vec![
        0x09, 0x0a, 0x0b, 0x0c, 0x0d, 0x20, 0x85, 0xa0, 0x1680, 0x2000, 0x2001, 0x2002, 0x2003,
        0x2004, 0x2005, 0x2006, 0x2007, 0x2008, 0x2009, 0x200a, 0x2028, 0x2029, 0x202f, 0x205f,
        0x3000,
    ];
    for code in 0..=0x10ffff_u32 {
        if let Some(c) = char::from_u32(code) {
            let text = String::from(c);
            assert_eq!(
                validate_non_empty("x", &text).is_err(),
                white.contains(&code),
                "{code:x}"
            );
        }
    }
    assert!(validate_non_empty("x", "").is_err());
    assert!(validate_non_empty("x", " \t\u{3000}\n").is_err());
    assert!(validate_non_empty("x", "  a ").is_ok());
    assert_eq!(
        message(validate_non_empty("session id", " ")),
        "invalid store input: session id cannot be empty"
    );
}

#[test]
fn integers_stay_in_the_range_of_the_database() {
    assert_eq!(integer_to_sql("n", 0).unwrap(), 0);
    assert_eq!(integer_to_sql("n", i64::MAX as u64).unwrap(), i64::MAX);
    assert_eq!(
        message(integer_to_sql("n", i64::MAX as u64 + 1)),
        "invalid store input: n exceeds SQLite's integer range"
    );
    assert_eq!(sql_to_integer("n", i64::MAX).unwrap(), i64::MAX as u64);
    assert_eq!(sql_to_integer("n", 0).unwrap(), 0);
    assert_eq!(
        message(sql_to_integer("n", -1)),
        "stored data is invalid: n cannot be negative"
    );
}

#[test]
fn timestamps_are_written_to_the_nanosecond() {
    assert_eq!(
        encode_timestamp(noon(2024)),
        "2024-07-09T12:00:05.000000060Z"
    );
    assert_eq!(encode_timestamp(noon(7)), "0007-07-09T12:00:05.000000060Z");
    assert_eq!(
        encode_timestamp(noon(-7)),
        "-0007-07-09T12:00:05.000000060Z"
    );
    assert_eq!(
        encode_timestamp(noon(-12345)),
        "-12345-07-09T12:00:05.000000060Z"
    );
    assert_eq!(
        encode_timestamp(noon(12345)),
        "+12345-07-09T12:00:05.000000060Z"
    );
    let leap = Timestamp {
        year: 2016,
        month: 12,
        day: 31,
        hour: 23,
        minute: 59,
        second: 59,
        nanosecond: 1_500_000_000,
    };
    assert_eq!(encode_timestamp(leap), "2016-12-31T23:59:60.500000000Z");
    assert_eq!(
        decode_timestamp("t", "2016-12-31T23:59:60.500000000Z").unwrap(),
        leap
    );
    let first = Timestamp {
        year: -262143,
        month: 1,
        day: 1,
        hour: 0,
        minute: 0,
        second: 0,
        nanosecond: 0,
    };
    assert_eq!(
        encode_timestamp(first),
        "-262143-01-01T00:00:00.000000000Z"
    );
    let last = Timestamp {
        year: 262142,
        month: 12,
        day: 31,
        hour: 23,
        minute: 59,
        second: 59,
        nanosecond: 1_999_999_999,
    };
    assert_eq!(encode_timestamp(last), "+262142-12-31T23:59:60.999999999Z");
}

#[test]
fn timestamps_are_read_back() {
    for year in [0, 1, 1969, 1970, 2000, 2024, 9999] {
        for (month, day) in [(1, 1), (2, 28), (12, 31)] {
            for (second, nanosecond) in [(0, 0), (59, 999_999_999), (59, 1_999_999_999)] {
                let timestamp = Timestamp {
                    year,
                    month,
                    day,
                    hour: 23,
                    minute: 59,
                    second,
                    nanosecond,
                };
                let text = encode_timestamp(timestamp);
                assert_eq!(decode_timestamp("t", &text).unwrap(), timestamp);
            }
        }
    }
    assert_eq!(
        decode_timestamp("t", "2024-07-09T14:00:05.00000006+02:00").unwrap(),
        noon(2024)
    );
    assert_eq!(
        message(decode_timestamp("created_at", "")),
        "stored data is invalid: created_at contains invalid timestamp ``: premature end of input"
    );
    assert_eq!(
        message(decode_timestamp("t", "2024-13-01T00:00:00Z")),
        "stored data is invalid: t contains invalid timestamp `2024-13-01T00:00:00Z`: \
         input is out of range"
    );
}

#[test]
fn timestamps_sort_as_their_texts() {
    let mut sorted: Vec<Timestamp> = Vec::new();
    for year in [0, 9, 10, 999, 2024, 9999] {
        for month in [1, 9, 10, 12] {
            for (second, nanosecond) in [(9, 5), (9, 50), (59, 0), (59, 1_000_000_000)] {
                sorted.push(Timestamp {
                    year,
                    month,
                    day: 10,
                    hour: 3,
                    minute: 4,
                    second,
                    nanosecond,
                });
            }
        }
    }
    for i in 0..sorted.len() {
        for j in 0..sorted.len() {
            let (t, u) = (encode_timestamp(sorted[i]), encode_timestamp(sorted[j]));
            assert_eq!(t < u, i < j);
            assert_eq!(t == u, i == j);
        }
    }
    assert!(encode_timestamp(noon(10000)) < encode_timestamp(noon(9999)));
}

#[test]
fn the_clock_shows_the_present() {
    let before = Timestamp::now();
    let after = Timestamp::now();
    assert!(before.year >= 2024);
    assert!(before.nanosecond < 1_000_000_000);
    assert!(encode_timestamp(before) <= encode_timestamp(after));
    assert_eq!(
        decode_timestamp("t", &encode_timestamp(before)).unwrap(),
        before
    );
}

#[test]
fn session_identifiers_are_made_from_ulids() {
    assert_eq!(
        SessionId::from_ulid(0).as_str(),
        "ses_00000000000000000000000000"
    );
    assert_eq!(
        SessionId::from_ulid(u128::MAX).as_str(),
        "ses_7ZZZZZZZZZZZZZZZZZZZZZZZZZ"
    );
    assert_eq!(
        SessionId::from_ulid(0x1234567890abcdef).as_str(),
        "ses_000000000000014D2PF28AQKFF"
    );
    let numbers: Vec<u128> = vec![0, 9, 10, 31, 32, 1 << 79, 1 << 80, (1 << 80) + 1, u128::MAX];
    for i in 0..numbers.len() {
        for j in 0..numbers.len() {
            let (a, b) = (
                SessionId::from_ulid(numbers[i]),
                SessionId::from_ulid(numbers[j]),
            );
            assert_eq!(a.as_str() < b.as_str(), i < j);
            assert_eq!(a == b, i == j);
        }
    }
}

#[test]
fn fresh_identifiers_differ_and_are_accepted() {
    let (a, b) = (SessionId::new(), SessionId::default());
    assert_ne!(a, b);
    for id in [a, b] {
        assert_eq!(id.as_str().len(), 30);
        assert!(id.as_str().starts_with("ses_"));
        assert!(validate_non_empty("session id", id.as_str()).is_ok());
    }
}

#[test]
fn json_is_written_compactly_and_read_back() {
    let value = decode_json("m", " { \"b\" : [ 1 , true ] , \"a\" : null } ").unwrap();
    assert_eq!(
        encode_json("no: ", &value).unwrap(),
        "{\"a\":null,\"b\":[1,true]}"
    );
    assert_eq!(
        decode_json("m", &encode_json("no: ", &value).unwrap()).unwrap(),
        value
    );
    assert_eq!(
        message(decode_json("session metadata", "x")),
        "stored data is invalid: session metadata contains invalid JSON: \
         expected value at line 1 column 1"
    );
}

fn nested(levels: usize) -> Value {
    (0..levels).fold(Value::Null, |inner, _| Value::Array(vec![inner]))
}

fn nested_objects(levels: usize) -> Value {
    (0..levels).fold(Value::Null, |inner, _| {
        let mut members = serde_json::Map::new();
        members.insert(String::from("a"), inner);
        Value::Object(members)
    })
}

fn read_back(value: &Value) -> Value {
    decode_json("m", &encode_json("", value).unwrap()).unwrap()
}

#[test]
fn json_is_read_back_up_to_the_limit() {
    let limit = NESTING_LIMIT as usize;
    assert!(limit >= 200);
    for levels in [0, 1, 127, 128, 129, 200, limit - 1, limit] {
        assert_eq!(read_back(&nested(levels)), nested(levels));
        assert_eq!(read_back(&nested_objects(levels)), nested_objects(levels));
    }
    let text = format!("{}1", "[".repeat(200));
    assert_eq!(
        message(decode_json("m", &text)),
        "stored data is invalid: m contains invalid JSON: \
         EOF while parsing a list at line 1 column 201"
    );
}

#[test]
fn json_past_the_limit_is_refused() {
    let too_deep = "stored data is invalid: m contains invalid JSON: \
                    recursion limit exceeded at line 1 column 128";
    let text = encode_json("", &nested(NESTING_LIMIT as usize + 1)).unwrap();
    assert_eq!(message(decode_json("m", &text)), too_deep);
    for text in ["[".repeat(100_000), "[{\"a\":".repeat(100_000)] {
        assert!(matches!(
            decode_json("m", &text),
            Err(StoreError::InvalidData(_))
        ));
    }
    assert_eq!(message(decode_json("m", &"[".repeat(100_000))), too_deep);
    let late = format!("1 {}", "[".repeat(100_000));
    assert_eq!(
        message(decode_json("m", &late)),
        "stored data is invalid: m contains invalid JSON: trailing characters at line 1 column 3"
    );
}

#[test]
fn only_open_brackets_outside_strings_count() {
    let limit = NESTING_LIMIT as usize;
    assert!(is_within_limit(""));
    assert!(is_within_limit(&"[".repeat(limit)));
    assert!(!is_within_limit(&"[".repeat(limit + 1)));
    assert!(!is_within_limit(&"{".repeat(limit + 1)));
    assert!(is_within_limit(&"[]".repeat(1000)));
    assert!(is_within_limit(&"{}]".repeat(1000)));
    assert!(is_within_limit(&format!("\"{}\"", "[".repeat(1000))));
    assert!(is_within_limit(&format!("\"\\\"{}\"", "[".repeat(1000))));
    assert!(!is_within_limit(&format!("\"\\\\\"{}", "[".repeat(1000))));
    assert!(!is_within_limit(&format!("\"a\"{}", "[".repeat(1000))));
    let brackets = Value::from("[{\"\\".repeat(1000));
    assert_eq!(read_back(&brackets), brackets);
}

#[test]
fn numbers_are_read_back_exactly() {
    let floats: Vec<f64> = vec![
        0.0,
        -0.0,
        1.0,
        0.1,
        -2.5,
        1e15,
        1e16,
        1e21,
        31.245270191439438,
        121.48791951161945,
        100.78399658203125,
        5e-324,
        2.2250738585072014e-308,
        2.2250738585072011e-308,
        f64::MIN_POSITIVE,
        f64::EPSILON,
        f64::MAX,
        f64::MIN,
    ];
    for float in floats {
        let read = read_back(&Value::from(float));
        assert!(read.is_f64());
        assert_eq!(read.as_f64().unwrap().to_bits(), float.to_bits());
    }
    let mut bits: u64 = 0x9e37_79b9_7f4a_7c15;
    for _ in 0..20_000 {
        bits ^= bits << 13;
        bits ^= bits >> 7;
        bits ^= bits << 17;
        let float = f64::from_bits(bits);
        if float.is_finite() {
            let read = read_back(&Value::from(float));
            assert_eq!(read.as_f64().unwrap().to_bits(), bits);
        }
    }
    for integer in [i64::MIN, -1, 0, 1, i64::MAX] {
        assert_eq!(read_back(&Value::from(integer)), Value::from(integer));
    }
    assert_eq!(read_back(&Value::from(u64::MAX)), Value::from(u64::MAX));
}

#[test]
fn texts_and_objects_are_read_back() {
    let every: String = (0..=0x10ffff_u32).filter_map(char::from_u32).collect();
    assert_eq!(read_back(&Value::from(every.as_str())), Value::from(every));
    for key in [
        "",
        "$serde_json::private::RawValue",
        "$serde_json::private::Number",
    ] {
        let mut members = serde_json::Map::new();
        members.insert(String::from(key), Value::from("1"));
        let object = Value::Object(members);
        assert_eq!(read_back(&object), object);
    }
}

#[test]
fn what_was_written_and_read_is_passed_on() {
    let no = || String::from("no");
    assert_eq!(encoded_json("x: ", Ok(no())).unwrap(), "no");
    assert_eq!(
        message(encoded_json("event `k` could not be serialized: ", Err(no()))),
        "invalid store input: event `k` could not be serialized: no"
    );
    assert_eq!(
        decoded_json("m", Ok(Value::Bool(true))).unwrap(),
        Value::Bool(true)
    );
    assert_eq!(
        message(decoded_json("m", Err(no()))),
        "stored data is invalid: m contains invalid JSON: no"
    );
    assert_eq!(decoded_timestamp("t", "x", Ok(noon(1))).unwrap(), noon(1));
    assert_eq!(
        message(decoded_timestamp("t", "x", Err(no()))),
        "stored data is invalid: t contains invalid timestamp `x`: no"
    );
}

#[test]
fn a_request_has_defaults() {
    let input = CreateSession::new("architect");
    assert_eq!(input.root_agent.as_str(), "architect");
    assert!(input.id.as_str().starts_with("ses_"));
    assert_eq!(input.title, None);
    assert_eq!(encode_json("", &input.metadata).unwrap(), "{}");
    assert_eq!(input.metadata, decode_json("m", "{}").unwrap());
    let other = input
        .clone()
        .with_id("x")
        .with_title(String::from("T"))
        .with_metadata(Value::Bool(true));
    assert_eq!(
        other,
        CreateSession {
            id: SessionId::from("x"),
            root_agent: AgentName::from("architect"),
            title: Some(String::from("T")),
            metadata: Value::Bool(true),
        }
    );
    let query = SessionQuery::default();
    assert_eq!(
        query.clone(),
        SessionQuery {
            root_agent: None,
            limit: 50
        }
    );
}

#[test]
fn an_event_takes_what_a_value_became() {
    let event = NewEvent::new("k", Value::Null);
    assert_eq!(event.kind.as_str(), "k");
    let made = NewEvent::from_serializable("k", serde_json::to_value(vec![1, 2])).unwrap();
    assert_eq!(encode_json("", &made.payload).unwrap(), "[1,2]");
    assert_eq!(made.kind, event.kind);
    let failed: Result<NewEvent, &str> = NewEvent::from_serializable("k", Err("no"));
    assert_eq!(failed, Err("no"));
}

fn next(opening: OpenStore, answer: Result<(), String>) -> OpenStore {
    match opening.advance(answer) {
        OpenStep::Continue(next) => next,
        OpenStep::Finished(_) => panic!("there is more to do"),
    }
}

fn end(opening: OpenStore, answer: Result<(), String>) -> Result<(), StoreError> {
    match opening.advance(answer) {
        OpenStep::Continue(_) => panic!("there is nothing more to do"),
        OpenStep::Finished(outcome) => outcome,
    }
}

#[test]
fn a_file_is_opened_in_its_directory() {
    let options = ConnectOptions {
        in_memory: false,
        create_if_missing: true,
        foreign_keys: true,
        busy_timeout_seconds: 5,
        journal_mode: JournalMode::Wal,
        synchronous: Synchronous::Normal,
        max_connections: 5,
    };
    let opening = connection::open(Some("a/b"));
    assert!(matches!(opening.action(), OpenAction::CreateDirectory));
    let opening = next(opening, Ok(()));
    assert!(matches!(opening.action(), OpenAction::Connect(used) if *used == options));
    let opening = next(opening, Ok(()));
    assert!(matches!(opening.action(), OpenAction::Migrate));
    assert!(end(opening, Ok(())).is_ok());

    for parent in [None, Some("")] {
        let opening = connection::open(parent);
        assert!(matches!(opening.action(), OpenAction::Connect(used) if *used == options));
    }
}

#[test]
fn memory_is_opened_with_one_connection() {
    let options = ConnectOptions {
        in_memory: true,
        create_if_missing: false,
        foreign_keys: true,
        busy_timeout_seconds: 5,
        journal_mode: JournalMode::Usual,
        synchronous: Synchronous::Usual,
        max_connections: 1,
    };
    let opening = connection::in_memory();
    assert!(matches!(opening.action(), OpenAction::Connect(used) if *used == options));
    assert!(end(next(opening, Ok(())), Ok(())).is_ok());
}

#[test]
fn a_failed_opening_is_reported() {
    let no = || Err(String::from("no"));
    assert_eq!(
        message(end(connection::open(Some("a/b")), no())),
        "database error: could not create database directory `a/b`: no"
    );
    assert_eq!(
        message(end(connection::in_memory(), no())),
        "database error: no"
    );
    let connected = next(connection::in_memory(), Ok(()));
    assert_eq!(
        message(end(connected, no())),
        "database error: could not migrate SQLite database: no"
    );
}
