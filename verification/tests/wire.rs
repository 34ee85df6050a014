use status_broadcast::clock::Timestamp;
use status_broadcast::wire::{
    decimal_text, encode, encode_with, frame, quote_text, quote_timestamp, EncodeError, Snapshot,
};

fn snapshot(clients: u64, secs: i64, nanos: u32, healthy: bool) -> Snapshot {
    Snapshot {
        connected_clients: clients,
        timestamp: Timestamp::new(secs, nanos),
        upstream_healthy: healthy,
    }
}

#[test]
fn decimal_text_of_single_digits() {
    for (n, expected) in ["0", "1", "2", "3", "4", "5", "6", "7", "8", "9"].iter().enumerate() {
        assert_eq!(decimal_text(n as u64), *expected);
    }
}

#[test]
fn decimal_text_of_longer_numbers() {
    assert_eq!(decimal_text(10), "10");
    assert_eq!(decimal_text(15), "15");
    assert_eq!(decimal_text(100), "100");
    assert_eq!(decimal_text(907), "907");
    assert_eq!(decimal_text(1_234_567_890), "1234567890");
    assert_eq!(decimal_text(u64::MAX), "18446744073709551615");
}

#[test]
fn decimal_text_agrees_with_std() {
    for n in (0..5000u64).chain([u32::MAX as u64, u64::MAX - 1]) {
        assert_eq!(decimal_text(n), n.to_string());
    }
}

#[test]
fn frame_writes_fields_in_order_without_space() {
    assert_eq!(
        frame(2, "\"2023-01-01T00:00:00Z\"", true),
        "{\"clients_count\":2,\"dateTime\":\"2023-01-01T00:00:00Z\",\"is_up\":true}"
    );
    assert_eq!(
        frame(0, "\"x\"", false),
        "{\"clients_count\":0,\"dateTime\":\"x\",\"is_up\":false}"
    );
}

#[test]
fn quote_timestamp_writes_iso8601_between_quotes() {
    assert_eq!(
        quote_timestamp(&Timestamp::new(1_672_531_200, 0)),
        Ok("\"2023-01-01T00:00:00Z\"".to_string())
    );
}

#[test]
fn quote_timestamp_rejects_instant_without_date() {
    assert_eq!(
        quote_timestamp(&Timestamp::new(i64::MAX, 0)),
        Err(EncodeError::TimestampOutOfRange)
    );
    assert_eq!(
        quote_timestamp(&Timestamp::new(0, 2_000_000_000)),
        Err(EncodeError::TimestampOutOfRange)
    );
}

#[test]
fn encode_whole_second() {
    assert_eq!(
        encode(&snapshot(3, 1_672_531_200, 0, true)),
        Ok("{\"clients_count\":3,\"dateTime\":\"2023-01-01T00:00:00Z\",\"is_up\":true}".to_string())
    );
}

#[test]
fn encode_epoch_with_health_flag_off() {
    assert_eq!(
        encode(&snapshot(0, 0, 0, false)),
        Ok("{\"clients_count\":0,\"dateTime\":\"1970-01-01T00:00:00Z\",\"is_up\":false}"
            .to_string())
    );
}

#[test]
fn encode_fraction_takes_as_many_digits_as_it_needs() {
    assert_eq!(
        encode(&snapshot(1, 1_431_648_000, 500_000_000, true)),
        Ok("{\"clients_count\":1,\"dateTime\":\"2015-05-15T00:00:00.500Z\",\"is_up\":true}"
            .to_string())
    );
    assert_eq!(
        encode(&snapshot(1, 1_431_648_000, 453_829_000, true)),
        Ok("{\"clients_count\":1,\"dateTime\":\"2015-05-15T00:00:00.453829Z\",\"is_up\":true}"
            .to_string())
    );
    assert_eq!(
        encode(&snapshot(1, 1_431_648_000, 1, true)),
        Ok("{\"clients_count\":1,\"dateTime\":\"2015-05-15T00:00:00.000000001Z\",\"is_up\":true}"
            .to_string())
    );
}

#[test]
fn encode_before_the_epoch() {
    assert_eq!(
        encode(&snapshot(7, -1, 0, true)),
        Ok("{\"clients_count\":7,\"dateTime\":\"1969-12-31T23:59:59Z\",\"is_up\":true}".to_string())
    );
}

#[test]
fn encode_rejects_timestamp_out_of_range() {
    assert_eq!(
        encode(&snapshot(1, i64::MAX, 0, true)),
        Err(EncodeError::TimestampOutOfRange)
    );
    assert_eq!(
        encode(&snapshot(1, i64::MIN, 0, true)),
        Err(EncodeError::TimestampOutOfRange)
    );
}

#[test]
fn encode_with_passes_errors_through() {
    let value = snapshot(4, 0, 0, true);
    assert_eq!(
        encode_with(&value, Err(EncodeError::Serialization)),
        Err(EncodeError::Serialization)
    );
    assert_eq!(
        encode_with(&value, Err(EncodeError::TimestampOutOfRange)),
        Err(EncodeError::TimestampOutOfRange)
    );
}

#[test]
fn encode_with_frames_the_quoted_time() {
    assert_eq!(
        encode_with(&snapshot(4, 0, 0, true), Ok("\"now\"".to_string())),
        Ok("{\"clients_count\":4,\"dateTime\":\"now\",\"is_up\":true}".to_string())
    );
}

#[test]
fn wire_message_parses_as_json_object_with_three_fields() {
    let message = encode(&snapshot(42, 1_700_000_000, 123_000_000, false)).unwrap();
    let parsed: serde_json::Value = serde_json::from_str(&message).unwrap();
    let object = parsed.as_object().unwrap();
    assert_eq!(object.len(), 3);
    assert_eq!(object["clients_count"].as_u64(), Some(42));
    assert_eq!(object["dateTime"].as_str(), Some("2023-11-14T22:13:20.123Z"));
    assert_eq!(object["is_up"].as_bool(), Some(false));
}

#[test]
fn wire_message_is_what_the_json_writer_gives_for_the_same_object() {
    let value = snapshot(18, 1_700_000_000, 0, true);
    let at = chrono::DateTime::<chrono::Utc>::from_timestamp(1_700_000_000, 0).unwrap();
    let mut object = serde_json::Map::new();
    object.insert("clients_count".to_string(), serde_json::Value::from(18u64));
    object.insert(
        "dateTime".to_string(),
        serde_json::Value::from(at.to_rfc3339_opts(chrono::SecondsFormat::AutoSi, true)),
    );
    object.insert("is_up".to_string(), serde_json::Value::from(true));
    let expected = serde_json::to_string(&serde_json::Value::Object(object)).unwrap();
    assert_eq!(encode(&value), Ok(expected));
}

#[test]
fn timestamp_parses_back_to_the_same_instant() {
    let message = encode(&snapshot(1, 1_699_999_999, 999_999_999, true)).unwrap();
    let parsed: serde_json::Value = serde_json::from_str(&message).unwrap();
    let at = chrono::DateTime::parse_from_rfc3339(parsed["dateTime"].as_str().unwrap()).unwrap();
    assert_eq!(at.timestamp(), 1_699_999_999);
    assert_eq!(at.timestamp_subsec_nanos(), 999_999_999);
}

#[test]
fn quote_text_puts_plain_text_between_quotes() {
    assert_eq!(quote_text(""), Ok("\"\"".to_string()));
    assert_eq!(quote_text("2023-01-01T00:00:00Z"), Ok("\"2023-01-01T00:00:00Z\"".to_string()));
    assert_eq!(quote_text("a/b c"), Ok("\"a/b c\"".to_string()));
}

#[test]
fn quote_text_escapes_quote_and_backslash() {
    assert_eq!(quote_text("say \"hi\""), Ok("\"say \\\"hi\\\"\"".to_string()));
    assert_eq!(quote_text("a\\b"), Ok("\"a\\\\b\"".to_string()));
}

#[test]
fn quote_text_escapes_control_characters() {
    assert_eq!(
        quote_text("\u{08}\t\n\u{0c}\r"),
        Ok("\"\\b\\t\\n\\f\\r\"".to_string())
    );
    assert_eq!(quote_text("\u{00}"), Ok("\"\\u0000\"".to_string()));
    assert_eq!(quote_text("\u{01}\u{0b}"), Ok("\"\\u0001\\u000b\"".to_string()));
    assert_eq!(quote_text("\u{1a}\u{1f}"), Ok("\"\\u001a\\u001f\"".to_string()));
}

#[test]
fn quote_text_leaves_every_other_character_alone() {
    assert_eq!(quote_text(" \u{7f}\u{80}"), Ok("\" \u{7f}\u{80}\"".to_string()));
    assert_eq!(
        quote_text("\u{e9}\u{6f22}\u{1f600}"),
        Ok("\"\u{e9}\u{6f22}\u{1f600}\"".to_string())
    );
}

#[test]
fn quote_text_agrees_with_the_model_on_every_ascii_character() {
    for code in 0u8..=127 {
        let c = code as char;
        let expected = match c {
            '"' => "\\\"".to_string(),
            '\\' => "\\\\".to_string(),
            '\u{08}' => "\\b".to_string(),
            '\t' => "\\t".to_string(),
            '\n' => "\\n".to_string(),
            '\u{0c}' => "\\f".to_string(),
            '\r' => "\\r".to_string(),
            _ if code < 0x20 => format!("\\u00{:x}{:x}", code / 16, code % 16),
            _ => c.to_string(),
        };
        assert_eq!(quote_text(&c.to_string()), Ok(format!("\"{expected}\"")));
    }
}
