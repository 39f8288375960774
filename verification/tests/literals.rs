use flux_client::{decode_string_literal, FluxValue, RenderError};

fn literal(value: FluxValue) -> String {
    match value.to_literal() {
        Ok(text) => text,
        Err(e) => panic!("rejected: {}", e.message()),
    }
}

fn rejection(value: FluxValue) -> RenderError {
    match value.to_literal() {
        Ok(text) => panic!("accepted as {}", text),
        Err(e) => e,
    }
}

#[test]
fn string_literal_is_quoted() {
    assert_eq!(literal(FluxValue::String("host-1".to_string())), "\"host-1\"");
    assert_eq!(literal(FluxValue::String(String::new())), "\"\"");
}

#[test]
fn string_literal_escapes_backslash_and_quote() {
    assert_eq!(literal(FluxValue::String("a\"b\\c".to_string())), "\"a\\\"b\\\\c\"");
    assert_eq!(literal(FluxValue::String("\\".to_string())), "\"\\\\\"");
    assert_eq!(literal(FluxValue::String("\"".to_string())), "\"\\\"\"");
}

#[test]
fn string_literal_keeps_other_characters() {
    assert_eq!(literal(FluxValue::String("größe\n{x}".to_string())), "\"größe\n{x}\"");
}

#[test]
fn string_literal_reads_back() {
    let texts = ["", "plain", "a\"b\\c", "\") |> drop() //", "\\\\\"\"", "tab\tüñí\\"];
    for text in texts {
        let lit = literal(FluxValue::String(text.to_string()));
        assert_eq!(decode_string_literal(&lit), Some(text.to_string()));
    }
}

#[test]
fn decode_rejects_what_is_no_single_literal() {
    assert_eq!(decode_string_literal(""), None);
    assert_eq!(decode_string_literal("\""), None);
    assert_eq!(decode_string_literal("abc"), None);
    assert_eq!(decode_string_literal("\"a\"b\""), None);
    assert_eq!(decode_string_literal("\"a\\\""), None);
    assert_eq!(decode_string_literal("\"a\\nb\""), None);
    assert_eq!(decode_string_literal("\"a\" + \"b\""), None);
    assert_eq!(decode_string_literal("\"\""), Some(String::new()));
    assert_eq!(decode_string_literal("\"a\\\\b\""), Some("a\\b".to_string()));
}

#[test]
fn integer_literals() {
    assert_eq!(literal(FluxValue::Integer(0)), "0");
    assert_eq!(literal(FluxValue::Integer(7)), "7");
    assert_eq!(literal(FluxValue::Integer(10)), "10");
    assert_eq!(literal(FluxValue::Integer(-42)), "-42");
    assert_eq!(literal(FluxValue::Integer(1_000_000)), "1000000");
    assert_eq!(literal(FluxValue::Integer(i64::MAX)), "9223372036854775807");
    assert_eq!(literal(FluxValue::Integer(i64::MIN)), "-9223372036854775808");
}

#[test]
fn boolean_literals() {
    assert_eq!(literal(FluxValue::Boolean(true)), "true");
    assert_eq!(literal(FluxValue::Boolean(false)), "false");
}

#[test]
fn float_literals_have_a_fraction() {
    assert_eq!(literal(FluxValue::Float("0.5".to_string())), "0.5");
    assert_eq!(literal(FluxValue::Float("-0.25".to_string())), "-0.25");
    assert_eq!(literal(FluxValue::Float("3".to_string())), "3.0");
    assert_eq!(literal(FluxValue::Float("-12".to_string())), "-12.0");
    assert_eq!(literal(FluxValue::Float(format!("{}", 1.5f64))), "1.5");
    assert_eq!(literal(FluxValue::Float(format!("{}", 2f64))), "2.0");
    assert_eq!(literal(FluxValue::Float(format!("{}", 1e21f64))), "1000000000000000000000.0");
}

#[test]
fn float_rejects_what_is_no_decimal() {
    for text in ["NaN", "inf", "-inf", "1e21", "1.", ".5", "", "-", "1.2.3", "+1.0", "1,5", "-.5"] {
        assert_eq!(
            rejection(FluxValue::Float(text.to_string())),
            RenderError::InvalidFloat(text.to_string())
        );
    }
    assert_eq!(
        rejection(FluxValue::Float(format!("{}", f64::NAN))),
        RenderError::InvalidFloat("NaN".to_string())
    );
    assert_eq!(
        rejection(FluxValue::Float(format!("{}", f64::NEG_INFINITY))),
        RenderError::InvalidFloat("-inf".to_string())
    );
}

#[test]
fn duration_literals() {
    for text in ["-5m", "1h30m", "10ns", "3us", "250ms", "1s", "2d", "1w", "1m5s", "0h", "-1h2m3s4ms"] {
        assert_eq!(literal(FluxValue::Duration(text.to_string())), text);
    }
}

#[test]
fn duration_rejects_what_is_no_sequence_of_pairs() {
    for text in ["", "-", "5", "m", "5x", "5mo", "1h 30m", "1.5h", "--5m", "5m-", "5mss", "1y", "h1"] {
        assert_eq!(
            rejection(FluxValue::Duration(text.to_string())),
            RenderError::InvalidDuration(text.to_string())
        );
    }
}

#[test]
fn timestamp_literals() {
    for text in [
        "2024-02-29T12:00:00Z",
        "2000-02-29T00:00:00Z",
        "1999-12-31T23:59:59Z",
        "2023-06-30T08:15:30.5Z",
        "2023-06-30T08:15:30.123456789Z",
        "0001-01-01T00:00:00Z",
    ] {
        assert_eq!(literal(FluxValue::Timestamp(text.to_string())), text);
    }
}

#[test]
fn timestamp_rejects_what_is_no_utc_date_time() {
    for text in [
        "",
        "2024-02-29",
        "2024-02-29T12:00:00",
        "2024-02-29T12:00:00+00:00",
        "2024-02-29t12:00:00Z",
        "2024-02-29T12:00:00z",
        "2024-02-29 12:00:00Z",
        "2023-02-29T12:00:00Z",
        "1900-02-29T12:00:00Z",
        "2024-04-31T12:00:00Z",
        "2024-13-01T12:00:00Z",
        "2024-00-10T12:00:00Z",
        "2024-01-00T12:00:00Z",
        "2024-01-32T12:00:00Z",
        "2024-01-01T24:00:00Z",
        "2024-01-01T12:60:00Z",
        "2024-01-01T12:00:60Z",
        "2024-01-01T12:00:00.Z",
        "2024-01-01T12:00:00.12aZ",
        "2024-01-01T12:00:00ZZ",
        "24-01-01T12:00:00Z",
    ] {
        assert_eq!(
            rejection(FluxValue::Timestamp(text.to_string())),
            RenderError::InvalidTimestamp(text.to_string())
        );
    }
}

#[test]
fn identifier_literals() {
    for text in ["metrics", "_private", "cpu_0", "A", "_", "Camel9_case"] {
        assert_eq!(literal(FluxValue::Identifier(text.to_string())), text);
    }
}

#[test]
fn identifier_rejects_what_is_no_identifier() {
    for text in ["", "9lives", "my-bucket", "a b", "a.b", "bucket\"", "größe", "x)"] {
        assert_eq!(
            rejection(FluxValue::Identifier(text.to_string())),
            RenderError::InvalidIdentifier(text.to_string())
        );
    }
}

#[test]
fn push_literal_appends_or_leaves_alone() {
    let mut out: Vec<char> = "x = ".chars().collect();
    assert!(FluxValue::Integer(12).push_literal(&mut out).is_ok());
    assert_eq!(out.iter().collect::<String>(), "x = 12");
    assert!(FluxValue::Identifier("no good".to_string()).push_literal(&mut out).is_err());
    assert_eq!(out.iter().collect::<String>(), "x = 12");
}

#[test]
fn clone_keeps_the_value() {
    let values = [
        FluxValue::String("a".to_string()),
        FluxValue::Integer(-3),
        FluxValue::Float("1.5".to_string()),
        FluxValue::Boolean(true),
        FluxValue::Duration("5m".to_string()),
        FluxValue::Timestamp("2024-02-29T12:00:00Z".to_string()),
        FluxValue::Identifier("m".to_string()),
    ];
    for value in values {
        assert_eq!(value.clone(), value);
    }
}
