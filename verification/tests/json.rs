use gamplo::error::DecodeError;
use gamplo::json::{Json, JsonNumber};
use gamplo::time::Timestamp;

fn text(value: &str) -> Json {
    Json::String(value.to_string())
}

fn member(key: &str, value: Json) -> (String, Json) {
    (key.to_string(), value)
}

#[test]
fn parse_reads_every_kind_of_value() {
    assert_eq!(Json::parse("null").unwrap(), Json::Null);
    assert_eq!(Json::parse(" true ").unwrap(), Json::Bool(true));
    assert_eq!(Json::parse("\"a\\u00e9\\n\"").unwrap(), text("a\u{e9}\n"));
    assert_eq!(Json::parse("0").unwrap(), Json::Number(JsonNumber::PosInt(0)));
    assert_eq!(
        Json::parse("18446744073709551615").unwrap(),
        Json::Number(JsonNumber::PosInt(18446744073709551615))
    );
    assert_eq!(Json::parse("-3").unwrap(), Json::Number(JsonNumber::NegInt(-3)));
    assert_eq!(
        Json::parse("-9223372036854775808").unwrap(),
        Json::Number(JsonNumber::NegInt(-9223372036854775808))
    );
    assert_eq!(Json::parse("1.50").unwrap(), Json::Number(JsonNumber::Float("1.5".to_string())));
    assert_eq!(Json::parse("1e2").unwrap(), Json::Number(JsonNumber::Float("100.0".to_string())));
    assert_eq!(
        Json::parse("[1, [], {}]").unwrap(),
        Json::Array(vec![
            Json::Number(JsonNumber::PosInt(1)),
            Json::Array(vec![]),
            Json::Object(vec![]),
        ])
    );
    assert_eq!(
        Json::parse(r#"{"b": 1, "a": {"c": null}}"#).unwrap(),
        Json::Object(vec![
            member("a", Json::Object(vec![member("c", Json::Null)])),
            member("b", Json::Number(JsonNumber::PosInt(1))),
        ])
    );
}

#[test]
fn parse_keeps_the_last_of_equal_keys() {
    let parsed = Json::parse(r#"{"a": 1, "a": 2}"#).unwrap();
    assert_eq!(parsed, Json::Object(vec![member("a", Json::Number(JsonNumber::PosInt(2)))]));
}

#[test]
fn parse_rejects_what_is_not_json() {
    for bad in ["", "{", "[1,]", "{\"a\":1} x", "nul", "'a'", "1E400", "{a:1}"] {
        let cause = Json::parse(bad).unwrap_err();
        assert_eq!(cause.message, cause.error.to_string(), "{}", bad);
        assert!(!cause.message.is_empty(), "{}", bad);
    }
}

#[test]
fn print_is_compact_and_sorted() {
    let document = Json::Object(vec![
        member("b", Json::Array(vec![Json::Null, Json::Bool(false), text("x\"y")])),
        member("a", Json::Number(JsonNumber::NegInt(-7))),
        member("c", Json::Number(JsonNumber::Float("2.5".to_string()))),
    ]);
    assert_eq!(document.to_text(), r#"{"a":-7,"b":[null,false,"x\"y"],"c":2.5}"#);
    assert_eq!(Json::parse(&document.to_text()).unwrap().to_text(), document.to_text());
    assert_eq!(Json::Null.to_text(), "null");
    assert_eq!(text("").to_text(), "\"\"");
    assert_eq!(Json::Array(vec![]).to_text(), "[]");
}

#[test]
fn print_takes_the_last_of_equal_keys() {
    let document = Json::Object(vec![member("a", Json::Bool(true)), member("a", Json::Null)]);
    assert_eq!(document.to_text(), r#"{"a":null}"#);
    assert_eq!(document.get("a"), Some(&Json::Null));
}

#[test]
fn print_of_a_number_that_is_none() {
    assert_eq!(Json::Number(JsonNumber::Float("abc".to_string())).to_text(), "null");
    assert_eq!(Json::Number(JsonNumber::Float("inf".to_string())).to_text(), "null");
    assert_eq!(Json::Number(JsonNumber::Float("1e3".to_string())).to_text(), "1000.0");
    assert_eq!(Json::Number(JsonNumber::NegInt(5)).to_text(), "5");
}

#[test]
fn members_are_found_by_key() {
    let document = Json::parse(r#"{"a": 1, "b": "two", "c": null, "d": true, "e": [3]}"#).unwrap();
    assert_eq!(document.get("a"), Some(&Json::Number(JsonNumber::PosInt(1))));
    assert_eq!(document.get("c"), Some(&Json::Null));
    assert_eq!(document.get("z"), None);
    assert_eq!(document.get(""), None);
    assert_eq!(Json::Array(vec![text("a")]).get("a"), None);
    assert_eq!(text("a").get("a"), None);
    assert!(document.is_object());
    assert!(!document.is_null());
    assert!(document.get("c").unwrap().is_null());
    assert_eq!(document.get("a").unwrap().as_u64(), Some(1));
    assert_eq!(document.get("b").unwrap().as_u64(), None);
    assert_eq!(document.get("b").unwrap().as_str(), Some("two"));
    assert_eq!(document.get("a").unwrap().as_str(), None);
    assert_eq!(document.get("d").unwrap().as_bool(), Some(true));
    assert_eq!(document.get("c").unwrap().as_bool(), None);
    assert_eq!(
        document.get("e").unwrap().as_array(),
        Some(&vec![Json::Number(JsonNumber::PosInt(3))])
    );
    assert_eq!(document.as_array(), None);
    assert_eq!(Json::Number(JsonNumber::NegInt(-1)).as_u64(), None);
}

#[test]
fn clone_copies_the_whole_document() {
    let document = Json::parse(r#"{"a": [1, {"b": [null, "x", 2.5, -1]}], "c": {}}"#).unwrap();
    assert_eq!(document.clone(), document);
    assert_eq!(JsonNumber::Float("1.5".to_string()).clone(), JsonNumber::Float("1.5".to_string()));
}

#[test]
fn members_are_read_as_fields() {
    let document = Json::parse(
        r#"{"s": "x", "n": null, "t": true, "u": 4294967296, "v": 7, "w": "2024-01-02T03:04:05Z", "f": 1.5}"#,
    )
    .unwrap();
    assert_eq!(document.string_member("s"), Ok("x".to_string()));
    assert_eq!(document.string_member("n"), Err(DecodeError::InvalidField("n".to_string())));
    assert_eq!(document.string_member("zz"), Err(DecodeError::MissingField("zz".to_string())));
    assert_eq!(document.optional_string_member("s"), Ok(Some("x".to_string())));
    assert_eq!(document.optional_string_member("n"), Ok(None));
    assert_eq!(document.optional_string_member("zz"), Ok(None));
    assert_eq!(
        document.optional_string_member("t"),
        Err(DecodeError::InvalidField("t".to_string()))
    );
    assert_eq!(document.bool_member("t"), Ok(true));
    assert_eq!(document.bool_member("s"), Err(DecodeError::InvalidField("s".to_string())));
    assert_eq!(document.bool_member("zz"), Err(DecodeError::MissingField("zz".to_string())));
    assert_eq!(document.u64_member("u"), Ok(4294967296));
    assert_eq!(document.u64_member("f"), Err(DecodeError::InvalidField("f".to_string())));
    assert_eq!(document.u64_member("zz"), Err(DecodeError::MissingField("zz".to_string())));
    assert_eq!(document.u32_member("v"), Ok(7));
    assert_eq!(document.u32_member("u"), Err(DecodeError::InvalidField("u".to_string())));
    assert_eq!(document.u32_member("zz"), Err(DecodeError::MissingField("zz".to_string())));
    assert_eq!(document.timestamp_member("w"), Ok(Timestamp::new(1704164645, 0).unwrap()));
    assert_eq!(document.timestamp_member("s"), Err(DecodeError::InvalidField("s".to_string())));
    assert_eq!(document.timestamp_member("v"), Err(DecodeError::InvalidField("v".to_string())));
    assert_eq!(
        document.timestamp_member("zz"),
        Err(DecodeError::MissingField("zz".to_string()))
    );
    assert_eq!(document.any_member("n"), Ok(Json::Null));
    assert_eq!(document.any_member("zz"), Err(DecodeError::MissingField("zz".to_string())));
    assert_eq!(Json::Null.string_member("s"), Err(DecodeError::MissingField("s".to_string())));
}

#[test]
fn instants_are_read_from_text() {
    let at = Timestamp::parse("2024-01-02T03:04:05Z").unwrap();
    assert_eq!(at.timestamp(), 1704164645);
    assert_eq!(at.timestamp_subsec_nanos(), 0);
    assert_eq!(Timestamp::parse("2024-01-02T05:04:05+02:00"), Some(at));
    assert_eq!(Timestamp::parse("2024-01-01T22:04:05-05:00"), Some(at));
    assert_eq!(Timestamp::parse("2024-01-02 03:04:05Z"), Some(at));
    let fine = Timestamp::parse("2024-01-02T03:04:05.123456789Z").unwrap();
    assert_eq!(fine.timestamp(), 1704164645);
    assert_eq!(fine.timestamp_subsec_nanos(), 123456789);
    assert_eq!(Timestamp::parse("1969-12-31T23:59:59.5Z"), Timestamp::new(-1, 500_000_000));
    for bad in ["", "2024-01-02", "2024-01-02T03:04:05", "2024-13-02T03:04:05Z", "yesterday", "1704164645"] {
        assert_eq!(Timestamp::parse(bad), None, "{}", bad);
    }
}

#[test]
fn instants_are_printed_as_text() {
    assert_eq!(Timestamp::new(0, 0).unwrap().to_rfc3339(), "1970-01-01T00:00:00Z");
    assert_eq!(Timestamp::new(1704164645, 0).unwrap().to_rfc3339(), "2024-01-02T03:04:05Z");
    assert_eq!(
        Timestamp::new(1704164645, 120_000_000).unwrap().to_rfc3339(),
        "2024-01-02T03:04:05.120Z"
    );
    assert_eq!(
        Timestamp::new(1704164645, 1_000).unwrap().to_rfc3339(),
        "2024-01-02T03:04:05.000001Z"
    );
    assert_eq!(
        Timestamp::new(1704164645, 1).unwrap().to_rfc3339(),
        "2024-01-02T03:04:05.000000001Z"
    );
    assert_eq!(Timestamp::new(-1, 0).unwrap().to_rfc3339(), "1969-12-31T23:59:59Z");
}

#[test]
fn instants_survive_the_wire() {
    for (secs, nanos) in [
        (0, 0),
        (1704164645, 999_999_999),
        (-62167219200, 0),
        (253402300799, 1),
        (253402300800, 0),
        (1483228799, 1_000_000_000),
    ] {
        let at = Timestamp::new(secs, nanos).unwrap();
        assert_eq!(at.timestamp(), secs);
        assert_eq!(at.timestamp_subsec_nanos(), nanos);
        assert_eq!(Timestamp::parse(&at.to_rfc3339()), Some(at));
    }
    let leap = Timestamp::parse("2016-12-31T23:59:60Z").unwrap();
    assert_eq!(leap, Timestamp::new(1483228799, 1_000_000_000).unwrap());
    assert_eq!(leap.to_rfc3339(), "2016-12-31T23:59:60Z");
}

#[test]
fn instants_that_do_not_exist() {
    assert_eq!(Timestamp::new(i64::MAX, 0), None);
    assert_eq!(Timestamp::new(i64::MIN, 0), None);
    assert_eq!(Timestamp::new(0, 2_000_000_000), None);
    assert_eq!(Timestamp::new(0, 1_500_000_000), None);
    assert_eq!(Timestamp::new(0, u32::MAX), None);
    assert!(Timestamp::new(59, 1_500_000_000).is_some());
}

#[test]
fn instants_are_ordered_in_time() {
    let early = Timestamp::new(10, 999_999_999).unwrap();
    let late = Timestamp::new(11, 0).unwrap();
    assert!(early < late);
    assert!(Timestamp::new(-5, 0).unwrap() < Timestamp::new(-4, 0).unwrap());
    assert!(Timestamp::new(11, 1).unwrap() > late);
    assert_eq!(early.max(late), late);
}

#[test]
fn numbers_beyond_the_integers_keep_their_text() {
    for (text, printed) in [
        ("18446744073709551616", "1.8446744073709552e+19"),
        ("-9223372036854775809", "-9.223372036854776e+18"),
        ("0.1", "0.1"),
        ("-0.0", "-0.0"),
        ("1e-7", "1e-7"),
        ("123456789.125", "123456789.125"),
    ] {
        let parsed = Json::parse(text).unwrap();
        assert_eq!(parsed, Json::Number(JsonNumber::Float(printed.to_string())), "{}", text);
        assert_eq!(parsed.to_text(), printed, "{}", text);
    }
}

#[test]
fn parse_reports_where_the_text_goes_wrong() {
    assert_eq!(
        Json::parse("").unwrap_err().message,
        "EOF while parsing a value at line 1 column 0"
    );
    assert_eq!(
        Json::parse("[1,]").unwrap_err().message,
        "trailing comma at line 1 column 4"
    );
    assert_eq!(
        Json::parse("{\"a\":1} x").unwrap_err().message,
        "trailing characters at line 1 column 9"
    );
}

#[test]
fn printable_puts_null_for_what_is_no_number() {
    let number = |text: &str| Json::Number(JsonNumber::Float(text.to_string()));
    assert_eq!(number("abc").printable(), Json::Null);
    assert_eq!(number("NaN").printable(), Json::Null);
    assert_eq!(number("-inf").printable(), Json::Null);
    assert_eq!(number("").printable(), Json::Null);
    assert_eq!(number("2.5").printable(), number("2.5"));
    assert_eq!(number("1e3").printable(), number("1e3"));
    let document = Json::Object(vec![
        member("a", Json::Array(vec![number("x"), number("0.5"), text("x")])),
        member("b", Json::Object(vec![member("c", number("1e999"))])),
        member("d", Json::Number(JsonNumber::NegInt(-1))),
    ]);
    assert_eq!(
        document.printable(),
        Json::Object(vec![
            member("a", Json::Array(vec![Json::Null, number("0.5"), text("x")])),
            member("b", Json::Object(vec![member("c", Json::Null)])),
            member("d", Json::Number(JsonNumber::NegInt(-1))),
        ])
    );
    assert_eq!(document.to_text(), r#"{"a":[null,0.5,"x"],"b":{"c":null},"d":-1}"#);
    assert_eq!(document.to_text(), document.printable().to_text());
    let parsed = Json::parse(r#"{"a": [1.5, -2, 3e10, "x"]}"#).unwrap();
    assert_eq!(parsed.printable(), parsed);
}
