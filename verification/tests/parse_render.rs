//! The JSON parser and renderer on concrete documents.

use lettr::json::{render_string, Json};
use lettr::parse::parse_json_text;
use lettr::text::{parse_i64, parse_u32, parse_u64, u32_dec_string, u64_dec_string};

fn parse(s: &str) -> Option<Json> {
    parse_json_text(s)
}

#[test]
fn parses_literals() {
    assert!(matches!(parse("null"), Some(Json::Null)));
    assert!(matches!(parse("true"), Some(Json::Bool(true))));
    assert!(matches!(parse("false"), Some(Json::Bool(false))));
    assert!(matches!(parse("  null  "), Some(Json::Null)));
}

#[test]
fn parses_numbers_keeping_the_lexeme() {
    match parse("42") {
        Some(Json::Num(s)) => assert_eq!(s, "42"),
        other => panic!("unexpected: {:?}", other),
    }
    match parse("-3.25e+2") {
        Some(Json::Num(s)) => assert_eq!(s, "-3.25e+2"),
        other => panic!("unexpected: {:?}", other),
    }
    match parse("0") {
        Some(Json::Num(s)) => assert_eq!(s, "0"),
        other => panic!("unexpected: {:?}", other),
    }
}

#[test]
fn rejects_bad_numbers() {
    assert!(parse("01").is_none());
    assert!(parse("1.").is_none());
    assert!(parse("+1").is_none());
    assert!(parse("1e").is_none());
    assert!(parse("-").is_none());
}

#[test]
fn parses_strings_with_escapes() {
    match parse("\"a\\nb\\t\\\"c\\\\d\\/e\"") {
        Some(Json::Str(s)) => assert_eq!(s, "a\nb\t\"c\\d/e"),
        other => panic!("unexpected: {:?}", other),
    }
    match parse("\"\\u0041\\u00e9\"") {
        Some(Json::Str(s)) => assert_eq!(s, "A\u{e9}"),
        other => panic!("unexpected: {:?}", other),
    }
}

#[test]
fn parses_surrogate_pairs() {
    match parse("\"\\uD83D\\uDE00\"") {
        Some(Json::Str(s)) => assert_eq!(s, "\u{1F600}"),
        other => panic!("unexpected: {:?}", other),
    }
    assert!(parse("\"\\uD83D\"").is_none());
    assert!(parse("\"\\uDE00\"").is_none());
}

#[test]
fn rejects_malformed_strings() {
    assert!(parse("\"unterminated").is_none());
    assert!(parse("\"bad \\x escape\"").is_none());
    assert!(parse("\"raw \n newline\"").is_none());
}

#[test]
fn parses_arrays_and_objects() {
    match parse("[1, 2, 3]") {
        Some(Json::Arr(items)) => assert_eq!(items.len(), 3),
        other => panic!("unexpected: {:?}", other),
    }
    match parse("[]") {
        Some(Json::Arr(items)) => assert_eq!(items.len(), 0),
        other => panic!("unexpected: {:?}", other),
    }
    match parse("{ \"a\" : [true, null] , \"b\" : { } }") {
        Some(Json::Obj(fields)) => {
            assert_eq!(fields.len(), 2);
            assert_eq!(fields[0].0, "a");
            assert_eq!(fields[1].0, "b");
        },
        other => panic!("unexpected: {:?}", other),
    }
}

#[test]
fn rejects_trailing_and_malformed_input() {
    assert!(parse("").is_none());
    assert!(parse("   ").is_none());
    assert!(parse("null null").is_none());
    assert!(parse("[1,]").is_none());
    assert!(parse("{\"a\":}").is_none());
    assert!(parse("{\"a\" 1}").is_none());
    assert!(parse("{a: 1}").is_none());
    assert!(parse("[1").is_none());
}

#[test]
fn renders_compactly() {
    let j = parse("{ \"a\" : [ 1 , \"x\" ] , \"b\" : null }").unwrap();
    assert_eq!(render_string(&j), "{\"a\":[1,\"x\"],\"b\":null}");
}

#[test]
fn renders_escapes() {
    let j = Json::Str("a\"b\\c\nd\u{1}".to_owned());
    assert_eq!(render_string(&j), "\"a\\\"b\\\\c\\nd\\u0001\"");
}

#[test]
fn round_trips_a_document() {
    let text = "{\"message\":\"ok\",\"data\":{\"n\":12,\"flags\":[true,false]}}";
    let j = parse(text).unwrap();
    assert_eq!(render_string(&j), text);
}

#[test]
fn decimal_rendering_is_exact() {
    assert_eq!(u64_dec_string(0), "0");
    assert_eq!(u64_dec_string(12345), "12345");
    assert_eq!(u64_dec_string(u64::MAX), "18446744073709551615");
    assert_eq!(u32_dec_string(100), "100");
}

#[test]
fn decimal_parsing_is_exact() {
    assert_eq!(parse_u64("0"), Some(0));
    assert_eq!(parse_u64("18446744073709551615"), Some(u64::MAX));
    assert_eq!(parse_u64("18446744073709551616"), None);
    assert_eq!(parse_u64(""), None);
    assert_eq!(parse_u64("12x"), None);
    assert_eq!(parse_u32("4294967295"), Some(u32::MAX));
    assert_eq!(parse_u32("4294967296"), None);
    assert_eq!(parse_i64("-42"), Some(-42));
    assert_eq!(parse_i64("-9223372036854775808"), Some(i64::MIN));
    assert_eq!(parse_i64("9223372036854775807"), Some(i64::MAX));
    assert_eq!(parse_i64("9223372036854775808"), None);
}
