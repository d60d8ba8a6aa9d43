use profile_mirror::json::{parse_integer, Json, Member};
use profile_mirror::text::{decimal, nat_decimal};

#[test]
fn parse_reads_an_object() {
    let tree = Json::parse(r#"{"a": 1, "b": "two", "c": [true, null, 2.5]}"#).unwrap();
    assert_eq!(tree.get_integer("a"), Some(1));
    assert_eq!(tree.get_text("b").map(|s| s.as_str()), Some("two"));
    let list = tree.get("c").unwrap().as_list().unwrap();
    assert_eq!(list.len(), 3);
    assert!(matches!(list[0], Json::Bool(true)));
    assert!(matches!(list[1], Json::Null));
    assert!(matches!(list[2], Json::Fraction));
    assert!(tree.get("d").is_none());
}

#[test]
fn parse_refuses_what_is_no_json() {
    assert!(Json::parse("{").is_none());
    assert!(Json::parse("").is_none());
    assert!(Json::parse("{\"a\": 1} trailing").is_none());
}

#[test]
fn parse_does_not_hand_its_text_back() {
    let tree = Json::parse("\"7\"").unwrap();
    assert!(matches!(&tree, Json::Text(s) if s == "7"));
    let number = Json::parse("7").unwrap();
    assert!(matches!(number, Json::Integer(7)));
}

#[test]
fn a_number_beyond_i64_is_no_integer() {
    let tree = Json::parse("{\"n\": 9223372036854775808}").unwrap();
    assert!(matches!(tree.get("n"), Some(Json::Fraction)));
    assert_eq!(tree.get_integer("n"), None);
    assert_eq!(tree.get_loose_integer("n"), None);
}

#[test]
fn loose_integer_takes_both_forms() {
    let tree = Json::parse(r#"{"a": 440, "b": "440", "c": "-12", "d": "+7", "e": "4x", "f": 1.5, "g": "", "h": null}"#).unwrap();
    assert_eq!(tree.get_loose_integer("a"), Some(440));
    assert_eq!(tree.get_loose_integer("b"), Some(440));
    assert_eq!(tree.get_loose_integer("c"), Some(-12));
    assert_eq!(tree.get_loose_integer("d"), Some(7));
    assert_eq!(tree.get_loose_integer("e"), None);
    assert_eq!(tree.get_loose_integer("f"), None);
    assert_eq!(tree.get_loose_integer("g"), None);
    assert_eq!(tree.get_loose_integer("h"), None);
    assert_eq!(tree.get_loose_integer("missing"), None);
    assert_eq!(tree.get_optional_loose_integer("h"), Some(None));
    assert_eq!(tree.get_optional_loose_integer("missing"), Some(None));
    assert_eq!(tree.get_optional_loose_integer("b"), Some(Some(440)));
    assert_eq!(tree.get_optional_loose_integer("e"), None);
}

#[test]
fn loose_i32_is_bounded() {
    let tree = Json::parse(r#"{"a": 2147483647, "b": 2147483648, "c": "-2147483648", "d": "-2147483649"}"#).unwrap();
    assert_eq!(tree.get_loose_i32("a"), Some(2147483647));
    assert_eq!(tree.get_loose_i32("b"), None);
    assert_eq!(tree.get_loose_i32("c"), Some(-2147483648));
    assert_eq!(tree.get_loose_i32("d"), None);
}

#[test]
fn parse_integer_follows_the_grammar() {
    assert_eq!(parse_integer("0"), Some(0));
    assert_eq!(parse_integer("007"), Some(7));
    assert_eq!(parse_integer("-0"), Some(0));
    assert_eq!(parse_integer("9223372036854775807"), Some(i64::MAX));
    assert_eq!(parse_integer("9223372036854775808"), None);
    assert_eq!(parse_integer("-9223372036854775808"), Some(i64::MIN));
    assert_eq!(parse_integer("-9223372036854775809"), None);
    assert_eq!(parse_integer("00000000000000000000000000000012"), Some(12));
    assert_eq!(parse_integer("99999999999999999999999999"), None);
    assert_eq!(parse_integer(""), None);
    assert_eq!(parse_integer("-"), None);
    assert_eq!(parse_integer("+"), None);
    assert_eq!(parse_integer(" 1"), None);
    assert_eq!(parse_integer("1 "), None);
    assert_eq!(parse_integer("1_000"), None);
    assert_eq!(parse_integer("--1"), None);
    assert_eq!(parse_integer("1.0"), None);
    assert_eq!(parse_integer("\u{0661}"), None);
    assert_eq!(parse_integer("12\u{00e9}"), None);
}

#[test]
fn parse_integer_agrees_with_std() {
    for text in ["5", "-5", "+5", "05", "", "a", "9223372036854775807", "-9223372036854775808", "18446744073709551616"] {
        assert_eq!(parse_integer(text), text.parse::<i64>().ok(), "{}", text);
    }
}

#[test]
fn get_finds_the_first_member_of_a_name() {
    let tree = Json::Record(vec![
        Member { name: "a".to_string(), value: Json::Integer(1) },
        Member { name: "a".to_string(), value: Json::Integer(2) },
    ]);
    assert_eq!(tree.get_integer("a"), Some(1));
    assert!(Json::Integer(3).get("a").is_none());
}

#[test]
fn optional_text_tells_missing_from_mistyped() {
    let tree = Json::parse(r#"{"a": "x", "b": null, "c": 3}"#).unwrap();
    assert_eq!(tree.get_optional_text("a"), Some(Some("x".to_string())));
    assert_eq!(tree.get_optional_text("b"), Some(None));
    assert_eq!(tree.get_optional_text("zz"), Some(None));
    assert_eq!(tree.get_optional_text("c"), None);
    assert_eq!(tree.get_text_or_empty("zz"), Some(String::new()));
    assert_eq!(tree.get_text_or_empty("b"), None);
    assert_eq!(tree.get_text_or_empty("a"), Some("x".to_string()));
    assert_eq!(tree.get_bool("a"), None);
}

#[test]
fn decimal_writes_whole_numbers() {
    assert_eq!(decimal(0), "0");
    assert_eq!(decimal(440), "440");
    assert_eq!(decimal(-12), "-12");
    assert_eq!(decimal(i64::MAX), "9223372036854775807");
    assert_eq!(decimal(i64::MIN), "-9223372036854775808");
    assert_eq!(nat_decimal(u64::MAX), "18446744073709551615");
    assert_eq!(nat_decimal(10), "10");
}

#[test]
fn decimal_reads_back() {
    for n in [0i64, 1, -1, 9, 10, 99, 100, 753, -753, i64::MAX, i64::MIN] {
        assert_eq!(parse_integer(&decimal(n)), Some(n));
    }
}
