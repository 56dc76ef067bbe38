use derp_numeric::digits::parse_u64;
use derp_numeric::{DecodeError, DerpNumeric, Token};

fn token_of_json(text: &str) -> Token {
    match serde_json::from_str::<serde_json::Value>(text) {
        Ok(serde_json::Value::Number(n)) => match n.as_u64() {
            Some(v) => Token::Integer(v),
            None => panic!("not an unsigned integer: {text}"),
        },
        Ok(serde_json::Value::String(s)) => Token::Text(s),
        other => panic!("neither integer nor string: {other:?}"),
    }
}

fn number_of(r: Result<DerpNumeric, DecodeError>) -> Result<u32, DecodeError> {
    r.map(|v| v.get())
}

fn decode_text(s: &str) -> Result<u32, DecodeError> {
    number_of(DerpNumeric::decode(&Token::Text(String::from(s))))
}

fn decode_integer(n: u64) -> Result<u32, DecodeError> {
    number_of(DerpNumeric::decode(&Token::Integer(n)))
}

#[test]
fn simple() {
    let ret = DerpNumeric::decode(&token_of_json("1"));
    println!("{ret:?}");
    assert_eq!(number_of(ret), Ok(1));

    let ret = DerpNumeric::decode(&token_of_json(r#""2""#));
    println!("{ret:?}");
    assert_eq!(number_of(ret), Ok(2));
}

#[test]
fn native_one_is_accepted() {
    assert_eq!(decode_integer(1), Ok(1));
    assert_eq!(number_of(DerpNumeric::from_u64(1)), Ok(1));
}

#[test]
fn text_two_is_accepted() {
    assert_eq!(decode_text("2"), Ok(2));
    assert_eq!(number_of(DerpNumeric::from_text("2")), Ok(2));
}

#[test]
fn native_zero_is_out_of_range() {
    assert_eq!(decode_integer(0), Err(DecodeError::Range));
    assert_eq!(DerpNumeric::from_u64(0), Err(DecodeError::Range));
    assert_eq!(DecodeError::Range.message(), "invalid integer value");
}

#[test]
fn text_zero_is_out_of_range() {
    assert_eq!(decode_text("0"), Err(DecodeError::Range));
    assert_eq!(decode_text("000"), Err(DecodeError::Range));
    assert_eq!(DerpNumeric::from_text("0"), Err(DecodeError::Range));
}

#[test]
fn words_fail_to_parse() {
    assert_eq!(decode_text("notanumber"), Err(DecodeError::Parse));
    assert_eq!(decode_text("abc"), Err(DecodeError::Parse));
    assert_eq!(DecodeError::Parse.message(), "failed to parse integer");
}

#[test]
fn largest_value_and_the_one_above() {
    assert_eq!(decode_integer(4294967295), Ok(4294967295));
    assert_eq!(decode_integer(4294967296), Err(DecodeError::Range));
    assert_eq!(decode_text("4294967295"), Ok(4294967295));
    assert_eq!(decode_text("4294967296"), Err(DecodeError::Range));
}

#[test]
fn nothing_wraps_round_to_a_small_value() {
    assert_eq!(decode_integer(4294967297), Err(DecodeError::Range));
    assert_eq!(decode_integer(8589934592), Err(DecodeError::Range));
    assert_eq!(decode_integer(u64::MAX), Err(DecodeError::Range));
    assert_eq!(decode_text("4294967297"), Err(DecodeError::Range));
    assert_eq!(decode_text("18446744073709551615"), Err(DecodeError::Range));
}

#[test]
fn text_beyond_64_bits_fails_to_parse() {
    assert_eq!(decode_text("18446744073709551616"), Err(DecodeError::Parse));
    assert_eq!(decode_text("99999999999999999999"), Err(DecodeError::Parse));
    assert_eq!(decode_text("184467440737095516150"), Err(DecodeError::Parse));
    assert_eq!(parse_u64("18446744073709551615"), Some(u64::MAX));
    assert_eq!(parse_u64("18446744073709551616"), None);
}

#[test]
fn malformed_text_fails_to_parse() {
    for s in ["", "abc", "1.5", "-1", " 1", "1 ", " 3", "+1", "1e3", "0x10", "1_000", "12a", "a12"] {
        assert_eq!(decode_text(s), Err(DecodeError::Parse), "{s:?}");
        assert_eq!(parse_u64(s), None, "{s:?}");
    }
}

#[test]
fn text_outside_ascii_fails_to_parse() {
    for s in ["\u{661}", "1\u{e9}", "\u{ff11}\u{ff12}", "12\u{a0}"] {
        assert_eq!(decode_text(s), Err(DecodeError::Parse), "{s:?}");
    }
}

#[test]
fn leading_zeros_do_not_change_the_number() {
    assert_eq!(decode_text("007"), Ok(7));
    assert_eq!(decode_text("0000000000000000000000000000000042"), Ok(42));
    assert_eq!(parse_u64("0000000000000000000000000000000000"), Some(0));
}

#[test]
fn parse_reads_every_digit() {
    assert_eq!(parse_u64("0"), Some(0));
    assert_eq!(parse_u64("9"), Some(9));
    assert_eq!(parse_u64("10"), Some(10));
    assert_eq!(parse_u64("1234567890"), Some(1234567890));
    assert_eq!(parse_u64("9876543210123456789"), Some(9876543210123456789));
}

#[test]
fn decode_then_encode_gives_the_integer_back() {
    for n in [1u64, 2, 9, 10, 255, 65536, 2147483648, 4294967294, 4294967295] {
        let v: DerpNumeric = DerpNumeric::from_u64(n).unwrap();
        assert!(matches!(v.encode(), Token::Integer(m) if m == n));
        assert_eq!(u64::from(v.get()), n);
    }
}

#[test]
fn encode_then_decode_gives_the_value_back() {
    for n in [1u64, 77, 4294967295] {
        let v: DerpNumeric = DerpNumeric::from_u64(n).unwrap();
        assert_eq!(DerpNumeric::decode(&v.encode()), Ok(v));
    }
}

#[test]
fn text_and_integer_forms_agree() {
    for n in [0u64, 1, 2, 9, 10, 99, 100, 4294967295, 4294967296, u64::MAX] {
        let from_integer = DerpNumeric::decode(&Token::Integer(n));
        let from_text = DerpNumeric::decode(&Token::Text(n.to_string()));
        assert_eq!(from_integer, from_text, "{n}");
    }
}

#[test]
fn values_compare_by_their_number() {
    let a: DerpNumeric = DerpNumeric::from_u64(5).unwrap();
    let b: DerpNumeric = DerpNumeric::from_text("5").unwrap();
    let c: DerpNumeric = DerpNumeric::from_u64(6).unwrap();
    assert_eq!(a, b);
    assert_ne!(a, c);
    let copy = a;
    assert_eq!(copy.get(), a.get());
}

#[test]
fn expected_input_is_described() {
    assert_eq!(DerpNumeric::expecting(), "integer or string");
}

#[test]
fn a_cloned_token_decodes_alike() {
    let text = Token::Text(String::from("31"));
    let integer = Token::Integer(31);
    assert_eq!(number_of(DerpNumeric::decode(&text.clone())), Ok(31));
    assert_eq!(DerpNumeric::decode(&text.clone()), DerpNumeric::decode(&text));
    assert!(matches!(integer.clone(), Token::Integer(31)));
    assert!(matches!(text.clone(), Token::Text(s) if s == "31"));
}
