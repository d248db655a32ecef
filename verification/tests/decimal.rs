use pokedex::decimal::{decimal_string, digit_of, parse_u32, push_decimal};

#[test]
fn digits_are_read_by_value() {
    assert_eq!(digit_of('0'), Some(0));
    assert_eq!(digit_of('7'), Some(7));
    assert_eq!(digit_of('9'), Some(9));
}

#[test]
fn other_characters_are_no_digits() {
    assert_eq!(digit_of('/'), None);
    assert_eq!(digit_of(':'), None);
    assert_eq!(digit_of('a'), None);
    assert_eq!(digit_of('+'), None);
    // an Arabic-Indic digit is a digit to Unicode, and none here
    assert_eq!(digit_of('\u{0663}'), None);
}

#[test]
fn plain_numerals_are_read() {
    assert_eq!(parse_u32("0"), Some(0));
    assert_eq!(parse_u32("1"), Some(1));
    assert_eq!(parse_u32("25"), Some(25));
    assert_eq!(parse_u32("10277"), Some(10277));
}

#[test]
fn leading_zeros_do_not_count() {
    assert_eq!(parse_u32("007"), Some(7));
    assert_eq!(parse_u32("0000000000000000000042"), Some(42));
}

#[test]
fn one_plus_sign_may_lead() {
    assert_eq!(parse_u32("+25"), Some(25));
    assert_eq!(parse_u32("+0"), Some(0));
}

#[test]
fn a_sign_alone_is_no_numeral() {
    assert_eq!(parse_u32("+"), None);
    assert_eq!(parse_u32("++1"), None);
    assert_eq!(parse_u32("1+"), None);
    assert_eq!(parse_u32("+"), "+".parse::<u32>().ok());
}

#[test]
fn the_empty_text_is_no_numeral() {
    assert_eq!(parse_u32(""), None);
}

#[test]
fn a_minus_sign_is_refused() {
    assert_eq!(parse_u32("-1"), None);
    assert_eq!(parse_u32("-0"), None);
}

#[test]
fn stray_characters_are_refused() {
    assert_eq!(parse_u32("abc"), None);
    assert_eq!(parse_u32("12a"), None);
    assert_eq!(parse_u32("a12"), None);
    assert_eq!(parse_u32(" 12"), None);
    assert_eq!(parse_u32("12 "), None);
    assert_eq!(parse_u32("1_000"), None);
    assert_eq!(parse_u32("0x10"), None);
    assert_eq!(parse_u32("\u{0661}\u{0662}"), None);
}

#[test]
fn the_largest_value_is_read_and_the_next_is_not() {
    assert_eq!(parse_u32("4294967295"), Some(u32::MAX));
    assert_eq!(parse_u32("+4294967295"), Some(u32::MAX));
    assert_eq!(parse_u32("4294967296"), None);
    assert_eq!(parse_u32("4294967300"), None);
    assert_eq!(parse_u32("42949672950"), None);
    assert_eq!(parse_u32("99999999999999999999999"), None);
    assert_eq!(parse_u32("004294967295"), Some(u32::MAX));
}

#[test]
fn reading_agrees_with_the_standard_library() {
    let samples = [
        "", "0", "00", "1", "9", "10", "+", "+1", "-1", "+-1", "++1", "1+1", "42", "4294967294",
        "4294967295", "4294967296", "5000000000", "12345678901234567890", "abc", "1a", "a1", "1 ",
        " 1", "٣", "１２", "1.0", "1e3", "+00012", "0+",
    ];
    for text in samples {
        assert_eq!(parse_u32(text), text.parse::<u32>().ok(), "reading {:?}", text);
    }
}

#[test]
fn numbers_are_written_in_the_shortest_form() {
    assert_eq!(decimal_string(0), "0");
    assert_eq!(decimal_string(7), "7");
    assert_eq!(decimal_string(10), "10");
    assert_eq!(decimal_string(20), "20");
    assert_eq!(decimal_string(1302), "1302");
    assert_eq!(decimal_string(4294967295), "4294967295");
}

#[test]
fn writing_appends_to_what_is_there() {
    let mut out = String::from("limit=");
    push_decimal(&mut out, 905);
    assert_eq!(out, "limit=905");
    push_decimal(&mut out, 0);
    assert_eq!(out, "limit=9050");
}

#[test]
fn writing_agrees_with_the_standard_library() {
    let mut n: u32 = 0;
    loop {
        assert_eq!(decimal_string(n), n.to_string());
        if n > u32::MAX / 7 {
            break;
        }
        n = n * 7 + 3;
    }
    assert_eq!(decimal_string(u32::MAX), u32::MAX.to_string());
}

#[test]
fn what_is_written_reads_back() {
    for n in [0u32, 1, 9, 10, 11, 99, 100, 101, 65535, 65536, 999999999, 1000000000, u32::MAX] {
        assert_eq!(parse_u32(&decimal_string(n)), Some(n));
    }
}
