use ascm_article::text::{
    chars_of, concat2, decimal_i64, decimal_u128, hex_lower, is_whitespace, pad2, parse_i32,
    parse_u32, parse_u64, split_char, str_equal, trim, trim_matches, IntErrorKind,
};

fn kind_of(e: &std::num::ParseIntError) -> IntErrorKind {
    match e.kind() {
        std::num::IntErrorKind::Empty => IntErrorKind::Empty,
        std::num::IntErrorKind::InvalidDigit => IntErrorKind::InvalidDigit,
        std::num::IntErrorKind::PosOverflow => IntErrorKind::PosOverflow,
        std::num::IntErrorKind::NegOverflow => IntErrorKind::NegOverflow,
        other => panic!("unexpected kind {:?}", other),
    }
}

#[test]
fn split_keeps_empty_pieces() {
    assert_eq!(split_char("2026-01-23", '-'), vec!["2026", "01", "23"]);
    assert_eq!(split_char("", '-'), vec![""]);
    assert_eq!(split_char("-a--b-", '-'), vec!["", "a", "", "b", ""]);
    assert_eq!(split_char("no separator", ','), vec!["no separator"]);
    assert_eq!(split_char("1'2'3", '\''), vec!["1", "2", "3"]);
}

#[test]
fn split_then_join_gives_back_the_text() {
    for s in ["a,b,,c", ",", "", "x", ",lead", "trail,"] {
        assert_eq!(split_char(s, ',').join(","), s);
    }
}

#[test]
fn trim_matches_std() {
    for s in ["  a b  ", "\t\n x\u{3000}", "", "   ", "\u{a0}y\u{2009}", "plain"] {
        assert_eq!(trim(s), s.trim());
    }
    for s in [",a,b,", ",,,", "", "a", ",,x,,y,,"] {
        assert_eq!(trim_matches(s, ','), s.trim_matches(','));
    }
}

#[test]
fn whitespace_agrees_with_std_on_every_char() {
    for n in 0u32..=0x10FFFF {
        if let Some(c) = char::from_u32(n) {
            assert_eq!(is_whitespace(c), c.is_whitespace(), "char {:x}", n);
        }
    }
}

#[test]
fn unsigned_parsing_matches_std() {
    let cases = [
        "0", "42", "+7", "", "+", "-1", " 1", "1 ", "18446744073709551615",
        "18446744073709551616", "4294967295", "4294967296", "007", "1a", "99999999999999999999x",
        "x99999999999999999999", "4294967296x", "-", "++1", "12345678901234567890123",
    ];
    for s in cases {
        assert_eq!(parse_u64(s).ok(), s.parse::<u64>().ok(), "u64 {:?}", s);
        assert_eq!(parse_u32(s).ok(), s.parse::<u32>().ok(), "u32 {:?}", s);
        assert_eq!(parse_u64(s).err(), s.parse::<u64>().err().map(|e| kind_of(&e)), "u64 {:?}", s);
        assert_eq!(parse_u32(s).err(), s.parse::<u32>().err().map(|e| kind_of(&e)), "u32 {:?}", s);
        assert_eq!(
            parse_u32(s).err().map(|k| k.message()),
            s.parse::<u32>().err().map(|e| e.to_string()),
            "u32 {:?}",
            s
        );
    }
}

#[test]
fn signed_parsing_matches_std() {
    let cases = [
        "0", "-0", "+12", "-12", "-", "+", "", "2147483647", "2147483648", "-2147483648",
        "-2147483649", "--1", "-+1", "01", "-9999999999x", "-x9999999999", "+-1", "21474836470",
    ];
    for s in cases {
        assert_eq!(parse_i32(s).ok(), s.parse::<i32>().ok(), "i32 {:?}", s);
        assert_eq!(parse_i32(s).err(), s.parse::<i32>().err().map(|e| kind_of(&e)), "i32 {:?}", s);
        assert_eq!(
            parse_i32(s).err().map(|k| k.message()),
            s.parse::<i32>().err().map(|e| e.to_string()),
            "i32 {:?}",
            s
        );
    }
}

#[test]
fn decimal_formatting_matches_format() {
    for n in [0u128, 7, 10, 99, 100, 1_700_000_000_000, u128::MAX] {
        assert_eq!(decimal_u128(n), format!("{}", n));
    }
    for n in [0i64, -1, 5, -2026, i64::MIN, i64::MAX] {
        assert_eq!(decimal_i64(n), format!("{}", n));
    }
    for n in [0u32, 1, 9, 10, 12, 31, 123] {
        assert_eq!(pad2(n), format!("{:02}", n));
    }
}

#[test]
fn decimal_reads_back() {
    for n in [0u64, 1, 10, 12345, u64::MAX] {
        assert_eq!(parse_u64(&decimal_u128(n as u128)).ok(), Some(n));
    }
}

#[test]
fn hex_is_two_lower_digits_per_byte() {
    assert_eq!(hex_lower(&[0x00, 0x0f, 0xa0, 0xff]), "000fa0ff");
    assert_eq!(hex_lower(&[]), "");
}

#[test]
fn small_string_helpers() {
    assert_eq!(chars_of("舟a"), vec!['舟', 'a']);
    assert_eq!(concat2("ab", "c"), "abc");
    assert!(str_equal("一版", "一版"));
    assert!(!str_equal("一版", "二版"));
}
