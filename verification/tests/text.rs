use oomhero::text::{
    chars_of, decimal_string, is_float_literal_chars, parse_i32, parse_u64, split_chars,
    split_whitespace_chars, trim_chars, IntErrorKind,
};

fn chars(s: &str) -> Vec<char> {
    s.chars().collect()
}

fn string(cs: &[char]) -> String {
    cs.iter().collect()
}

#[test]
fn parse_i32_matches_std() {
    let cases = [
        "0", "42", "-42", "+7", "2147483647", "-2147483648", "2147483648", "-2147483649", "",
        "-", "+", "12a", "a12", "99999999999x", " 1", "1 ", "max", "007", "--1", "+-1",
    ];
    for case in cases {
        let ours = parse_i32(&chars(case));
        let std = case.parse::<i32>().map_err(|e| match e.kind() {
            std::num::IntErrorKind::Empty => IntErrorKind::Empty,
            std::num::IntErrorKind::InvalidDigit => IntErrorKind::InvalidDigit,
            std::num::IntErrorKind::PosOverflow => IntErrorKind::PosOverflow,
            std::num::IntErrorKind::NegOverflow => IntErrorKind::NegOverflow,
            _ => unreachable!(),
        });
        assert_eq!(ours, std, "case {:?}", case);
    }
}

#[test]
fn parse_u64_matches_std() {
    let cases = [
        "0", "42", "-42", "+7", "-0", "4294967296", "18446744073709551615",
        "18446744073709551616", "", "-", "+", "12a", "a12", "99999999999999999999x", " 1",
        "1 ", "max", "007", "++1", "+-1",
    ];
    for case in cases {
        let ours = parse_u64(&chars(case));
        let std = case.parse::<u64>().map_err(|e| match e.kind() {
            std::num::IntErrorKind::Empty => IntErrorKind::Empty,
            std::num::IntErrorKind::InvalidDigit => IntErrorKind::InvalidDigit,
            std::num::IntErrorKind::PosOverflow => IntErrorKind::PosOverflow,
            std::num::IntErrorKind::NegOverflow => IntErrorKind::NegOverflow,
            _ => unreachable!(),
        });
        assert_eq!(ours, std, "case {:?}", case);
    }
}

#[test]
fn parse_u64_exact_values() {
    assert_eq!(parse_u64(&chars("4294967296")), Ok(4294967296));
    assert_eq!(parse_u64(&chars("-1")), Err(IntErrorKind::InvalidDigit));
    assert_eq!(parse_u64(&chars("18446744073709551616x")), Err(IntErrorKind::PosOverflow));
}

#[test]
fn parse_i32_overflow_before_invalid_digit() {
    assert_eq!(parse_i32(&chars("99999999999x")), Err(IntErrorKind::PosOverflow));
    assert_eq!(parse_i32(&chars("-99999999999x")), Err(IntErrorKind::NegOverflow));
    assert_eq!(parse_i32(&chars("9x99999999999")), Err(IntErrorKind::InvalidDigit));
}

#[test]
fn decimal_string_matches_display() {
    for n in [0, 1, 9, 10, 1234, -1, -10, i32::MAX, i32::MIN] {
        assert_eq!(decimal_string(n), n.to_string());
    }
}

#[test]
fn decimal_parses_back() {
    for n in [0, 7, -7, 65535, i32::MAX, i32::MIN] {
        let s = decimal_string(n);
        assert_eq!(parse_i32(&chars(&s)), Ok(n));
    }
}

#[test]
fn trim_matches_std() {
    for case in ["", "  ", " a ", "\t1000\n", "a b", "\u{3000}x\u{2003}", "\u{85}y"] {
        assert_eq!(string(&trim_chars(&chars(case))), case.trim());
    }
}

#[test]
fn split_whitespace_matches_std() {
    for case in ["", "  ", "some avg10=0.00  avg60=1.00\ttotal=3", " a  b ", "x"] {
        let ours: Vec<String> =
            split_whitespace_chars(&chars(case)).iter().map(|w| string(w)).collect();
        let std: Vec<String> = case.split_whitespace().map(|w| w.to_string()).collect();
        assert_eq!(ours, std);
    }
}

#[test]
fn split_matches_std() {
    for case in ["", "a=b", "a=b=c", "=", "abc", "a\0b\0"] {
        for sep in ['=', '\0'] {
            let ours: Vec<String> =
                split_chars(&chars(case), sep).iter().map(|w| string(w)).collect();
            let std: Vec<String> = case.split(sep).map(|w| w.to_string()).collect();
            assert_eq!(ours, std);
        }
    }
}

#[test]
fn float_literals_match_std() {
    let cases = [
        "0", "0.00", "1.", ".5", ".", "", "+1", "-1.5", "1e10", "1E-3", "1e", "e1", "inf",
        "-Infinity", "NaN", "+nan", "infin", "1.2.3", "abc", "1,5", " 1", "12_3", "0x10",
        "1e+5", "1.e3", ".e3", "4",
    ];
    for case in cases {
        assert_eq!(
            is_float_literal_chars(&chars(case)),
            case.parse::<f32>().is_ok(),
            "case {:?}",
            case
        );
    }
}

#[test]
fn chars_of_keeps_unicode() {
    assert_eq!(chars_of("añb"), vec!['a', 'ñ', 'b']);
}
