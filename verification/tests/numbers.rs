use rustormy::numbers::{int_error_text, parse_u16, parse_u32, parse_u8, signed_decimal, IntErrorKind};
use rustormy::text::{decimal, trim};

#[test]
fn unsigned_numerals_read_as_std_reads_them() {
    for s in ["", "+", "-", "-1", "+7", "007", "255", "256", "1a", "9999", " 1"] {
        let ours = parse_u8(s);
        let std = s.parse::<u8>();
        match (ours, std) {
            (Ok(a), Ok(b)) => assert_eq!(a, b, "{s:?}"),
            (Err(k), Err(e)) => assert_eq!(int_error_text(k), format!("{e:?}"), "{s:?}"),
            (a, b) => panic!("{s:?}: {a:?} against {b:?}"),
        }
    }
    assert_eq!(parse_u16("65535"), Ok(65535));
    assert_eq!(parse_u16("65536"), Err(IntErrorKind::PosOverflow));
    assert_eq!(parse_u32("4294967295"), Ok(4294967295));
    assert_eq!(parse_u32("99999999999x"), Err(IntErrorKind::PosOverflow));
}

#[test]
fn numerals_read_back() {
    for n in [0u64, 7, 10, 255, 65535, 4294967295] {
        assert_eq!(parse_u32(&decimal(n)), Ok(n as u32));
    }
}

#[test]
fn signed_numerals() {
    assert_eq!(signed_decimal(0), "0");
    assert_eq!(signed_decimal(-42), "-42");
    assert_eq!(signed_decimal(i64::MIN), i64::MIN.to_string());
    assert_eq!(signed_decimal(i64::MAX), i64::MAX.to_string());
}

#[test]
fn trimming_matches_str_trim() {
    for s in ["", "   ", " a ", "\u{3000}b\t", "a b", "\u{a0}x\u{2029}"] {
        assert_eq!(trim(s), s.trim(), "{s:?}");
    }
}
