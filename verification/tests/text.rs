use mvts::text::{chars_of, decimal_string, join_strings, parse_bool, parse_u32, signed_decimal_string, to_uppercase, IntErrorKind};

#[test]
fn decimal_formatting_matches_display() {
    for n in [0u64, 1, 9, 10, 99, 100, 12345, u64::MAX] {
        assert_eq!(decimal_string(n), n.to_string());
    }
    for v in [0i32, -1, 42, i32::MIN, i32::MAX] {
        assert_eq!(signed_decimal_string(v), v.to_string());
    }
}

#[test]
fn u32_parsing_matches_std() {
    let cases = ["", "0", "+", "-", "+1", "-1", "12a", "4294967295", "4294967296", "00012", " 1", "1 ", "99999999999", "٣"];
    for case in cases {
        let ours = parse_u32(case);
        let std = case.parse::<u32>();
        match (ours, std) {
            (Ok(a), Ok(b)) => assert_eq!(a, b, "case {case:?}"),
            (Err(kind), Err(e)) => assert_eq!(kind.description(), e.to_string(), "case {case:?}"),
            (a, b) => panic!("case {case:?}: {a:?} vs {b:?}"),
        }
    }
    assert_eq!(parse_u32(""), Err(IntErrorKind::Empty));
}

#[test]
fn bool_parsing_matches_std() {
    for case in ["true", "false", "True", "", "1"] {
        assert_eq!(parse_bool(case), case.parse::<bool>().ok());
    }
}

#[test]
fn chars_and_join() {
    assert_eq!(chars_of("aß€"), vec!['a', 'ß', '€']);
    assert_eq!(join_strings(&vec!["a".to_string(), "b".to_string()], ", "), "a, b");
    assert_eq!(join_strings(&vec![], ", "), "");
    assert_eq!(to_uppercase("straße"), "STRASSE");
}
