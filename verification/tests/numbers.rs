use obj_mesh::decimal::Decimal;
use obj_mesh::digits::read_digit;
use obj_mesh::index::{index_of_token, resolve_index};
use obj_mesh::pattern::is_whole_line;

#[test]
fn numeral_is_written_back_as_read() {
    for token in
        ["1.000000", "-1.000000", "0.340000", "-0.0", "007.500", "123456789012345678901234567890.5"]
    {
        assert_eq!(Decimal::from_token(token).to_text(), token);
    }
}

#[test]
fn text_that_is_no_numeral_counts_as_zero() {
    for token in [
        "", "-", ".", "1", "1.", ".5", "-.5", "--1.5", "+1.5", "1.5.5", "1.5e3", "1,5", " 1.5",
        "1.5 ", "1.-5", "a.b", "\u{0661}.\u{0662}", "inf", "nan",
    ] {
        assert_eq!(Decimal::from_token(token).to_text(), "0.0", "{:?}", token);
        assert_eq!(Decimal::from_token(token), Decimal::zero());
    }
}

#[test]
fn zero_and_default_are_the_same_numeral() {
    assert_eq!(Decimal::zero().to_text(), "0.0");
    assert_eq!(Decimal::default(), Decimal::zero());
    assert!(!Decimal::zero().is_negative());
}

#[test]
fn negative_needs_a_sign_and_a_digit_that_is_not_zero() {
    assert!(Decimal::from_token("-0.625000").is_negative());
    assert!(Decimal::from_token("-1.0").is_negative());
    assert!(Decimal::from_token("-0.000001").is_negative());
    assert!(Decimal::from_token("-100.0").is_negative());
    assert!(!Decimal::from_token("-0.0").is_negative());
    assert!(!Decimal::from_token("-000.000").is_negative());
    assert!(!Decimal::from_token("0.625000").is_negative());
    assert!(!Decimal::from_token("0.0").is_negative());
    assert!(!Decimal::from_token("--1.0").is_negative());
}

#[test]
fn clone_of_a_numeral_is_equal_to_it() {
    let number = Decimal::from_token("-12.5");
    assert_eq!(number.clone(), number);
    assert_eq!(number.clone().to_text(), "-12.5");
}

#[test]
fn whole_line_is_group_zero_equal_to_the_line() {
    let found = Some(vec![Some("v 1.0 2.0 3.0".to_string()), Some("1.0".to_string())]);
    assert!(is_whole_line(&found, "v 1.0 2.0 3.0"));
    assert!(!is_whole_line(&found, "xv 1.0 2.0 3.0"));
    assert!(!is_whole_line(&found, "v 1.0 2.0 3.0 4.0"));
    assert!(!is_whole_line(&found, "v 1.0 2.0 3.0 "));
    assert!(!is_whole_line(&found, ""));
    assert!(!is_whole_line(&None, "v 1.0 2.0 3.0"));
    assert!(!is_whole_line(&None, ""));
    assert!(!is_whole_line(&Some(Vec::new()), ""));
    assert!(!is_whole_line(&Some(vec![None]), ""));
    assert!(is_whole_line(&Some(vec![Some(String::new())]), ""));
}

#[test]
fn digits_are_read_and_written() {
    assert_eq!(read_digit('0'), Some(0));
    assert_eq!(read_digit('7'), Some(7));
    assert_eq!(read_digit('9'), Some(9));
    assert_eq!(read_digit('a'), None);
    assert_eq!(read_digit('/'), None);
    assert_eq!(read_digit(':'), None);
    assert_eq!(read_digit('\u{0661}'), None);
    for d in 0u8..=9 {
        assert_eq!(read_digit(d.to_string().chars().next().unwrap()), Some(d));
    }
}

#[test]
fn index_is_read_from_a_token() {
    assert_eq!(index_of_token("1"), 1);
    assert_eq!(index_of_token("14"), 14);
    assert_eq!(index_of_token("-1"), -1);
    assert_eq!(index_of_token("-2"), -2);
    assert_eq!(index_of_token("0"), 0);
    assert_eq!(index_of_token("-0"), 0);
    assert_eq!(index_of_token("007"), 7);
    assert_eq!(index_of_token("2147483647"), 2147483647);
    assert_eq!(index_of_token("-2147483648"), -2147483648);
    assert_eq!(index_of_token("00000000000000000000002147483647"), 2147483647);
}

#[test]
fn token_that_is_no_index_counts_as_zero() {
    for token in [
        "", "-", "--1", "+1", "1.5", "1 ", " 1", "a", "1a", "\u{0661}", "2147483648",
        "-2147483649", "99999999999999999999", "-99999999999999999999",
    ] {
        assert_eq!(index_of_token(token), 0, "{:?}", token);
    }
}

#[test]
fn positive_index_counts_from_one() {
    assert_eq!(resolve_index(1, 3), Some(0));
    assert_eq!(resolve_index(2, 3), Some(1));
    assert_eq!(resolve_index(3, 3), Some(2));
    assert_eq!(resolve_index(4, 3), None);
    assert_eq!(resolve_index(1, 0), None);
    assert_eq!(resolve_index(i32::MAX, 3), None);
}

#[test]
fn negative_index_counts_back_from_the_end() {
    assert_eq!(resolve_index(-1, 8), Some(7));
    assert_eq!(resolve_index(-2, 8), Some(6));
    assert_eq!(resolve_index(-8, 8), Some(0));
    assert_eq!(resolve_index(-9, 8), None);
    assert_eq!(resolve_index(-1, 0), None);
    assert_eq!(resolve_index(i32::MIN, 8), None);
}

#[test]
fn index_zero_names_no_element() {
    assert_eq!(resolve_index(0, 0), None);
    assert_eq!(resolve_index(0, 1), None);
    assert_eq!(resolve_index(0, 8), None);
}
