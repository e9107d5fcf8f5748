use thermal_lab::text::{
    decimal_i64, decimal_u64, escape_quotes, first_line_of, is_whitespace, join, parse_u64, rfind,
    split,
    str_trim, str_trim_matches, wide,
};

#[test]
fn white_space_is_what_the_standard_library_says() {
    for code in 0u32..=0x1_0000 {
        if let Some(c) = char::from_u32(code) {
            assert_eq!(is_whitespace(c), c.is_whitespace(), "U+{code:04X}");
        }
    }
}

#[test]
fn trimming_and_splitting_behave_as_str_does() {
    assert_eq!(str_trim("\u{a0} a b \t\r\n"), "a b");
    assert_eq!(str_trim_matches("\"\"x\"y\"", '"'), "x\"y");
    assert_eq!(str_trim_matches("\"\"\"", '"'), "");
    let pieces: Vec<String> = split("a,,b,", ',');
    assert_eq!(pieces, vec!["a", "", "b", ""]);
    assert_eq!(join(&pieces, "+"), "a++b+");
    assert_eq!(first_line_of("x, y\r\nz").as_deref(), Some("x, y"));
    assert_eq!(first_line_of(""), None);
    assert_eq!(rfind(&"a(b(c".chars().collect(), '('), Some(3));
}

#[test]
fn numbers_and_wide_strings() {
    assert_eq!(decimal_u64(0), "0");
    assert_eq!(decimal_u64(u64::MAX), u64::MAX.to_string());
    assert_eq!(decimal_i64(i64::MIN), i64::MIN.to_string());
    assert_eq!(decimal_i64(-42), "-42");
    assert_eq!(escape_quotes("a\"b"), "a\\\"b");
    let w = wide("é€😀");
    let expected: Vec<u16> = "é€😀".encode_utf16().chain(std::iter::once(0)).collect();
    assert_eq!(w, expected);
}

#[test]
fn decimal_indices_are_read_as_numbers() {
    let p = |s: &str| parse_u64(&s.chars().collect());
    assert_eq!(p("0"), Some(0));
    assert_eq!(p("0010"), Some(10));
    assert_eq!(p("18446744073709551615"), Some(u64::MAX));
    assert_eq!(p("18446744073709551616"), None);
    assert_eq!(p(""), None);
    assert_eq!(p("1a"), None);
    assert_eq!(p("+1"), None);
}
