use tg_captain::reply::render_failure;
use tg_captain::text::{
    char_is_space, chars_of, eq_ignoring_ascii_case, i64_to_string, parse_i64, parse_u32,
    slice_of, split_on, u64_to_string,
};

#[test]
fn white_space_is_the_unicode_class() {
    for c in ['\t', '\n', '\u{b}', '\u{c}', '\r', ' ', '\u{85}', '\u{a0}', '\u{1680}', '\u{2000}',
        '\u{200a}', '\u{2028}', '\u{2029}', '\u{202f}', '\u{205f}', '\u{3000}']
    {
        assert!(char_is_space(c));
    }
    for c in ['a', '0', '\u{200b}', '\u{1f}', '\u{feff}', '_'] {
        assert!(!char_is_space(c));
    }
    let mut code: u32 = 0;
    while code < 0x3100 {
        if let Some(c) = char::from_u32(code) {
            assert_eq!(char_is_space(c), c.is_whitespace());
        }
        code += 1;
    }
}

#[test]
fn characters_and_slices_count_characters_not_bytes() {
    assert_eq!(chars_of("aé€"), vec!['a', 'é', '€']);
    assert_eq!(slice_of("aé€z", 1, 3), "é€");
    assert_eq!(slice_of("abc", 2, 2), "");
}

#[test]
fn numbers_are_written_in_decimal() {
    assert_eq!(u64_to_string(0), "0");
    assert_eq!(u64_to_string(7), "7");
    assert_eq!(u64_to_string(1234567890), "1234567890");
    assert_eq!(u64_to_string(u64::MAX), "18446744073709551615");
    assert_eq!(i64_to_string(0), "0");
    assert_eq!(i64_to_string(-1), "-1");
    assert_eq!(i64_to_string(8080), "8080");
    assert_eq!(i64_to_string(i64::MAX), "9223372036854775807");
    assert_eq!(i64_to_string(i64::MIN), "-9223372036854775808");
}

#[test]
fn signed_numbers_are_read_as_the_standard_library_reads_them() {
    let cases = ["0", "12", "-12", "+12", "007", "-0", "9223372036854775807",
        "9223372036854775808", "-9223372036854775808", "-9223372036854775809", "", "+", "-",
        " 1", "1 ", "1a", "--1", "+-1", "1_000", "٣", "99999999999999999999999999"];
    for text in cases {
        assert_eq!(parse_i64(text), text.parse::<i64>().ok());
    }
    assert_eq!(parse_i64("1234"), Some(1234));
    assert_eq!(parse_i64("-5"), Some(-5));
    assert_eq!(parse_i64("abc"), None);
}

#[test]
fn ports_are_read_as_the_standard_library_reads_them() {
    let cases = ["0", "80", "+443", "-0", "-1", "4294967295", "4294967296", "", "+", "8o", "0080"];
    for text in cases {
        assert_eq!(parse_u32(text), text.parse::<u32>().ok());
    }
    assert_eq!(parse_u32("8080"), Some(8080));
    assert_eq!(parse_u32("-0"), None);
}

#[test]
fn case_of_ascii_letters_is_ignored() {
    assert!(eq_ignoring_ascii_case("YES", "yes"));
    assert!(eq_ignoring_ascii_case("yEs", "Yes"));
    assert!(eq_ignoring_ascii_case("", ""));
    assert!(!eq_ignoring_ascii_case("yes", "yes "));
    assert!(!eq_ignoring_ascii_case("yes", "yet"));
    assert!(!eq_ignoring_ascii_case("É", "é"));
    assert!(!eq_ignoring_ascii_case("@", "`"));
}

#[test]
fn fields_are_what_stands_between_separators() {
    assert_eq!(split_on("http:example.org:80", ':'), vec!["http", "example.org", "80"]);
    assert_eq!(split_on("", ':'), vec![""]);
    assert_eq!(split_on("a", ':'), vec!["a"]);
    assert_eq!(split_on(":", ':'), vec!["", ""]);
    assert_eq!(split_on("a::b:", ':'), vec!["a", "", "b", ""]);
    for text in ["x:y", "::", "no separator", ":lead", "trail:", "é:€"] {
        let expected: Vec<String> = text.split(':').map(|s| s.to_string()).collect();
        assert_eq!(split_on(text, ':'), expected);
    }
}

#[test]
fn a_fault_is_rendered_with_the_fixed_prefix() {
    assert_eq!(render_failure("connection refused"), "Failed with err: connection refused");
    assert_eq!(render_failure(""), "Failed with err: ");
}
