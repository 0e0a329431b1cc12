use posterbot_constructor::text::{
    chars_of, i64_decimal, parse_i32_chars, parse_i64_chars, replace_all_chars, split_chars,
    str_eq, string_of, trim_chars, u64_decimal,
};

fn s(v: &[char]) -> String {
    v.iter().collect()
}

#[test]
fn strings_and_characters_convert_both_ways() {
    let v = chars_of("Привет, мир 👋");
    assert_eq!(v.len(), 13);
    assert_eq!(string_of(&v), "Привет, мир 👋");
    assert_eq!(string_of(&[]), "");
    assert!(str_eq("abc", "abc"));
    assert!(!str_eq("abc", "abd"));
    assert!(!str_eq("abc", "ab"));
}

#[test]
fn decimals_are_written_as_display_writes_them() {
    assert_eq!(s(&i64_decimal(i64::MIN)), i64::MIN.to_string());
    assert_eq!(s(&i64_decimal(-7)), "-7");
    assert_eq!(s(&i64_decimal(0)), "0");
    assert_eq!(s(&u64_decimal(u64::MAX)), u64::MAX.to_string());
}

#[test]
fn numbers_are_read_as_parse_reads_them() {
    let t = chars_of("x+42 -9223372036854775808 9223372036854775808 2147483648 -0 ");
    assert_eq!(parse_i64_chars(&t, 1, 4), Some(42));
    assert_eq!(parse_i64_chars(&t, 5, 25), Some(i64::MIN));
    assert_eq!(parse_i64_chars(&t, 26, 45), None);
    assert_eq!(parse_i32_chars(&t, 46, 56), None);
    assert_eq!(parse_i32_chars(&t, 57, 59), Some(0));
    assert_eq!(parse_i64_chars(&t, 0, 0), None);
    assert_eq!(parse_i64_chars(&chars_of("+"), 0, 1), None);
    assert_eq!(parse_i64_chars(&chars_of("1 2"), 0, 3), None);
}

#[test]
fn trimming_splitting_and_replacing() {
    assert_eq!(s(&trim_chars(&chars_of(" \t\n a b \u{3000}"))), "a b");
    let parts = split_chars(&chars_of("a/b//c"), '/');
    let parts: Vec<String> = parts.iter().map(|p| s(p)).collect();
    assert_eq!(parts, vec!["a", "b", "", "c"]);
    assert_eq!(
        s(&replace_all_chars(&chars_of("{x}+{x}"), &chars_of("{x}"), &chars_of("{x}{x}"))),
        "{x}{x}+{x}{x}"
    );
}
