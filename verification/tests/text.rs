use crawlers::number::{metric_of, push_decimal, push_padded, push_signed_decimal};
use crawlers::text::{
    byte_len_reaches, chars_of, join_all, join_strings, lines_of, range_contains_char,
    range_contains_folded, split_on, string_of, trim_bounds, trimmed, without_leading,
    without_trailing,
};

fn chars(s: &str) -> Vec<char> {
    s.chars().collect()
}

#[test]
fn chars_and_back() {
    assert_eq!(chars_of("a世b"), vec!['a', '世', 'b']);
    assert_eq!(string_of(&chars("a世b")), "a世b");
    assert_eq!(string_of(&chars_of("")), "");
}

#[test]
fn trimming_takes_unicode_white_space_off_both_ends() {
    assert_eq!(trimmed("  a b \t\r\n"), "a b");
    assert_eq!(trimmed("\u{a0}\u{3000}x\u{2028}"), "x");
    assert_eq!(trimmed(" \n "), "");
    assert_eq!(trimmed(""), "");
    let v = chars("--  ab  --");
    assert_eq!(trim_bounds(&v, 2, 8), (4, 6));
}

#[test]
fn trimming_agrees_with_std_on_every_white_space_character() {
    for code in 0u32..0x3100 {
        if let Some(c) = char::from_u32(code) {
            let s = format!("{}x{}", c, c);
            assert_eq!(trimmed(&s), s.trim(), "U+{:04X}", code);
        }
    }
}

#[test]
fn slashes_are_taken_off_one_end_only() {
    assert_eq!(without_leading("//a/b/", '/'), "a/b/");
    assert_eq!(without_trailing("http://x/y//", '/'), "http://x/y");
    assert_eq!(without_leading("///", '/'), "");
    assert_eq!(without_trailing("", '/'), "");
}

#[test]
fn length_is_counted_in_bytes() {
    let v = chars("aé世𝄞");
    assert!(byte_len_reaches(&v, 0, 4, 10));
    assert!(!byte_len_reaches(&v, 0, 4, 11));
    assert!(byte_len_reaches(&v, 1, 3, 5));
    assert!(!byte_len_reaches(&v, 1, 3, 6));
    assert!(byte_len_reaches(&v, 2, 2, 0));
    assert!(!byte_len_reaches(&v, 2, 2, 1));
    assert!(!byte_len_reaches(&v, 0, 4, usize::MAX));
}

#[test]
fn search_sets_ascii_case_aside() {
    let v = chars("The UNIVERSITY of Somewhere");
    assert!(range_contains_folded(&v, 0, v.len(), &chars("university")));
    assert!(range_contains_folded(&v, 0, v.len(), &chars("")));
    assert!(!range_contains_folded(&v, 5, v.len(), &chars("university")));
    assert!(!range_contains_folded(&v, 0, v.len(), &chars("institute")));
    assert!(range_contains_folded(&v, 0, v.len(), &chars("SOMEWHERE")));
    assert!(range_contains_char(&v, 0, v.len(), 'S'));
    assert!(!range_contains_char(&v, 0, v.len(), 's'));
}

#[test]
fn splitting_keeps_empty_pieces_and_lines_drop_the_last() {
    let pieces: Vec<String> = split_on(&chars("a,,b,"), ',').iter().map(string_of).collect();
    assert_eq!(pieces, vec!["a", "", "b", ""]);
    let one: Vec<String> = split_on(&chars(""), ',').iter().map(string_of).collect();
    assert_eq!(one, vec![""]);
    let lines: Vec<String> = lines_of(&chars("x\ny\n\nz\n")).iter().map(string_of).collect();
    assert_eq!(lines, vec!["x", "y", "", "z"]);
    assert!(lines_of(&chars("")).is_empty());
    let open: Vec<String> = lines_of(&chars("x\ny")).iter().map(string_of).collect();
    assert_eq!(open, vec!["x", "y"]);
}

#[test]
fn joining_puts_the_separator_between_parts() {
    let parts = vec!["a".to_string(), "b".to_string(), "c".to_string()];
    assert_eq!(join_strings(&parts, ", "), "a, b, c");
    assert_eq!(join_strings(&parts[..1].to_vec(), ", "), "a");
    assert_eq!(join_strings(&Vec::new(), ", "), "");
    let joined = join_all(&vec![chars("x"), chars(""), chars("y")], &chars("-"));
    assert_eq!(string_of(&joined), "x--y");
}

#[test]
fn numbers_in_decimal_notation() {
    let mut out = chars("n=");
    push_decimal(&mut out, 0);
    out.push(' ');
    push_decimal(&mut out, 1234567890123456789);
    out.push(' ');
    push_decimal(&mut out, u64::MAX);
    assert_eq!(string_of(&out), "n=0 1234567890123456789 18446744073709551615");
    let mut signed = Vec::new();
    push_signed_decimal(&mut signed, -42);
    signed.push(' ');
    push_signed_decimal(&mut signed, i64::MIN);
    signed.push(' ');
    push_signed_decimal(&mut signed, 7);
    assert_eq!(string_of(&signed), "-42 -9223372036854775808 7");
    let mut padded = Vec::new();
    push_padded(&mut padded, 5, 2);
    padded.push(' ');
    push_padded(&mut padded, 123, 2);
    padded.push(' ');
    push_padded(&mut padded, 0, 4);
    assert_eq!(string_of(&padded), "05 123 0000");
}

#[test]
fn the_digits_of_a_mixed_text_spell_its_metric() {
    assert_eq!(metric_of(&chars("1,234 stars")), 1234);
    assert_eq!(metric_of(&chars("  42")), 42);
    assert_eq!(metric_of(&chars("95.5")), 955);
    assert_eq!(metric_of(&chars("no digits")), 0);
    assert_eq!(metric_of(&chars("")), 0);
    assert_eq!(metric_of(&chars("007")), 7);
    assert_eq!(metric_of(&chars("4294967295")), u32::MAX);
    assert_eq!(metric_of(&chars("4294967296")), 0);
    assert_eq!(metric_of(&chars("99999999999999999999999999")), 0);
}
