use image_converter::text::{chars_of, contains, list_contains, push_decimal, push_four_digits, str_eq, u64_to_string};

#[test]
fn contains_finds_a_run_anywhere() {
    assert!(contains("photo.avif", ".avif"));
    assert!(contains("a.webp.bak", ".webp"));
    assert!(contains("abc", ""));
    assert!(contains("", ""));
    assert!(contains("abc", "abc"));
}

#[test]
fn contains_rejects_what_is_not_there() {
    assert!(!contains("photo.png", ".avif"));
    assert!(!contains("ab", "abc"));
    assert!(!contains("", "a"));
    assert!(!contains("a.avi", ".avif"));
}

#[test]
fn contains_is_case_sensitive() {
    assert!(!contains("photo.PNG", ".png"));
}

#[test]
fn str_eq_compares_by_characters() {
    assert!(str_eq("jpeg", "jpeg"));
    assert!(!str_eq("jpeg", "jpg"));
    assert!(!str_eq("jpg", "JPG"));
    assert!(str_eq("", ""));
}

#[test]
fn chars_of_keeps_order_and_unicode() {
    assert_eq!(chars_of("a\u{2713}b"), vec!['a', '\u{2713}', 'b']);
    assert_eq!(chars_of(""), Vec::<char>::new());
}

#[test]
fn list_contains_matches_exactly() {
    let list = vec!["jpeg".to_string(), "jpg".to_string(), "png".to_string()];
    assert!(list_contains(&list, "jpg"));
    assert!(!list_contains(&list, "JPG"));
    assert!(!list_contains(&list, "jp"));
    assert!(!list_contains(&Vec::new(), "jpg"));
}

#[test]
fn decimal_numerals() {
    assert_eq!(u64_to_string(0), "0");
    assert_eq!(u64_to_string(7), "7");
    assert_eq!(u64_to_string(10), "10");
    assert_eq!(u64_to_string(1234567890), "1234567890");
    assert_eq!(u64_to_string(u64::MAX), "18446744073709551615");
}

#[test]
fn decimal_is_appended() {
    let mut s = String::from("n=");
    push_decimal(&mut s, 405);
    assert_eq!(s, "n=405");
}

#[test]
fn four_digits_are_zero_padded() {
    let mut s = String::new();
    push_four_digits(&mut s, 0);
    push_four_digits(&mut s, 7);
    push_four_digits(&mut s, 200);
    push_four_digits(&mut s, 9999);
    assert_eq!(s, "0000000702009999");
}
