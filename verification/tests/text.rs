use simple_archive::text::{decimal_text, not_found_text};

#[test]
fn decimal_of_single_digits() {
    for (n, s) in [(0u32, "0"), (1, "1"), (4, "4"), (9, "9")] {
        assert_eq!(decimal_text(n), s);
    }
}

#[test]
fn decimal_of_longer_numbers() {
    assert_eq!(decimal_text(10), "10");
    assert_eq!(decimal_text(11), "11");
    assert_eq!(decimal_text(22), "22");
    assert_eq!(decimal_text(100), "100");
    assert_eq!(decimal_text(16384), "16384");
    assert_eq!(decimal_text(u32::MAX), "4294967295");
}

#[test]
fn decimal_agrees_with_std() {
    for n in (0u32..3000).chain([65535, 1_000_000, 999_999_999]) {
        assert_eq!(decimal_text(n), n.to_string());
    }
}

#[test]
fn not_found_message_names_the_path() {
    assert_eq!(
        not_found_text("does_not_exist.txt"),
        "path does_not_exist.txt doesn't exist inside archive"
    );
    assert_eq!(not_found_text(""), "path  doesn't exist inside archive");
}
