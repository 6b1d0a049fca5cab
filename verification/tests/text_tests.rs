use ripdrag::text::{chars_of, push_decimal};

fn decimal_of(n: usize) -> String {
    let mut text = String::new();
    push_decimal(&mut text, n);
    text
}

#[test]
fn the_characters_of_a_text() {
    assert_eq!(chars_of(""), Vec::<char>::new());
    assert_eq!(chars_of("a\u{e9}\n"), vec!['a', '\u{e9}', '\n']);
}

#[test]
fn numbers_are_written_in_decimal_digits() {
    assert_eq!(decimal_of(0), "0");
    assert_eq!(decimal_of(7), "7");
    assert_eq!(decimal_of(10), "10");
    assert_eq!(decimal_of(109), "109");
    assert_eq!(decimal_of(1234567890), "1234567890");
    assert_eq!(decimal_of(usize::MAX), usize::MAX.to_string());
}

#[test]
fn digits_are_put_at_the_end() {
    let mut text = "n=".to_string();
    push_decimal(&mut text, 42);
    assert_eq!(text, "n=42");
}
