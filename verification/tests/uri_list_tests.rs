use ripdrag::uri_list::{decode, encode};

fn texts(items: &[&str]) -> Vec<String> {
    items.iter().map(|s| s.to_string()).collect()
}

#[test]
fn encode_of_nothing_is_no_payload() {
    assert_eq!(encode(&Vec::new()), None);
}

#[test]
fn encode_of_one_entry_is_the_entry() {
    assert_eq!(encode(&texts(&["file:///tmp/a.txt"])), Some("file:///tmp/a.txt".to_string()));
}

#[test]
fn encode_joins_with_line_feeds_and_no_trailing_separator() {
    let payload = encode(&texts(&["file:///tmp/a", "file:///tmp/b", "sftp://host/c"]));
    assert_eq!(payload, Some("file:///tmp/a\nfile:///tmp/b\nsftp://host/c".to_string()));
}

#[test]
fn encode_never_gives_an_empty_text() {
    assert_eq!(encode(&texts(&[""])), None);
    assert_eq!(encode(&texts(&["", ""])), Some("\n".to_string()));
}

#[test]
fn decode_splits_on_line_feeds() {
    assert_eq!(decode("file:///a\nfile:///b"), texts(&["file:///a", "file:///b"]));
}

#[test]
fn decode_takes_carriage_return_line_feed() {
    assert_eq!(decode("file:///a\r\nfile:///b\r\n"), texts(&["file:///a", "file:///b"]));
}

#[test]
fn decode_leaves_out_blank_lines() {
    assert_eq!(
        decode("\n\r\nfile:///a\n\n\r\n\nfile:///b\n\n"),
        texts(&["file:///a", "file:///b"])
    );
}

#[test]
fn decode_of_empty_text_is_empty() {
    assert_eq!(decode(""), Vec::<String>::new());
}

#[test]
fn decode_of_line_ends_alone_is_empty() {
    assert_eq!(decode("\n"), Vec::<String>::new());
    assert_eq!(decode("\r\n"), Vec::<String>::new());
    assert_eq!(decode("\r"), Vec::<String>::new());
    assert_eq!(decode("\n\r\n\n"), Vec::<String>::new());
    assert_eq!(decode("\r\r"), Vec::<String>::new());
}

#[test]
fn decode_of_one_line_without_line_end() {
    assert_eq!(decode("file:///only"), texts(&["file:///only"]));
}

#[test]
fn decode_takes_every_carriage_return_from_the_end_of_a_line() {
    assert_eq!(decode("a\r\r\nb"), texts(&["a", "b"]));
    assert_eq!(decode("a\r\r\r"), texts(&["a"]));
    assert_eq!(decode("\r\r\n"), Vec::<String>::new());
}

#[test]
fn decode_keeps_a_carriage_return_inside_a_line() {
    assert_eq!(decode("a\rb\n"), texts(&["a\rb"]));
    assert_eq!(decode("\ra\r\n"), texts(&["\ra"]));
}

#[test]
fn any_text_decodes_like_its_clean_form() {
    let cases = [
        ("x\r\r\n", "x\r"),
        ("a\r\n\r\nb\n\n\nc\r", "a\nb\nc\r"),
        ("\r\n\r\n", ""),
        ("\r\r\n\na", "\r\na"),
        ("a\rb\r\n\r", "a\rb\n\r"),
        ("", ""),
    ];
    for (text, clean) in cases {
        assert_eq!(decode(text), decode(clean));
    }
    assert_eq!(decode("x\r\r\n"), texts(&["x"]));
    assert_eq!(decode("a\r\n\r\nb\n\n\nc\r"), texts(&["a", "b", "c"]));
}

#[test]
fn decode_keeps_entries_that_are_no_uris() {
    assert_eq!(decode("not a uri\nfile:///a"), texts(&["not a uri", "file:///a"]));
}

#[test]
fn decode_counts_characters_not_bytes() {
    assert_eq!(
        decode("file:///tmp/gr\u{fc}\u{df}e\r\nfile:///tmp/\u{65e5}\u{672c}\n"),
        texts(&["file:///tmp/gr\u{fc}\u{df}e", "file:///tmp/\u{65e5}\u{672c}"])
    );
}

#[test]
fn round_trip_gives_the_same_entries_in_the_same_order() {
    let uris = texts(&["file:///tmp/b", "file:///tmp/a", "file:///tmp/b", "https://example.org/x?y=1"]);
    let payload = encode(&uris).unwrap();
    assert_eq!(decode(&payload), uris);
}

#[test]
fn round_trip_of_one_entry() {
    let uris = texts(&["file:///home/user/some%20file.txt"]);
    assert_eq!(decode(&encode(&uris).unwrap()), uris);
}

#[test]
fn messy_line_ends_decode_like_clean_ones() {
    let clean = "file:///a\nfile:///b\nfile:///c";
    let messy = "\r\n\nfile:///a\r\n\r\n\nfile:///b\n\r\nfile:///c\r\n\n";
    assert_eq!(decode(messy), decode(clean));
    assert_eq!(decode(clean), texts(&["file:///a", "file:///b", "file:///c"]));
}

#[test]
fn a_line_feed_inside_an_entry_does_not_round_trip() {
    let uris = texts(&["a\nb"]);
    assert_eq!(decode(&encode(&uris).unwrap()), texts(&["a", "b"]));
}
