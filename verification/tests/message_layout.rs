use lead_barry::message_layout::split_message_into_lines;

fn lines(message: &str) -> Vec<String> {
    split_message_into_lines(message)
        .iter()
        .map(|l| l.as_str().to_string())
        .collect()
}

#[test]
fn empty_message_has_no_lines() {
    assert_eq!(lines(""), Vec::<String>::new());
}

#[test]
fn short_message_is_one_line() {
    assert_eq!(lines("Hello world"), vec!["Hello world".to_string()]);
}

#[test]
fn words_wrap_at_eighteen_characters() {
    assert_eq!(
        lines("Failed to join WiFi network. Starting AP..."),
        vec![
            "Failed to join".to_string(),
            "WiFi network.".to_string(),
            "Starting AP...".to_string(),
        ]
    );
}

#[test]
fn a_line_holds_exactly_eighteen_characters() {
    assert_eq!(
        lines("123456789 12345678 next"),
        vec!["123456789 12345678".to_string(), "next".to_string()]
    );
}

#[test]
fn long_word_is_cut_with_ellipsis() {
    assert_eq!(
        lines("abcdefghijklmnopqrstuvwxyz"),
        vec!["abcdefghijklmno...".to_string()]
    );
}

#[test]
fn paragraphs_leave_an_empty_line_between_them() {
    assert_eq!(
        lines("a\nb"),
        vec!["a".to_string(), "".to_string(), "b".to_string()]
    );
}

#[test]
fn text_beyond_three_lines_is_dropped() {
    assert_eq!(
        lines("one two three four five six seven eight nine ten eleven twelve"),
        vec![
            "one two three four".to_string(),
            "five six seven".to_string(),
            "eight nine ten".to_string(),
        ]
    );
}

#[test]
fn trailing_lines_are_dropped_by_count_of_filled_lines() {
    // The first line stays empty, the word lands on the second line, and
    // only as many lines are kept as hold text: the first one.
    assert_eq!(lines(" x"), vec!["".to_string()]);
}

#[test]
fn invitation_message_layout() {
    assert_eq!(
        lines("192.168.1.1 on your device."),
        vec!["192.168.1.1 on".to_string(), "your device.".to_string()]
    );
}
