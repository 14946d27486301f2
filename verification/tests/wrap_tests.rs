use meow_irc::wrap::format_message;

#[test]
fn short_message_is_padded_to_the_width() {
    let lines = format_message("hi", 10, 2);
    assert_eq!(lines, vec!["  hi      ".to_string()]);
}

#[test]
fn long_message_wraps_greedily_mid_word() {
    let lines = format_message("hello world", 10, 2);
    assert_eq!(lines, vec!["  hello wo".to_string(), "  rld     ".to_string()]);
}

#[test]
fn empty_message_yields_no_lines() {
    let lines = format_message("", 10, 2);
    assert!(lines.is_empty());
}

#[test]
fn exact_width_lines_need_no_padding() {
    let lines = format_message("abcdef", 3, 0);
    assert_eq!(lines, vec!["abc".to_string(), "def".to_string()]);
}

#[test]
fn rewrapping_a_wrapped_line_reproduces_it() {
    let lines = format_message("abcdef", 3, 0);
    for line in lines {
        let again = format_message(&line, 3, 0);
        assert_eq!(again, vec![line]);
    }
}

#[test]
fn style_escapes_do_not_count_toward_the_width() {
    // Four visible characters under a bold escape fit a width of four.
    let lines = format_message("\u{1b}[1mabcd\u{1b}[0m", 4, 0);
    assert_eq!(lines, vec!["\u{1b}[1mabcd\u{1b}[0m".to_string()]);
}

#[test]
fn wrapping_breaks_on_visible_characters_only() {
    let lines = format_message("\u{1b}[31mabcdef", 4, 0);
    assert_eq!(lines, vec!["\u{1b}[31mabcd".to_string(), "ef  ".to_string()]);
}

#[test]
fn padding_wider_than_the_terminal_still_emits_single_columns() {
    // With no room at all, every visible character forces a break, so an
    // empty first line precedes one line per character.
    let lines = format_message("abc", 2, 2);
    assert_eq!(
        lines,
        vec!["  ".to_string(), "  a".to_string(), "  b".to_string(), "  c".to_string()]
    );
}
