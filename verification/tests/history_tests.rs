use meow_irc::history::InputHistory;

#[test]
fn blank_submissions_are_not_recorded() {
    let mut h = InputHistory::new();
    h.submit("");
    h.submit("   ");
    h.submit("\t");
    h.submit("\u{a0}\u{2003}");
    assert!(h.entries.is_empty());
    h.submit("hello");
    assert_eq!(h.entries, vec!["hello".to_string()]);
}

#[test]
fn up_enters_at_the_newest_and_clamps_at_the_oldest() {
    let mut h = InputHistory::new();
    h.submit("/join #a");
    h.submit("hello");
    assert_eq!(h.up().as_deref(), Some("hello"));
    assert_eq!(h.up().as_deref(), Some("/join #a"));
    assert_eq!(h.up().as_deref(), Some("/join #a"));
    assert_eq!(h.cursor, Some(0));
}

#[test]
fn up_twice_then_down_walks_back_toward_newer_entries() {
    // Browsing: two steps older lands on the oldest entry, and one step
    // newer returns to the entry after it.
    let mut h = InputHistory::new();
    h.submit("/join #a");
    h.submit("hello");
    assert_eq!(h.up().as_deref(), Some("hello"));
    assert_eq!(h.up().as_deref(), Some("/join #a"));
    assert_eq!(h.down().as_deref(), Some("hello"));
    assert_eq!(h.cursor, Some(1));
}

#[test]
fn down_past_the_newest_clears_the_line_and_the_cursor() {
    let mut h = InputHistory::new();
    h.submit("one");
    h.submit("two");
    assert_eq!(h.up().as_deref(), Some("two"));
    assert_eq!(h.down().as_deref(), Some(""));
    assert!(h.cursor.is_none());
}

#[test]
fn down_without_browsing_clears_the_line() {
    let mut h = InputHistory::new();
    h.submit("one");
    assert!(h.cursor.is_none());
    assert_eq!(h.down().as_deref(), Some(""));
    assert!(h.cursor.is_none());
}

#[test]
fn navigation_on_empty_history_changes_nothing() {
    let mut h = InputHistory::new();
    assert!(h.up().is_none());
    assert!(h.down().is_none());
    assert!(h.cursor.is_none());
}

#[test]
fn submitting_resets_the_cursor() {
    let mut h = InputHistory::new();
    h.submit("one");
    h.submit("two");
    h.up();
    assert!(h.cursor.is_some());
    h.submit("three");
    assert!(h.cursor.is_none());
    assert_eq!(h.entries.len(), 3);
}
