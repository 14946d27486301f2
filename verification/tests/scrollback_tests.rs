use meow_irc::scrollback::{page_down, page_up, visible_end, visible_start, ScrollbackBuffer};

#[test]
fn appending_beyond_capacity_evicts_the_oldest() {
    let mut sb = ScrollbackBuffer::new();
    for i in 0..101u32 {
        sb.push_group(vec![format!("msg{}", i)]);
    }
    assert_eq!(sb.group_count(), 100);
    let flat = sb.flat_lines();
    assert_eq!(flat.len(), 100);
    assert_eq!(flat[0], "msg1");
    assert_eq!(flat[99], "msg100");
}

#[test]
fn capacity_is_never_exceeded() {
    let mut sb = ScrollbackBuffer::new();
    for i in 0..250u32 {
        sb.push_group(vec![format!("a{}", i), format!("b{}", i)]);
        assert!(sb.group_count() <= 100);
    }
    assert_eq!(sb.group_count(), 100);
    assert_eq!(sb.flat_lines().len(), 200);
}

#[test]
fn flat_lines_preserves_group_order() {
    let mut sb = ScrollbackBuffer::new();
    sb.push_group(vec!["one-a".to_string(), "one-b".to_string()]);
    sb.push_group(vec!["two".to_string()]);
    assert_eq!(
        sb.flat_lines(),
        vec!["one-a".to_string(), "one-b".to_string(), "two".to_string()]
    );
}

#[test]
fn visible_window_is_the_tail_shifted_by_the_offset() {
    let mut sb = ScrollbackBuffer::new();
    for i in 0..30u32 {
        sb.push_group(vec![format!("l{}", i)]);
    }
    let window = sb.visible_lines(20, 0);
    assert_eq!(window.len(), 20);
    assert_eq!(window[0], "l10");
    assert_eq!(window[19], "l29");
    let shifted = sb.visible_lines(20, 5);
    assert_eq!(shifted.len(), 20);
    assert_eq!(shifted[0], "l5");
    assert_eq!(shifted[19], "l24");
    let few = sb.visible_lines(40, 0);
    assert_eq!(few.len(), 30);
}

#[test]
fn window_bounds_match_the_original_arithmetic() {
    assert_eq!(visible_start(30, 20, 0), 10);
    assert_eq!(visible_start(30, 20, 5), 5);
    assert_eq!(visible_start(15, 20, 0), 0);
    assert_eq!(visible_end(30, 0), 30);
    assert_eq!(visible_end(30, 5), 25);
    assert_eq!(visible_end(3, 7), 0);
}

#[test]
fn page_up_advances_by_five_and_clamps() {
    assert_eq!(page_up(0, 30), 5);
    assert_eq!(page_up(25, 30), 29);
    assert_eq!(page_up(29, 30), 29);
    assert_eq!(page_up(0, 0), 0);
    assert_eq!(page_up(0, 3), 2);
}

#[test]
fn page_down_retreats_by_five_and_clamps_at_zero() {
    assert_eq!(page_down(12), 7);
    assert_eq!(page_down(5), 0);
    assert_eq!(page_down(3), 0);
    assert_eq!(page_down(0), 0);
}
