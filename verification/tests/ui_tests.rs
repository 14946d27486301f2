use meow_irc::command::InputCommand;
use meow_irc::config::ConnectDefaults;
use meow_irc::ui::{Key, Ui};

fn engine() -> Ui {
    Ui::new(20, 2, 5, ConnectDefaults { port: 6697, nick: "meow".to_string(), tls: true })
}

fn type_line(ui: &mut Ui, line: &str) {
    for c in line.chars() {
        let out = ui.on_key(Key::Char(c));
        assert!(out.command.is_none());
        assert!(!out.quit);
    }
}

#[test]
fn characters_edit_the_end_of_the_input_line() {
    let mut ui = engine();
    type_line(&mut ui, "hey");
    assert_eq!(ui.input_string(), "hey");
    ui.on_key(Key::Backspace);
    assert_eq!(ui.input_string(), "he");
    ui.on_key(Key::Backspace);
    ui.on_key(Key::Backspace);
    ui.on_key(Key::Backspace);
    assert_eq!(ui.input_string(), "");
}

#[test]
fn enter_submits_parses_and_echoes() {
    let mut ui = engine();
    type_line(&mut ui, "hello");
    let out = ui.on_key(Key::Enter);
    match out.command {
        Some(InputCommand::SendPlainMessage(body)) => assert_eq!(body, "hello"),
        _ => panic!("expected a plain message"),
    }
    assert!(!out.quit);
    assert_eq!(ui.input_string(), "");
    let lines = ui.scrollback.flat_lines();
    assert_eq!(lines, vec!["  You: hello        ".to_string()]);
    assert_eq!(ui.history.entries, vec!["hello".to_string()]);
}

#[test]
fn escape_quits_without_touching_state() {
    let mut ui = engine();
    type_line(&mut ui, "draft");
    let out = ui.on_key(Key::Esc);
    assert!(matches!(out.command, Some(InputCommand::Quit)));
    assert!(out.quit);
    assert_eq!(ui.input_string(), "draft");
}

#[test]
fn quit_line_submits_a_quit_command() {
    let mut ui = engine();
    type_line(&mut ui, "/quit");
    let out = ui.on_key(Key::Enter);
    assert!(matches!(out.command, Some(InputCommand::Quit)));
    assert!(out.quit);
}

#[test]
fn history_browsing_restores_earlier_lines() {
    let mut ui = engine();
    type_line(&mut ui, "/join #a");
    ui.on_key(Key::Enter);
    type_line(&mut ui, "hello");
    ui.on_key(Key::Enter);
    ui.on_key(Key::Up);
    assert_eq!(ui.input_string(), "hello");
    ui.on_key(Key::Up);
    assert_eq!(ui.input_string(), "/join #a");
    ui.on_key(Key::Down);
    assert_eq!(ui.input_string(), "hello");
    ui.on_key(Key::Down);
    assert_eq!(ui.input_string(), "");
    assert!(ui.history.cursor.is_none());
}

#[test]
fn typing_stops_history_browsing() {
    let mut ui = engine();
    type_line(&mut ui, "one");
    ui.on_key(Key::Enter);
    ui.on_key(Key::Up);
    assert!(ui.history.cursor.is_some());
    ui.on_key(Key::Char('!'));
    assert!(ui.history.cursor.is_none());
    assert_eq!(ui.input_string(), "one!");
}

#[test]
fn paging_moves_the_viewport_and_enter_resets_it() {
    let mut ui = engine();
    for i in 0..12u32 {
        ui.note_line(&format!("line {}", i));
    }
    assert_eq!(ui.scroll_offset, 0);
    ui.on_key(Key::PageUp);
    assert_eq!(ui.scroll_offset, 5);
    ui.on_key(Key::PageUp);
    assert_eq!(ui.scroll_offset, 10);
    ui.on_key(Key::PageUp);
    assert_eq!(ui.scroll_offset, 11);
    ui.on_key(Key::PageDown);
    assert_eq!(ui.scroll_offset, 6);
    type_line(&mut ui, "x");
    ui.on_key(Key::Enter);
    assert_eq!(ui.scroll_offset, 0);
}

#[test]
fn inbound_lines_are_wrapped_into_the_scrollback() {
    let mut ui = engine();
    ui.note_line("abcdefghijklmnopqrstuvwx");
    let lines = ui.scrollback.flat_lines();
    assert_eq!(
        lines,
        vec!["  abcdefghijklmnopqr".to_string(), "  stuvwx            ".to_string()]
    );
}

#[test]
fn visible_window_shows_the_tail_of_the_scrollback() {
    let mut ui = engine();
    for i in 0..9u32 {
        ui.note_line(&format!("m{}", i));
    }
    let window = ui.visible_lines();
    assert_eq!(window.len(), 5);
    assert_eq!(window[0], "  m4                ");
    assert_eq!(window[4], "  m8                ");
}

#[test]
fn help_panel_lands_in_the_scrollback_without_a_command() {
    let mut ui = engine();
    type_line(&mut ui, "/help");
    let out = ui.on_key(Key::Enter);
    assert!(out.command.is_none());
    assert!(!out.quit);
    assert_eq!(ui.scrollback.group_count(), 10);
}
