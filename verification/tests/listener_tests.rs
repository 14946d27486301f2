use meow_irc::color::Rgb;
use meow_irc::command::InputCommand;
use meow_irc::listener::{listener_step, IrcEvent, StreamItem};
use meow_irc::session::{reconnect_attempt_line, reconnect_delay, CommandOutcome, Session};

#[test]
fn end_of_stream_signals_exactly_one_disconnect() {
    let st = listener_step(StreamItem::EndOfStream, None);
    assert_eq!(st.lines, vec!["*** Connection closed".to_string()]);
    assert!(st.pong.is_none());
    assert!(st.disconnect);
    assert!(st.stop);
}

#[test]
fn end_of_stream_drives_reconnection_notices() {
    let mut session = Session::new();
    let out = session.handle_command(
        InputCommand::Connect {
            server: "irc.example.org".to_string(),
            port: 6667,
            nick: "meow".to_string(),
            tls: false,
        },
        &Vec::new(),
    );
    let params = match out {
        CommandOutcome::Connect(p) => p,
        _ => panic!("expected a connect attempt"),
    };
    session.connect_succeeded(params);

    // The stream ends: the listener owes exactly one disconnect signal.
    let step = listener_step(StreamItem::EndOfStream, None);
    assert!(step.disconnect);

    // The controller turns that signal into the disconnect notice and the
    // reconnection loop; the first attempt is announced after five seconds.
    let out = session.handle_command(InputCommand::Disconnected, &Vec::new());
    match out {
        CommandOutcome::LinesThenReconnect { lines, .. } => {
            assert_eq!(
                lines,
                vec!["*** Disconnected from IRC server. Attempting to reconnect...".to_string()]
            );
        }
        _ => panic!("expected reconnection to start"),
    }
    assert_eq!(reconnect_delay(1), 5);
    assert_eq!(reconnect_attempt_line(1), "Attempting reconnection #1...");
}

#[test]
fn transport_error_reports_and_disconnects() {
    let st = listener_step(StreamItem::TransportError("broken pipe".to_string()), None);
    assert_eq!(st.lines, vec!["*** Connection error: broken pipe".to_string()]);
    assert!(st.disconnect);
    assert!(st.stop);
}

#[test]
fn protocol_error_reports_and_disconnects() {
    let st = listener_step(
        StreamItem::Event(IrcEvent::ErrorMsg { text: "Closing Link".to_string() }),
        None,
    );
    assert_eq!(st.lines, vec!["IRC Error: Closing Link".to_string()]);
    assert!(st.disconnect);
    assert!(st.stop);
}

#[test]
fn channel_text_is_formatted_with_sender_nick() {
    let st = listener_step(
        StreamItem::Event(IrcEvent::Privmsg {
            prefix: Some("alice!alice@host".to_string()),
            target: "#rust".to_string(),
            body: "hey there".to_string(),
        }),
        None,
    );
    assert_eq!(
        st.lines,
        vec!["\u{1b}[1m\u{1b}[38;2;128;0;128m<alice>\u{1b}[0m hey there".to_string()]
    );
    assert!(!st.disconnect);
    assert!(!st.stop);
}

#[test]
fn direct_text_is_marked_as_to_you() {
    let st = listener_step(
        StreamItem::Event(IrcEvent::Privmsg {
            prefix: Some("alice!alice@host".to_string()),
            target: "meow".to_string(),
            body: "psst".to_string(),
        }),
        Some(Rgb { r: 9, g: 8, b: 7 }),
    );
    assert_eq!(
        st.lines,
        vec!["\u{1b}[1m\u{1b}[38;2;9;8;7m<alice->You>\u{1b}[0m psst".to_string()]
    );
}

#[test]
fn action_payload_is_formatted_distinctly() {
    let st = listener_step(
        StreamItem::Event(IrcEvent::Privmsg {
            prefix: Some("alice!alice@host".to_string()),
            target: "#rust".to_string(),
            body: "\u{1}ACTION waves\u{1}".to_string(),
        }),
        None,
    );
    assert_eq!(
        st.lines,
        vec!["\u{1b}[1m\u{1b}[38;2;128;0;128m* alice\u{1b}[0m waves".to_string()]
    );
}

#[test]
fn action_payload_without_keyword_keeps_inner_text() {
    let st = listener_step(
        StreamItem::Event(IrcEvent::Privmsg {
            prefix: None,
            target: "#rust".to_string(),
            body: "\u{1}beeps\u{1}".to_string(),
        }),
        None,
    );
    assert_eq!(
        st.lines,
        vec!["\u{1b}[1m\u{1b}[38;2;128;0;128m* \u{1b}[0m beeps".to_string()]
    );
}

#[test]
fn ping_is_answered_with_a_pong() {
    let st = listener_step(
        StreamItem::Event(IrcEvent::Ping { token: "server-token".to_string() }),
        None,
    );
    assert_eq!(st.lines, vec!["*** Ping received".to_string()]);
    assert_eq!(st.pong.as_deref(), Some("server-token"));
    assert!(!st.disconnect);
}

#[test]
fn membership_and_notice_events_get_star_prefix() {
    let join = listener_step(
        StreamItem::Event(IrcEvent::Join {
            prefix: Some("bob!b@h".to_string()),
            channel: "#rust".to_string(),
        }),
        None,
    );
    assert_eq!(join.lines, vec!["*** bob joined #rust".to_string()]);
    let part = listener_step(
        StreamItem::Event(IrcEvent::Part {
            prefix: Some("bob!b@h".to_string()),
            channel: "#rust".to_string(),
        }),
        None,
    );
    assert_eq!(part.lines, vec!["*** bob left #rust".to_string()]);
    let notice = listener_step(
        StreamItem::Event(IrcEvent::Notice {
            prefix: Some("services!s@h".to_string()),
            target: "meow".to_string(),
            body: "welcome back".to_string(),
        }),
        None,
    );
    assert_eq!(notice.lines, vec!["*** -services- welcome back".to_string()]);
    let mode = listener_step(
        StreamItem::Event(IrcEvent::Mode {
            target: "#rust".to_string(),
            details: "+o bob".to_string(),
        }),
        None,
    );
    assert_eq!(mode.lines, vec!["*** Mode #rust +o bob".to_string()]);
}

#[test]
fn numeric_codes_get_known_prefixes_or_generic_form() {
    let welcome = listener_step(
        StreamItem::Event(IrcEvent::Numeric { code: 1, text: "Welcome to the network".to_string() }),
        None,
    );
    assert_eq!(welcome.lines, vec!["*** Welcome: Welcome to the network".to_string()]);
    for code in [372u16, 375, 376] {
        let motd = listener_step(
            StreamItem::Event(IrcEvent::Numeric { code, text: "line".to_string() }),
            None,
        );
        assert_eq!(motd.lines, vec!["*** MOTD: line".to_string()]);
    }
    let other = listener_step(
        StreamItem::Event(IrcEvent::Numeric { code: 433, text: "Nickname in use".to_string() }),
        None,
    );
    assert_eq!(other.lines, vec!["*** 433: Nickname in use".to_string()]);
}

#[test]
fn unhandled_events_are_emitted_verbatim() {
    let st = listener_step(
        StreamItem::Event(IrcEvent::Other { raw: ":server KICK #rust meow".to_string() }),
        None,
    );
    assert_eq!(st.lines, vec![":server KICK #rust meow".to_string()]);
    assert!(!st.disconnect);
}
