use meow_irc::command::InputCommand;
use meow_irc::session::{
    apply_aliases, connect_error_line, dispatch_error_line, dispatch_ok_line, reconnect_attempt_line,
    reconnect_delay, reconnect_error_line, CommandOutcome, Outbound, Session,
};
use meow_irc::color::Rgb;

fn no_aliases() -> Vec<(String, String)> {
    Vec::new()
}

fn connected_session() -> Session {
    let mut s = Session::new();
    let out = s.handle_command(
        InputCommand::Connect {
            server: "irc.example.org".to_string(),
            port: 6667,
            nick: "meow".to_string(),
            tls: false,
        },
        &no_aliases(),
    );
    let params = match out {
        CommandOutcome::Connect(p) => p,
        _ => panic!("expected a connect attempt"),
    };
    s.connect_succeeded(params);
    s
}

#[test]
fn reconnect_delay_follows_capped_schedule() {
    assert_eq!(reconnect_delay(1), 5);
    assert_eq!(reconnect_delay(2), 10);
    assert_eq!(reconnect_delay(11), 55);
    assert_eq!(reconnect_delay(12), 60);
    assert_eq!(reconnect_delay(13), 60);
    assert_eq!(reconnect_delay(1_000_000), 60);
}

#[test]
fn fresh_connect_scenario_stores_params_and_reports() {
    let mut s = Session::new();
    let out = s.handle_command(
        InputCommand::Connect {
            server: "irc.example.org".to_string(),
            port: 6667,
            nick: "meow".to_string(),
            tls: false,
        },
        &no_aliases(),
    );
    let params = match out {
        CommandOutcome::Connect(p) => p,
        _ => panic!("expected a connect attempt"),
    };
    assert_eq!(params.server, "irc.example.org");
    assert_eq!(params.port, 6667);
    assert_eq!(params.nick, "meow");
    assert!(!params.tls);
    let line = s.connect_succeeded(params);
    assert_eq!(line, "Connected to irc.example.org:6667 as meow without TLS");
    assert!(s.connected);
    let stored = s.last_params.as_ref().expect("parameters stored");
    assert_eq!(stored.server, "irc.example.org");
}

#[test]
fn connect_with_tls_reports_with_tls() {
    let mut s = Session::new();
    let out = s.handle_command(
        InputCommand::Connect {
            server: "irc.libera.chat".to_string(),
            port: 6697,
            nick: "kitten".to_string(),
            tls: true,
        },
        &no_aliases(),
    );
    let params = match out {
        CommandOutcome::Connect(p) => p,
        _ => panic!("expected a connect attempt"),
    };
    let line = s.connect_succeeded(params);
    assert_eq!(line, "Connected to irc.libera.chat:6697 as kitten with TLS");
}

#[test]
fn send_message_without_connection_is_refused_locally() {
    let mut s = Session::new();
    let out = s.handle_command(
        InputCommand::SendMessage { target: "bob".to_string(), message: "hi".to_string() },
        &no_aliases(),
    );
    match out {
        CommandOutcome::Lines(lines) => {
            assert_eq!(lines, vec!["Not connected. Use /connect first.".to_string()]);
        }
        _ => panic!("expected only a diagnostic, no dispatch"),
    }
    assert!(!s.connected);
}

#[test]
fn join_without_connection_is_refused_locally() {
    let mut s = Session::new();
    let out = s.handle_command(InputCommand::JoinChannel("#rust".to_string()), &no_aliases());
    match out {
        CommandOutcome::Lines(lines) => {
            assert_eq!(lines, vec!["Not connected. Use /connect first.".to_string()]);
        }
        _ => panic!("expected only a diagnostic, no dispatch"),
    }
    assert!(s.current_channel.is_none());
}

#[test]
fn part_without_connection_is_refused_locally() {
    let mut s = Session::new();
    let out = s.handle_command(InputCommand::PartChannel("#rust".to_string()), &no_aliases());
    match out {
        CommandOutcome::Lines(lines) => {
            assert_eq!(lines, vec!["Not connected. Use /connect first.".to_string()]);
        }
        _ => panic!("expected only a diagnostic, no dispatch"),
    }
}

#[test]
fn plain_message_with_nothing_set_asks_for_a_join() {
    let mut s = Session::new();
    let out = s.handle_command(InputCommand::SendPlainMessage("hi".to_string()), &no_aliases());
    match out {
        CommandOutcome::Lines(lines) => {
            assert_eq!(lines, vec!["Not in a channel. Use /join.".to_string()]);
        }
        _ => panic!("expected only a diagnostic, no dispatch"),
    }
}

#[test]
fn plain_message_without_connection_is_refused_locally() {
    // A channel can outlive its connection (it is kept for the rejoin);
    // plain input then fails on the connection, not the channel.
    let mut s = connected_session();
    s.handle_command(InputCommand::JoinChannel("#rust".to_string()), &no_aliases());
    s.handle_command(InputCommand::Disconnected, &no_aliases());
    assert_eq!(s.current_channel.as_deref(), Some("#rust"));
    let out = s.handle_command(InputCommand::SendPlainMessage("hi".to_string()), &no_aliases());
    match out {
        CommandOutcome::Lines(lines) => {
            assert_eq!(lines, vec!["Not connected. Use /connect first.".to_string()]);
        }
        _ => panic!("expected only a diagnostic, no dispatch"),
    }
}

#[test]
fn plain_message_without_channel_is_refused_locally() {
    let mut s = connected_session();
    let out = s.handle_command(InputCommand::SendPlainMessage("hi".to_string()), &no_aliases());
    match out {
        CommandOutcome::Lines(lines) => {
            assert_eq!(lines, vec!["Not in a channel. Use /join.".to_string()]);
        }
        _ => panic!("expected only a diagnostic, no dispatch"),
    }
}

#[test]
fn join_sets_channel_optimistically() {
    let mut s = connected_session();
    let out = s.handle_command(InputCommand::JoinChannel("#rust".to_string()), &no_aliases());
    match out {
        CommandOutcome::Dispatch(Outbound::Join { channel }) => assert_eq!(channel, "#rust"),
        _ => panic!("expected a join dispatch"),
    }
    assert_eq!(s.current_channel.as_deref(), Some("#rust"));
}

#[test]
fn part_clears_channel_only_when_it_matches() {
    let mut s = connected_session();
    s.handle_command(InputCommand::JoinChannel("#rust".to_string()), &no_aliases());
    let out = s.handle_command(InputCommand::PartChannel("#other".to_string()), &no_aliases());
    match out {
        CommandOutcome::Dispatch(Outbound::Part { channel }) => assert_eq!(channel, "#other"),
        _ => panic!("expected a part dispatch"),
    }
    assert_eq!(s.current_channel.as_deref(), Some("#rust"));
    let out = s.handle_command(InputCommand::PartChannel("#rust".to_string()), &no_aliases());
    match out {
        CommandOutcome::Dispatch(Outbound::Part { channel }) => assert_eq!(channel, "#rust"),
        _ => panic!("expected a part dispatch"),
    }
    assert!(s.current_channel.is_none());
}

#[test]
fn plain_message_goes_to_current_channel() {
    let mut s = connected_session();
    s.handle_command(InputCommand::JoinChannel("#rust".to_string()), &no_aliases());
    let out = s.handle_command(InputCommand::SendPlainMessage("hello".to_string()), &no_aliases());
    match out {
        CommandOutcome::Dispatch(Outbound::PrivmsgChannel { channel, body }) => {
            assert_eq!(channel, "#rust");
            assert_eq!(body, "hello");
        }
        _ => panic!("expected a channel message dispatch"),
    }
}

#[test]
fn send_message_applies_emoji_aliases() {
    let mut s = connected_session();
    let aliases = vec![("cat".to_string(), "\u{1f431}".to_string())];
    let out = s.handle_command(
        InputCommand::SendMessage { target: "bob".to_string(), message: "hi :cat:!".to_string() },
        &aliases,
    );
    match out {
        CommandOutcome::Dispatch(Outbound::PrivmsgTo { target, body }) => {
            assert_eq!(target, "bob");
            assert_eq!(body, "hi \u{1f431}!");
        }
        _ => panic!("expected a message dispatch"),
    }
}

#[test]
fn apply_aliases_replaces_in_list_order() {
    let aliases = vec![
        ("a".to_string(), "x".to_string()),
        ("b".to_string(), "y".to_string()),
    ];
    assert_eq!(apply_aliases(":a: :b: :a:", &aliases), "x y x");
    assert_eq!(apply_aliases("no aliases here", &aliases), "no aliases here");
    assert_eq!(apply_aliases(":a::a:", &aliases), "xx");
}

#[test]
fn quit_requests_notice_only_when_connected() {
    let mut s = Session::new();
    match s.handle_command(InputCommand::Quit, &no_aliases()) {
        CommandOutcome::Quit { send_notice } => assert!(!send_notice),
        _ => panic!("expected quit"),
    }
    let mut s = connected_session();
    match s.handle_command(InputCommand::Quit, &no_aliases()) {
        CommandOutcome::Quit { send_notice } => assert!(send_notice),
        _ => panic!("expected quit"),
    }
}

#[test]
fn disconnect_with_params_starts_reconnection() {
    let mut s = connected_session();
    let out = s.handle_command(InputCommand::Disconnected, &no_aliases());
    match out {
        CommandOutcome::LinesThenReconnect { lines, params } => {
            assert_eq!(
                lines,
                vec!["*** Disconnected from IRC server. Attempting to reconnect...".to_string()]
            );
            assert_eq!(params.server, "irc.example.org");
        }
        _ => panic!("expected reconnection to start"),
    }
    assert!(!s.connected);
    assert_eq!(reconnect_attempt_line(1), "Attempting reconnection #1...");
    assert_eq!(reconnect_attempt_line(17), "Attempting reconnection #17...");
}

#[test]
fn disconnect_without_params_reports_and_stays_idle() {
    let mut s = Session::new();
    let out = s.handle_command(InputCommand::Disconnected, &no_aliases());
    match out {
        CommandOutcome::Lines(lines) => {
            assert_eq!(
                lines,
                vec![
                    "*** Disconnected from IRC server. Attempting to reconnect...".to_string(),
                    "Cannot reconnect: no previous connection configuration found.".to_string(),
                ]
            );
        }
        _ => panic!("expected diagnostics only"),
    }
    assert!(!s.connected);
}

#[test]
fn reconnect_success_restores_connection_and_rejoins() {
    let mut s = connected_session();
    s.handle_command(InputCommand::JoinChannel("#rust".to_string()), &no_aliases());
    s.handle_command(InputCommand::Disconnected, &no_aliases());
    assert!(!s.connected);
    let (line, rejoin) = s.reconnect_succeeded();
    assert_eq!(line, "*** Reconnected successfully!");
    assert!(s.connected);
    match rejoin {
        Some(Outbound::Rejoin { channel }) => assert_eq!(channel, "#rust"),
        _ => panic!("expected a rejoin of the current channel"),
    }
    let mut idle = connected_session();
    idle.handle_command(InputCommand::Disconnected, &no_aliases());
    let (_, rejoin) = idle.reconnect_succeeded();
    assert!(rejoin.is_none());
}

#[test]
fn error_lines_have_exact_shapes() {
    assert_eq!(connect_error_line("timed out"), "Error connecting: timed out");
    assert_eq!(
        reconnect_error_line(3, "refused"),
        "Error during reconnection attempt #3: refused"
    );
    let to = Outbound::PrivmsgTo { target: "bob".to_string(), body: "hi".to_string() };
    assert_eq!(dispatch_error_line(&to, "boom"), "Error sending to bob: boom");
    let ch = Outbound::PrivmsgChannel { channel: "#rust".to_string(), body: "hi".to_string() };
    assert_eq!(dispatch_error_line(&ch, "boom"), "Error sending: boom");
    let join = Outbound::Join { channel: "#rust".to_string() };
    assert_eq!(dispatch_error_line(&join, "boom"), "Error joining #rust: boom");
    let part = Outbound::Part { channel: "#rust".to_string() };
    assert_eq!(dispatch_error_line(&part, "boom"), "Error parting #rust: boom");
    let rejoin = Outbound::Rejoin { channel: "#rust".to_string() };
    assert_eq!(dispatch_error_line(&rejoin, "boom"), "Error rejoining #rust: boom");
}

#[test]
fn dispatch_confirmations_have_exact_shapes() {
    let join = Outbound::Join { channel: "#rust".to_string() };
    assert_eq!(dispatch_ok_line(&join, None), "*** Joined #rust");
    let part = Outbound::Part { channel: "#rust".to_string() };
    assert_eq!(dispatch_ok_line(&part, None), "*** Left #rust");
    let rejoin = Outbound::Rejoin { channel: "#rust".to_string() };
    assert_eq!(dispatch_ok_line(&rejoin, None), "*** Rejoined #rust");
    let to = Outbound::PrivmsgTo { target: "bob".to_string(), body: "hi".to_string() };
    assert_eq!(
        dispatch_ok_line(&to, None),
        "\u{1b}[1m\u{1b}[38;2;128;0;128m<You->bob>\u{1b}[0m hi"
    );
    let ch = Outbound::PrivmsgChannel { channel: "#rust".to_string(), body: "hi".to_string() };
    assert_eq!(
        dispatch_ok_line(&ch, Some(Rgb { r: 1, g: 2, b: 3 })),
        "\u{1b}[1m\u{1b}[38;2;1;2;3m<You (#rust) :>\u{1b}[0m hi"
    );
}
