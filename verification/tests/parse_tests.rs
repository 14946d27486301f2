use meow_irc::color::{parse_color, Rgb};
use meow_irc::command::InputCommand;
use meow_irc::config::{connect_defaults, ConnectDefaults, IrcConfig, UserConfig};
use meow_irc::input::{parse_line, prefix_message};

fn defaults() -> ConnectDefaults {
    ConnectDefaults { port: 6697, nick: "meow".to_string(), tls: true }
}

#[test]
fn connect_takes_the_server_and_the_configured_defaults() {
    let p = parse_line("/connect irc.example.org", &defaults());
    match p.command {
        Some(InputCommand::Connect { server, port, nick, tls }) => {
            assert_eq!(server, "irc.example.org");
            assert_eq!(port, 6697);
            assert_eq!(nick, "meow");
            assert!(tls);
        }
        _ => panic!("expected a connect command"),
    }
    assert_eq!(p.lines, vec!["You: /connect irc.example.org".to_string()]);
    assert!(!p.quit);
}

#[test]
fn connect_without_a_server_sends_an_empty_server() {
    let p = parse_line("/connect", &defaults());
    match p.command {
        Some(InputCommand::Connect { server, .. }) => assert_eq!(server, ""),
        _ => panic!("expected a connect command"),
    }
}

#[test]
fn join_and_part_take_the_whole_argument() {
    let p = parse_line("/join #rust", &defaults());
    match p.command {
        Some(InputCommand::JoinChannel(ch)) => assert_eq!(ch, "#rust"),
        _ => panic!("expected a join command"),
    }
    let p = parse_line("/part #rust", &defaults());
    match p.command {
        Some(InputCommand::PartChannel(ch)) => assert_eq!(ch, "#rust"),
        _ => panic!("expected a part command"),
    }
}

#[test]
fn msg_splits_target_and_message_once() {
    let p = parse_line("/msg bob hi there", &defaults());
    match p.command {
        Some(InputCommand::SendMessage { target, message }) => {
            assert_eq!(target, "bob");
            assert_eq!(message, "hi there");
        }
        _ => panic!("expected a message command"),
    }
    assert_eq!(p.lines, vec!["You: /msg bob hi there".to_string()]);
}

#[test]
fn msg_without_a_message_shows_usage_and_sends_nothing() {
    let p = parse_line("/msg bob", &defaults());
    assert!(p.command.is_none());
    assert_eq!(
        p.lines,
        vec!["Usage: /msg <target> <message>".to_string(), "You: /msg bob".to_string()]
    );
    assert!(!p.quit);
}

#[test]
fn quit_ends_the_session() {
    let p = parse_line("/quit", &defaults());
    assert!(matches!(p.command, Some(InputCommand::Quit)));
    assert!(p.quit);
    assert_eq!(p.lines, vec!["You: /quit".to_string()]);
}

#[test]
fn help_renders_the_panel_locally_without_bus_traffic() {
    let p = parse_line("/help", &defaults());
    assert!(p.command.is_none());
    assert!(!p.quit);
    assert_eq!(p.lines.len(), 10);
    assert_eq!(p.lines[1], "│                   Help Menu                  │");
    assert_eq!(p.lines[9], "You: /help");
}

#[test]
fn unknown_commands_are_diagnosed_locally() {
    let p = parse_line("/frobnicate now", &defaults());
    assert!(p.command.is_none());
    assert_eq!(
        p.lines,
        vec!["Unknown command: /frobnicate".to_string(), "You: /frobnicate now".to_string()]
    );
}

#[test]
fn plain_text_becomes_a_plain_message() {
    let p = parse_line("hello everyone", &defaults());
    match p.command {
        Some(InputCommand::SendPlainMessage(body)) => assert_eq!(body, "hello everyone"),
        _ => panic!("expected a plain message"),
    }
    assert_eq!(p.lines, vec!["You: hello everyone".to_string()]);
}

#[test]
fn single_colon_token_gets_an_extra_colon() {
    assert_eq!(prefix_message(":)"), "::)");
    assert_eq!(prefix_message(":cat:"), "::cat:");
    assert_eq!(prefix_message(":cat: hi"), ":cat: hi");
    assert_eq!(prefix_message("plain"), "plain");
    assert_eq!(prefix_message(""), "");
    let p = parse_line(":)", &defaults());
    match p.command {
        Some(InputCommand::SendPlainMessage(body)) => assert_eq!(body, "::)"),
        _ => panic!("expected a plain message"),
    }
    assert_eq!(p.lines, vec!["You: ::)".to_string()]);
}

#[test]
fn leading_whitespace_keeps_a_line_from_being_a_command() {
    let p = parse_line("  /quit", &defaults());
    assert!(matches!(p.command, Some(InputCommand::SendPlainMessage(_))));
    assert!(!p.quit);
}

#[test]
fn hex_colors_parse_to_their_components() {
    assert_eq!(parse_color("#aabbcc"), Some(Rgb { r: 0xaa, g: 0xbb, b: 0xcc }));
    assert_eq!(parse_color("aabbcc"), Some(Rgb { r: 0xaa, g: 0xbb, b: 0xcc }));
    assert_eq!(parse_color("##010203"), Some(Rgb { r: 1, g: 2, b: 3 }));
    assert_eq!(parse_color("#AABBCC"), Some(Rgb { r: 0xaa, g: 0xbb, b: 0xcc }));
    assert_eq!(parse_color("#abc"), None);
    assert_eq!(parse_color("#aabbcg"), None);
    assert_eq!(parse_color(""), None);
    assert_eq!(parse_color("#aabbccdd"), None);
}

#[test]
fn connect_defaults_fall_back_where_unset() {
    let empty = UserConfig::default();
    let d = connect_defaults(&empty);
    assert_eq!(d.port, 6697);
    assert_eq!(d.nick, "meow");
    assert!(d.tls);
    let cfg = UserConfig {
        irc: Some(IrcConfig {
            nick: Some("kitten".to_string()),
            port: Some(6667),
            tls: Some(false),
        }),
        theme: None,
        emojis: None,
    };
    let d = connect_defaults(&cfg);
    assert_eq!(d.port, 6667);
    assert_eq!(d.nick, "kitten");
    assert!(!d.tls);
    let partial = UserConfig {
        irc: Some(IrcConfig { nick: None, port: Some(7000), tls: None }),
        theme: None,
        emojis: None,
    };
    let d = connect_defaults(&partial);
    assert_eq!(d.port, 7000);
    assert_eq!(d.nick, "meow");
    assert!(d.tls);
}
