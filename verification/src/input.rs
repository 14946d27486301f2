//! Parsing of one submitted input line into a bus command and local
//! display lines.
//!
//! A leading `/` designates a command word (the first space-delimited
//! token) with the rest of the line as a single argument string.
//! Recognised commands translate one-to-one to `InputCommand`s;
//! unrecognised ones produce a local diagnostic and no bus traffic; input
//! without the prefix is sent as a plain message to the current channel.

use vstd::prelude::*;
use crate::command::{CommandView, InputCommand};
use crate::config::{ConnectDefaults, DefaultsView};
use crate::text::{
    chars_eq_str,
    chars_of,
    count_tokens,
    first_token,
    first_token_spec,
    split2,
    split2_head,
    split2_tail,
    string_of,
    token_count,
    trim,
    trim_spec,
};

verus! {

/// A single-token message starting with `:` is sent with one more `:` in
/// front, so that emoji-alias text survives as typed.
pub open spec fn prefix_spec(s: Seq<char>) -> Seq<char> {
    if token_count(s) == 1 && s.len() > 0 && s[0] == ':' {
        ":"@ + s
    } else {
        s
    }
}

/// Applies the `:`-prefix rule to an outgoing message.
pub fn prefix_message(line: &str) -> (r: String)
    ensures
        r@ == prefix_spec(line@),
{
    let cv = chars_of(line);
    let tokens = count_tokens(&cv);
    if tokens == 1 && cv.len() > 0 && cv[0] == ':' {
        let mut s = String::from_str(":");
        s.append(line);
        proof {
            assert(s@ =~= prefix_spec(line@));
        }
        s
    } else {
        line.to_owned()
    }
}

/// What one submitted line yields: at most one bus command, the local
/// display lines (echo, help panel, diagnostics), and whether the session
/// ends.
pub struct Parsed {
    pub command: Option<InputCommand>,
    pub lines: Vec<String>,
    pub quit: bool,
}

/// Mathematical image of a `Parsed`.
pub ghost struct ParsedView {
    pub command: Option<CommandView>,
    pub lines: Seq<Seq<char>>,
    pub quit: bool,
}

impl View for Parsed {
    type V = ParsedView;

    open spec fn view(&self) -> ParsedView {
        ParsedView {
            command: match self.command {
                Some(ref c) => Some(c@),
                None => None,
            },
            lines: self.lines.deep_view(),
            quit: self.quit,
        }
    }
}

/// The local echo of what the user typed.
pub open spec fn echo_line_spec(line: Seq<char>) -> Seq<char> {
    "You: "@ + line
}

fn echo_line(line: &str) -> (r: String)
    ensures
        r@ == echo_line_spec(line@),
{
    let mut s = String::from_str("You: ");
    s.append(line);
    s
}

/// The static help panel `/help` renders locally.
pub open spec fn help_panel_spec() -> Seq<Seq<char>> {
    seq![
        "╭───────────────────────────────────────────────╮"@,
        "│                   Help Menu                  │"@,
        "├───────────────────────────────────────────────┤"@,
        "│ /connect <server> [port] [nick] [tls]        │"@,
        "│ /join <channel>                              │"@,
        "│ /part <channel>                              │"@,
        "│ /msg <target> <message>                      │"@,
        "│ /quit                                        │"@,
        "╰───────────────────────────────────────────────╯"@,
    ]
}

fn help_panel() -> (r: Vec<String>)
    ensures
        r.deep_view() == help_panel_spec(),
{
    let mut r: Vec<String> = Vec::new();
    r.push(String::from_str("╭───────────────────────────────────────────────╮"));
    r.push(String::from_str("│                   Help Menu                  │"));
    r.push(String::from_str("├───────────────────────────────────────────────┤"));
    r.push(String::from_str("│ /connect <server> [port] [nick] [tls]        │"));
    r.push(String::from_str("│ /join <channel>                              │"));
    r.push(String::from_str("│ /part <channel>                              │"));
    r.push(String::from_str("│ /msg <target> <message>                      │"));
    r.push(String::from_str("│ /quit                                        │"));
    r.push(String::from_str("╰───────────────────────────────────────────────╯"));
    proof {
        assert(r.deep_view() =~~= help_panel_spec());
    }
    r
}

pub open spec fn usage_msg_line_spec() -> Seq<char> {
    "Usage: /msg <target> <message>"@
}

pub open spec fn unknown_command_line_spec(cmd: Seq<char>) -> Seq<char> {
    "Unknown command: "@ + cmd
}

/// The argument string of a slash command: what follows the first space of
/// the trimmed line, or empty when there is none.
pub open spec fn arg_of(t: Seq<char>) -> Seq<char> {
    match split2_tail(t, ' ') {
        Some(a) => a,
        None => Seq::empty(),
    }
}

/// What one submitted input line yields.
///
/// `/msg` needs both a target and a message; without the message it shows
/// a usage line and sends nothing. An unknown `/` command shows a
/// diagnostic and sends nothing; `/help` shows the help panel and sends
/// nothing. Everything the user typed is echoed locally.
pub open spec fn parse_line_spec(line: Seq<char>, defs: DefaultsView) -> ParsedView {
    if line.len() > 0 && line[0] == '/' {
        let t = trim_spec(line);
        let cmd = split2_head(t, ' ');
        let arg = arg_of(t);
        if cmd == "/connect"@ {
            ParsedView {
                command: Some(
                    CommandView::Connect {
                        server: first_token_spec(arg),
                        port: defs.port,
                        nick: defs.nick,
                        tls: defs.tls,
                    },
                ),
                lines: seq![echo_line_spec(line)],
                quit: false,
            }
        } else if cmd == "/join"@ {
            ParsedView {
                command: Some(CommandView::JoinChannel(arg)),
                lines: seq![echo_line_spec(line)],
                quit: false,
            }
        } else if cmd == "/part"@ {
            ParsedView {
                command: Some(CommandView::PartChannel(arg)),
                lines: seq![echo_line_spec(line)],
                quit: false,
            }
        } else if cmd == "/msg"@ {
            let target = split2_head(arg, ' ');
            match split2_tail(arg, ' ') {
                Some(msg) => {
                    let pm = prefix_spec(msg);
                    ParsedView {
                        command: Some(CommandView::SendMessage { target, message: pm }),
                        lines: seq!["You: /msg "@ + target + " "@ + pm],
                        quit: false,
                    }
                },
                None => ParsedView {
                    command: None,
                    lines: seq![usage_msg_line_spec(), echo_line_spec(line)],
                    quit: false,
                },
            }
        } else if cmd == "/quit"@ {
            ParsedView {
                command: Some(CommandView::Quit),
                lines: seq![echo_line_spec(line)],
                quit: true,
            }
        } else if cmd == "/help"@ {
            ParsedView {
                command: None,
                lines: help_panel_spec().push(echo_line_spec(line)),
                quit: false,
            }
        } else {
            ParsedView {
                command: None,
                lines: seq![unknown_command_line_spec(cmd), echo_line_spec(line)],
                quit: false,
            }
        }
    } else {
        let pm = prefix_spec(line);
        ParsedView {
            command: Some(CommandView::SendPlainMessage(pm)),
            lines: seq![echo_line_spec(pm)],
            quit: false,
        }
    }
}

/// Parses one submitted line, exactly as `parse_line_spec` says.
pub fn parse_line(line: &str, defaults: &ConnectDefaults) -> (p: Parsed)
    ensures
        p@ == parse_line_spec(line@, defaults@),
{
    let cv = chars_of(line);
    let ghost target_parse = parse_line_spec(line@, defaults@);
    if cv.len() > 0 && cv[0] == '/' {
        let t = trim(&cv);
        let (cmd, tail) = split2(&t, ' ');
        let arg: Vec<char> = match tail {
            Some(a) => a,
            None => Vec::new(),
        };
        proof {
            assert(arg@ == arg_of(trim_spec(line@)));
        }
        if chars_eq_str(&cmd, "/connect") {
            let server_chars = first_token(&arg);
            let command = InputCommand::Connect {
                server: string_of(&server_chars),
                port: defaults.port,
                nick: defaults.nick.clone(),
                tls: defaults.tls,
            };
            let mut lines: Vec<String> = Vec::new();
            lines.push(echo_line(line));
            proof {
                assert(lines.deep_view() =~~= target_parse.lines);
            }
            Parsed { command: Some(command), lines, quit: false }
        } else if chars_eq_str(&cmd, "/join") {
            let command = InputCommand::JoinChannel(string_of(&arg));
            let mut lines: Vec<String> = Vec::new();
            lines.push(echo_line(line));
            proof {
                assert(lines.deep_view() =~~= target_parse.lines);
            }
            Parsed { command: Some(command), lines, quit: false }
        } else if chars_eq_str(&cmd, "/part") {
            let command = InputCommand::PartChannel(string_of(&arg));
            let mut lines: Vec<String> = Vec::new();
            lines.push(echo_line(line));
            proof {
                assert(lines.deep_view() =~~= target_parse.lines);
            }
            Parsed { command: Some(command), lines, quit: false }
        } else if chars_eq_str(&cmd, "/msg") {
            let (target_chars, msg_tail) = split2(&arg, ' ');
            match msg_tail {
                Some(m) => {
                    let msg = string_of(&m);
                    let pm = prefix_message(msg.as_str());
                    let target = string_of(&target_chars);
                    let mut echo = String::from_str("You: /msg ");
                    echo.append(target.as_str());
                    echo.append(" ");
                    echo.append(pm.as_str());
                    let command = InputCommand::SendMessage { target, message: pm };
                    let mut lines: Vec<String> = Vec::new();
                    lines.push(echo);
                    proof {
                        assert(lines.deep_view()[0] =~= target_parse.lines[0]);
                        assert(lines.deep_view() =~~= target_parse.lines);
                    }
                    Parsed { command: Some(command), lines, quit: false }
                },
                None => {
                    let mut lines: Vec<String> = Vec::new();
                    lines.push(String::from_str("Usage: /msg <target> <message>"));
                    lines.push(echo_line(line));
                    proof {
                        assert(lines.deep_view() =~~= target_parse.lines);
                    }
                    Parsed { command: None, lines, quit: false }
                },
            }
        } else if chars_eq_str(&cmd, "/quit") {
            let mut lines: Vec<String> = Vec::new();
            lines.push(echo_line(line));
            proof {
                assert(lines.deep_view() =~~= target_parse.lines);
            }
            Parsed { command: Some(InputCommand::Quit), lines, quit: true }
        } else if chars_eq_str(&cmd, "/help") {
            let mut lines = help_panel();
            lines.push(echo_line(line));
            proof {
                assert(lines.deep_view() =~~= target_parse.lines);
            }
            Parsed { command: None, lines, quit: false }
        } else {
            let mut unknown = String::from_str("Unknown command: ");
            let cmd_str = string_of(&cmd);
            unknown.append(cmd_str.as_str());
            let mut lines: Vec<String> = Vec::new();
            lines.push(unknown);
            lines.push(echo_line(line));
            proof {
                assert(lines.deep_view() =~~= target_parse.lines);
            }
            Parsed { command: None, lines, quit: false }
        }
    } else {
        let pm = prefix_message(line);
        let echo = echo_line(pm.as_str());
        let command = InputCommand::SendPlainMessage(pm);
        let mut lines: Vec<String> = Vec::new();
        lines.push(echo);
        proof {
            assert(lines.deep_view() =~~= target_parse.lines);
        }
        Parsed { command: Some(command), lines, quit: false }
    }
}

} // verus!
