//! The session controller: connection lifecycle state, the decision taken
//! for each command, the display lines it emits, and the reconnection
//! backoff schedule.
//!
//! The controller never performs network work itself. For each command it
//! returns a `CommandOutcome` naming the outside action to perform; the
//! surrounding process performs it and reports the result back through
//! `connect_succeeded`, `reconnect_succeeded` and the line builders here.
//! Only the controller's own task mutates a `Session`.

use vstd::prelude::*;
use crate::color::{color_code, color_code_spec, Rgb};
use crate::command::{CommandView, ConnectParams, InputCommand, ParamsView};
use crate::text::{chars_of, dec_digits, replace_all, replace_spec, string_of, u64_string};

verus! {

/// The session state the controller owns: whether a connection handle is
/// live, the channel most recently joined, and the parameters of the last
/// successful connect (kept for reconnection, never cleared).
pub struct Session {
    pub connected: bool,
    pub current_channel: Option<String>,
    pub last_params: Option<ConnectParams>,
}

/// Mathematical image of a `Session`.
pub ghost struct SessionView {
    pub connected: bool,
    pub current_channel: Option<Seq<char>>,
    pub last_params: Option<ParamsView>,
}

impl View for Session {
    type V = SessionView;

    open spec fn view(&self) -> SessionView {
        SessionView {
            connected: self.connected,
            current_channel: match self.current_channel {
                Some(ref c) => Some(c@),
                None => None,
            },
            last_params: match self.last_params {
                Some(ref p) => Some(p@),
                None => None,
            },
        }
    }
}

/// An outbound protocol action the controller asks the surrounding process
/// to dispatch on the live connection, off the command loop.
pub enum Outbound {
    /// A message to an explicit target (from `/msg`).
    PrivmsgTo { target: String, body: String },
    /// A message to the current channel (plain input).
    PrivmsgChannel { channel: String, body: String },
    Join { channel: String },
    Part { channel: String },
    /// Re-join of the current channel after a successful reconnect.
    Rejoin { channel: String },
}

/// Mathematical image of an `Outbound`.
pub ghost enum OutboundView {
    PrivmsgTo { target: Seq<char>, body: Seq<char> },
    PrivmsgChannel { channel: Seq<char>, body: Seq<char> },
    Join { channel: Seq<char> },
    Part { channel: Seq<char> },
    Rejoin { channel: Seq<char> },
}

impl View for Outbound {
    type V = OutboundView;

    open spec fn view(&self) -> OutboundView {
        match self {
            Outbound::PrivmsgTo { target, body } => OutboundView::PrivmsgTo {
                target: target@,
                body: body@,
            },
            Outbound::PrivmsgChannel { channel, body } => OutboundView::PrivmsgChannel {
                channel: channel@,
                body: body@,
            },
            Outbound::Join { channel } => OutboundView::Join { channel: channel@ },
            Outbound::Part { channel } => OutboundView::Part { channel: channel@ },
            Outbound::Rejoin { channel } => OutboundView::Rejoin { channel: channel@ },
        }
    }
}

/// What the controller decided for one command.
pub enum CommandOutcome {
    /// Attempt a connection with these parameters, then report the result
    /// through `connect_succeeded` or `connect_error_line`.
    Connect(ConnectParams),
    /// Dispatch this action on the live connection; report its result
    /// through `dispatch_ok_line` or `dispatch_error_line`.
    Dispatch(Outbound),
    /// Only these display lines; no state change beyond the one recorded,
    /// and nothing dispatched to the protocol library.
    Lines(Vec<String>),
    /// These display lines, then the reconnection loop with the stored
    /// parameters.
    LinesThenReconnect { lines: Vec<String>, params: ConnectParams },
    /// End the command loop; send a best-effort quit notice first when a
    /// connection is live.
    Quit { send_notice: bool },
}

/// Mathematical image of a `CommandOutcome`.
pub ghost enum OutcomeView {
    Connect(ParamsView),
    Dispatch(OutboundView),
    Lines(Seq<Seq<char>>),
    LinesThenReconnect { lines: Seq<Seq<char>>, params: ParamsView },
    Quit { send_notice: bool },
}

impl View for CommandOutcome {
    type V = OutcomeView;

    open spec fn view(&self) -> OutcomeView {
        match self {
            CommandOutcome::Connect(p) => OutcomeView::Connect(p@),
            CommandOutcome::Dispatch(o) => OutcomeView::Dispatch(o@),
            CommandOutcome::Lines(ls) => OutcomeView::Lines(ls.deep_view()),
            CommandOutcome::LinesThenReconnect { lines, params } => OutcomeView::LinesThenReconnect {
                lines: lines.deep_view(),
                params: params@,
            },
            CommandOutcome::Quit { send_notice } => OutcomeView::Quit { send_notice: *send_notice },
        }
    }
}

/// The pattern an emoji alias is written as in a message body.
pub open spec fn alias_pattern(alias: Seq<char>) -> Seq<char> {
    ":"@ + alias + ":"@
}

/// A message body after replacing each alias pattern with its emoji, in
/// list order.
pub open spec fn apply_aliases_spec(m: Seq<char>, aliases: Seq<(Seq<char>, Seq<char>)>) -> Seq<
    char,
>
    decreases aliases.len(),
{
    if aliases.len() == 0 {
        m
    } else {
        apply_aliases_spec(
            replace_spec(m, alias_pattern(aliases[0].0), aliases[0].1),
            aliases.drop_first(),
        )
    }
}

/// Replaces each `:alias:` in `m` with its emoji, in list order.
pub fn apply_aliases(m: &str, aliases: &Vec<(String, String)>) -> (r: String)
    ensures
        r@ == apply_aliases_spec(m@, aliases.deep_view()),
{
    let mut v = chars_of(m);
    let ghost dv = aliases.deep_view();
    let mut i: usize = 0;
    proof {
        assert(dv.skip(0) =~= dv);
    }
    while i < aliases.len()
        invariant
            i <= aliases@.len(),
            dv == aliases.deep_view(),
            apply_aliases_spec(m@, dv) == apply_aliases_spec(v@, dv.skip(i as int)),
        decreases aliases@.len() - i,
    {
        let mut pat: Vec<char> = Vec::new();
        pat.push(':');
        let alias_chars = chars_of(aliases[i].0.as_str());
        let mut k: usize = 0;
        while k < alias_chars.len()
            invariant
                k <= alias_chars@.len(),
                pat@ == seq![':'] + alias_chars@.subrange(0, k as int),
            decreases alias_chars@.len() - k,
        {
            pat.push(alias_chars[k]);
            proof {
                assert((seq![':'] + alias_chars@.subrange(0, k as int)).push(
                    alias_chars@[k as int],
                ) =~= seq![':'] + alias_chars@.subrange(0, k + 1));
            }
            k += 1;
        }
        pat.push(':');
        let rep = chars_of(aliases[i].1.as_str());
        proof {
            reveal_strlit(":");
            assert(alias_chars@.subrange(0, alias_chars@.len() as int) =~= alias_chars@);
            assert(dv[i as int] == (aliases@[i as int].0@, aliases@[i as int].1@));
            assert(pat@ =~= alias_pattern(dv[i as int].0));
            assert(dv.skip(i as int)[0] == dv[i as int]);
            assert(dv.skip(i as int).drop_first() =~= dv.skip(i + 1));
        }
        v = replace_all(&v, &pat, &rep);
        i += 1;
    }
    proof {
        assert(dv.skip(dv.len() as int) =~= Seq::<(Seq<char>, Seq<char>)>::empty());
    }
    string_of(&v)
}

pub open spec fn not_connected_line_spec() -> Seq<char> {
    "Not connected. Use /connect first."@
}

/// The diagnostic for a session command issued with no live connection.
pub fn not_connected_line() -> (r: String)
    ensures
        r@ == not_connected_line_spec(),
{
    String::from_str("Not connected. Use /connect first.")
}

pub open spec fn not_in_channel_line_spec() -> Seq<char> {
    "Not in a channel. Use /join."@
}

/// The diagnostic for plain input sent while no channel is joined.
pub fn not_in_channel_line() -> (r: String)
    ensures
        r@ == not_in_channel_line_spec(),
{
    String::from_str("Not in a channel. Use /join.")
}

pub open spec fn connected_line_spec(p: ParamsView) -> Seq<char> {
    "Connected to "@ + p.server + ":"@ + dec_digits(p.port as nat) + " as "@ + p.nick + (if p.tls {
        " with TLS"@
    } else {
        " without TLS"@
    })
}

/// The confirmation line for a successful connect.
pub fn connected_line(p: &ConnectParams) -> (r: String)
    ensures
        r@ == connected_line_spec(p@),
{
    let mut s = String::from_str("Connected to ");
    s.append(p.server.as_str());
    s.append(":");
    let port = u64_string(p.port as u64);
    s.append(port.as_str());
    s.append(" as ");
    s.append(p.nick.as_str());
    if p.tls {
        s.append(" with TLS");
    } else {
        s.append(" without TLS");
    }
    proof {
        assert(s@ =~= connected_line_spec(p@));
    }
    s
}

pub open spec fn connect_error_line_spec(err: Seq<char>) -> Seq<char> {
    "Error connecting: "@ + err
}

/// The report of a failed connect attempt; the session stays as it was.
pub fn connect_error_line(err: &str) -> (r: String)
    ensures
        r@ == connect_error_line_spec(err@),
{
    let mut s = String::from_str("Error connecting: ");
    s.append(err);
    s
}

pub open spec fn disconnected_line_spec() -> Seq<char> {
    "*** Disconnected from IRC server. Attempting to reconnect..."@
}

pub fn disconnected_line() -> (r: String)
    ensures
        r@ == disconnected_line_spec(),
{
    String::from_str("*** Disconnected from IRC server. Attempting to reconnect...")
}

pub open spec fn cannot_reconnect_line_spec() -> Seq<char> {
    "Cannot reconnect: no previous connection configuration found."@
}

pub fn cannot_reconnect_line() -> (r: String)
    ensures
        r@ == cannot_reconnect_line_spec(),
{
    String::from_str("Cannot reconnect: no previous connection configuration found.")
}

pub open spec fn reconnect_attempt_line_spec(attempt: nat) -> Seq<char> {
    "Attempting reconnection #"@ + dec_digits(attempt) + "..."@
}

/// The notice before reconnection attempt number `attempt`.
pub fn reconnect_attempt_line(attempt: u64) -> (r: String)
    ensures
        r@ == reconnect_attempt_line_spec(attempt as nat),
{
    let mut s = String::from_str("Attempting reconnection #");
    let n = u64_string(attempt);
    s.append(n.as_str());
    s.append("...");
    proof {
        assert(s@ =~= reconnect_attempt_line_spec(attempt as nat));
    }
    s
}

pub open spec fn reconnect_error_line_spec(attempt: nat, err: Seq<char>) -> Seq<char> {
    "Error during reconnection attempt #"@ + dec_digits(attempt) + ": "@ + err
}

/// The report of a failed reconnection attempt.
pub fn reconnect_error_line(attempt: u64, err: &str) -> (r: String)
    ensures
        r@ == reconnect_error_line_spec(attempt as nat, err@),
{
    let mut s = String::from_str("Error during reconnection attempt #");
    let n = u64_string(attempt);
    s.append(n.as_str());
    s.append(": ");
    s.append(err);
    proof {
        assert(s@ =~= reconnect_error_line_spec(attempt as nat, err@));
    }
    s
}

pub open spec fn reconnected_line_spec() -> Seq<char> {
    "*** Reconnected successfully!"@
}

pub fn reconnected_line() -> (r: String)
    ensures
        r@ == reconnected_line_spec(),
{
    String::from_str("*** Reconnected successfully!")
}

pub open spec fn dispatch_ok_line_spec(o: OutboundView, accent: Option<Rgb>) -> Seq<char> {
    match o {
        OutboundView::PrivmsgTo { target, body } => "\x1b[1m\x1b["@ + color_code_spec(accent)
            + "m<You->"@ + target + ">\x1b[0m "@ + body,
        OutboundView::PrivmsgChannel { channel, body } => "\x1b[1m\x1b["@ + color_code_spec(accent)
            + "m<You ("@ + channel + ") :>\x1b[0m "@ + body,
        OutboundView::Join { channel } => "*** Joined "@ + channel,
        OutboundView::Part { channel } => "*** Left "@ + channel,
        OutboundView::Rejoin { channel } => "*** Rejoined "@ + channel,
    }
}

/// The display line echoed after an outbound action succeeded.
pub fn dispatch_ok_line(o: &Outbound, accent: Option<Rgb>) -> (r: String)
    ensures
        r@ == dispatch_ok_line_spec(o@, accent),
{
    match o {
        Outbound::PrivmsgTo { target, body } => {
            let mut s = String::from_str("\x1b[1m\x1b[");
            let cc = color_code(accent);
            s.append(cc.as_str());
            s.append("m<You->");
            s.append(target.as_str());
            s.append(">\x1b[0m ");
            s.append(body.as_str());
            proof {
                assert(s@ =~= dispatch_ok_line_spec(o@, accent));
            }
            s
        },
        Outbound::PrivmsgChannel { channel, body } => {
            let mut s = String::from_str("\x1b[1m\x1b[");
            let cc = color_code(accent);
            s.append(cc.as_str());
            s.append("m<You (");
            s.append(channel.as_str());
            s.append(") :>\x1b[0m ");
            s.append(body.as_str());
            proof {
                assert(s@ =~= dispatch_ok_line_spec(o@, accent));
            }
            s
        },
        Outbound::Join { channel } => {
            let mut s = String::from_str("*** Joined ");
            s.append(channel.as_str());
            s
        },
        Outbound::Part { channel } => {
            let mut s = String::from_str("*** Left ");
            s.append(channel.as_str());
            s
        },
        Outbound::Rejoin { channel } => {
            let mut s = String::from_str("*** Rejoined ");
            s.append(channel.as_str());
            s
        },
    }
}

pub open spec fn dispatch_error_line_spec(o: OutboundView, err: Seq<char>) -> Seq<char> {
    match o {
        OutboundView::PrivmsgTo { target, body } => "Error sending to "@ + target + ": "@ + err,
        OutboundView::PrivmsgChannel { channel, body } => "Error sending: "@ + err,
        OutboundView::Join { channel } => "Error joining "@ + channel + ": "@ + err,
        OutboundView::Part { channel } => "Error parting "@ + channel + ": "@ + err,
        OutboundView::Rejoin { channel } => "Error rejoining "@ + channel + ": "@ + err,
    }
}

/// The display line reported when an outbound action failed; the session
/// state is not touched.
pub fn dispatch_error_line(o: &Outbound, err: &str) -> (r: String)
    ensures
        r@ == dispatch_error_line_spec(o@, err@),
{
    match o {
        Outbound::PrivmsgTo { target, body: _ } => {
            let mut s = String::from_str("Error sending to ");
            s.append(target.as_str());
            s.append(": ");
            s.append(err);
            proof {
                assert(s@ =~= dispatch_error_line_spec(o@, err@));
            }
            s
        },
        Outbound::PrivmsgChannel { channel: _, body: _ } => {
            let mut s = String::from_str("Error sending: ");
            s.append(err);
            s
        },
        Outbound::Join { channel } => {
            let mut s = String::from_str("Error joining ");
            s.append(channel.as_str());
            s.append(": ");
            s.append(err);
            proof {
                assert(s@ =~= dispatch_error_line_spec(o@, err@));
            }
            s
        },
        Outbound::Part { channel } => {
            let mut s = String::from_str("Error parting ");
            s.append(channel.as_str());
            s.append(": ");
            s.append(err);
            proof {
                assert(s@ =~= dispatch_error_line_spec(o@, err@));
            }
            s
        },
        Outbound::Rejoin { channel } => {
            let mut s = String::from_str("Error rejoining ");
            s.append(channel.as_str());
            s.append(": ");
            s.append(err);
            proof {
                assert(s@ =~= dispatch_error_line_spec(o@, err@));
            }
            s
        },
    }
}

/// The controller's decision for one command: the next session state and
/// the outcome to carry out.
///
/// A session command that cannot be carried out yields only a diagnostic
/// and never a dispatch: "not connected" without a live connection, and
/// for plain input "not in a channel" when no channel is current (that
/// check comes first, as the wording of the input suggests a missing
/// `/join`). `PartChannel(x)` clears the current channel exactly when it
/// was `x`. `JoinChannel` records the channel optimistically, before any
/// confirmation. `Disconnected` clears the live flag and starts
/// reconnection only when parameters from an earlier connect exist.
pub open spec fn step_spec(
    s: SessionView,
    cmd: CommandView,
    aliases: Seq<(Seq<char>, Seq<char>)>,
) -> (SessionView, OutcomeView) {
    match cmd {
        CommandView::Connect { server, port, nick, tls } => (
            s,
            OutcomeView::Connect(ParamsView { server, port, nick, tls }),
        ),
        CommandView::SendMessage { target, message } => if !s.connected {
            (s, OutcomeView::Lines(seq![not_connected_line_spec()]))
        } else {
            (
                s,
                OutcomeView::Dispatch(
                    OutboundView::PrivmsgTo { target, body: apply_aliases_spec(message, aliases) },
                ),
            )
        },
        CommandView::JoinChannel(name) => if !s.connected {
            (s, OutcomeView::Lines(seq![not_connected_line_spec()]))
        } else {
            (
                SessionView { current_channel: Some(name), ..s },
                OutcomeView::Dispatch(OutboundView::Join { channel: name }),
            )
        },
        CommandView::PartChannel(name) => if !s.connected {
            (s, OutcomeView::Lines(seq![not_connected_line_spec()]))
        } else {
            (
                SessionView {
                    current_channel: if s.current_channel == Some(name) {
                        None
                    } else {
                        s.current_channel
                    },
                    ..s
                },
                OutcomeView::Dispatch(OutboundView::Part { channel: name }),
            )
        },
        CommandView::SendPlainMessage(body) => match s.current_channel {
            None => (s, OutcomeView::Lines(seq![not_in_channel_line_spec()])),
            Some(channel) => if !s.connected {
                (s, OutcomeView::Lines(seq![not_connected_line_spec()]))
            } else {
                (
                    s,
                    OutcomeView::Dispatch(
                        OutboundView::PrivmsgChannel {
                            channel,
                            body: apply_aliases_spec(body, aliases),
                        },
                    ),
                )
            },
        },
        CommandView::Quit => (s, OutcomeView::Quit { send_notice: s.connected }),
        CommandView::Disconnected => {
            let s2 = SessionView { connected: false, ..s };
            match s.last_params {
                Some(p) => (
                    s2,
                    OutcomeView::LinesThenReconnect {
                        lines: seq![disconnected_line_spec()],
                        params: p,
                    },
                ),
                None => (
                    s2,
                    OutcomeView::Lines(
                        seq![disconnected_line_spec(), cannot_reconnect_line_spec()],
                    ),
                ),
            }
        },
    }
}

impl Session {
    /// A fresh session: nothing connected, no channel, no parameters.
    pub fn new() -> (s: Session)
        ensures
            s@ == (SessionView { connected: false, current_channel: None, last_params: None }),
    {
        Session { connected: false, current_channel: None, last_params: None }
    }

    /// Processes one command: updates the session state and returns the
    /// outcome to carry out, exactly as `step_spec` says.
    pub fn handle_command(&mut self, cmd: InputCommand, aliases: &Vec<(String, String)>) -> (out:
        CommandOutcome)
        ensures
            final(self)@ == step_spec(old(self)@, cmd@, aliases.deep_view()).0,
            out@ == step_spec(old(self)@, cmd@, aliases.deep_view()).1,
    {
        match cmd {
            InputCommand::Connect { server, port, nick, tls } => CommandOutcome::Connect(
                ConnectParams { server, port, nick, tls },
            ),
            InputCommand::SendMessage { target, message } => {
                if !self.connected {
                    let mut lines: Vec<String> = Vec::new();
                    lines.push(not_connected_line());
                    proof {
                        assert(lines.deep_view() =~~= seq![not_connected_line_spec()]);
                    }
                    CommandOutcome::Lines(lines)
                } else {
                    let body = apply_aliases(message.as_str(), aliases);
                    CommandOutcome::Dispatch(Outbound::PrivmsgTo { target, body })
                }
            },
            InputCommand::JoinChannel(name) => {
                if !self.connected {
                    let mut lines: Vec<String> = Vec::new();
                    lines.push(not_connected_line());
                    proof {
                        assert(lines.deep_view() =~~= seq![not_connected_line_spec()]);
                    }
                    CommandOutcome::Lines(lines)
                } else {
                    self.current_channel = Some(name.clone());
                    CommandOutcome::Dispatch(Outbound::Join { channel: name })
                }
            },
            InputCommand::PartChannel(name) => {
                if !self.connected {
                    let mut lines: Vec<String> = Vec::new();
                    lines.push(not_connected_line());
                    proof {
                        assert(lines.deep_view() =~~= seq![not_connected_line_spec()]);
                    }
                    CommandOutcome::Lines(lines)
                } else {
                    let matches_current = match &self.current_channel {
                        Some(c) => c.eq(&name),
                        None => false,
                    };
                    if matches_current {
                        self.current_channel = None;
                    }
                    CommandOutcome::Dispatch(Outbound::Part { channel: name })
                }
            },
            InputCommand::SendPlainMessage(message) => {
                match &self.current_channel {
                    None => {
                        let mut lines: Vec<String> = Vec::new();
                        lines.push(not_in_channel_line());
                        proof {
                            assert(lines.deep_view() =~~= seq![not_in_channel_line_spec()]);
                        }
                        CommandOutcome::Lines(lines)
                    },
                    Some(channel) => {
                        if !self.connected {
                            let mut lines: Vec<String> = Vec::new();
                            lines.push(not_connected_line());
                            proof {
                                assert(lines.deep_view() =~~= seq![not_connected_line_spec()]);
                            }
                            CommandOutcome::Lines(lines)
                        } else {
                            let body = apply_aliases(message.as_str(), aliases);
                            CommandOutcome::Dispatch(
                                Outbound::PrivmsgChannel { channel: channel.clone(), body },
                            )
                        }
                    },
                }
            },
            InputCommand::Quit => CommandOutcome::Quit { send_notice: self.connected },
            InputCommand::Disconnected => {
                self.connected = false;
                match &self.last_params {
                    Some(p) => {
                        let mut lines: Vec<String> = Vec::new();
                        lines.push(disconnected_line());
                        proof {
                            assert(lines.deep_view() =~~= seq![disconnected_line_spec()]);
                        }
                        CommandOutcome::LinesThenReconnect { lines, params: p.clone() }
                    },
                    None => {
                        let mut lines: Vec<String> = Vec::new();
                        lines.push(disconnected_line());
                        lines.push(cannot_reconnect_line());
                        proof {
                            assert(lines.deep_view() =~~= seq![
                                disconnected_line_spec(),
                                cannot_reconnect_line_spec(),
                            ]);
                        }
                        CommandOutcome::Lines(lines)
                    },
                }
            },
        }
    }

    /// Records a successful connect: the connection is live, and the
    /// parameters are stored for later reconnection. Returns the
    /// confirmation line.
    pub fn connect_succeeded(&mut self, params: ConnectParams) -> (line: String)
        ensures
            final(self)@ == (SessionView {
                connected: true,
                current_channel: old(self)@.current_channel,
                last_params: Some(params@),
            }),
            line@ == connected_line_spec(params@),
    {
        let line = connected_line(&params);
        self.connected = true;
        self.last_params = Some(params);
        line
    }

    /// Records a successful reconnect: the connection is live again, the
    /// stored parameters stay, and when a channel was current before the
    /// drop, a re-join of it is to be dispatched.
    pub fn reconnect_succeeded(&mut self) -> (r: (String, Option<Outbound>))
        ensures
            final(self)@ == (SessionView {
                connected: true,
                current_channel: old(self)@.current_channel,
                last_params: old(self)@.last_params,
            }),
            r.0@ == reconnected_line_spec(),
            match old(self)@.current_channel {
                Some(ch) => r.1 matches Some(o) && o@ == (OutboundView::Rejoin { channel: ch }),
                None => r.1 is None,
            },
    {
        self.connected = true;
        let rejoin = match &self.current_channel {
            Some(ch) => Some(Outbound::Rejoin { channel: ch.clone() }),
            None => None,
        };
        (reconnected_line(), rejoin)
    }
}

/// The delay, in seconds, before reconnection attempt number `attempt`:
/// five seconds more for every attempt, capped at one minute.
pub open spec fn reconnect_delay_spec(attempt: nat) -> nat {
    if 5 * attempt < 60 {
        5 * attempt
    } else {
        60
    }
}

/// Seconds to wait before reconnection attempt number `attempt`.
pub fn reconnect_delay(attempt: u64) -> (d: u64)
    ensures
        d == reconnect_delay_spec(attempt as nat),
{
    if attempt < 12 {
        5 * attempt
    } else {
        60
    }
}

} // verus!
