//! The connection listener's translation of inbound protocol events into
//! display lines.
//!
//! The surrounding process owns the read side of the protocol stream; for
//! every item it pulls, `listener_step` says which display line to emit,
//! whether to reply with a pong, and whether the stream has ended — in
//! which case exactly one `Disconnected` signal is owed to the controller
//! and the listener stops. No event is ever dropped silently: anything not
//! specially handled is emitted verbatim.

use vstd::prelude::*;
use crate::color::{color_code, color_code_spec, Rgb};
use crate::text::{
    chars_of,
    dec_digits,
    split2,
    split2_head,
    starts_with_str,
    string_of,
    u64_string,
};

verus! {

/// An inbound protocol event, as plain values.
pub enum IrcEvent {
    /// Channel or direct text. `prefix` is the raw sender prefix, whose
    /// part before `!` is the sender's nick.
    Privmsg { prefix: Option<String>, target: String, body: String },
    Notice { prefix: Option<String>, target: String, body: String },
    Join { prefix: Option<String>, channel: String },
    Part { prefix: Option<String>, channel: String },
    Mode { target: String, details: String },
    /// A numeric server response.
    Numeric { code: u16, text: String },
    Ping { token: String },
    /// A protocol-level error notice; the connection is over.
    ErrorMsg { text: String },
    /// Anything else, already rendered by the protocol library.
    Other { raw: String },
}

/// Mathematical image of an `IrcEvent`.
pub ghost enum EventView {
    Privmsg { prefix: Option<Seq<char>>, target: Seq<char>, body: Seq<char> },
    Notice { prefix: Option<Seq<char>>, target: Seq<char>, body: Seq<char> },
    Join { prefix: Option<Seq<char>>, channel: Seq<char> },
    Part { prefix: Option<Seq<char>>, channel: Seq<char> },
    Mode { target: Seq<char>, details: Seq<char> },
    Numeric { code: u16, text: Seq<char> },
    Ping { token: Seq<char> },
    ErrorMsg { text: Seq<char> },
    Other { raw: Seq<char> },
}

pub open spec fn opt_str_view(s: Option<String>) -> Option<Seq<char>> {
    match s {
        Some(p) => Some(p@),
        None => None,
    }
}

impl View for IrcEvent {
    type V = EventView;

    open spec fn view(&self) -> EventView {
        match self {
            IrcEvent::Privmsg { prefix, target, body } => EventView::Privmsg {
                prefix: opt_str_view(*prefix),
                target: target@,
                body: body@,
            },
            IrcEvent::Notice { prefix, target, body } => EventView::Notice {
                prefix: opt_str_view(*prefix),
                target: target@,
                body: body@,
            },
            IrcEvent::Join { prefix, channel } => EventView::Join {
                prefix: opt_str_view(*prefix),
                channel: channel@,
            },
            IrcEvent::Part { prefix, channel } => EventView::Part {
                prefix: opt_str_view(*prefix),
                channel: channel@,
            },
            IrcEvent::Mode { target, details } => EventView::Mode {
                target: target@,
                details: details@,
            },
            IrcEvent::Numeric { code, text } => EventView::Numeric { code: *code, text: text@ },
            IrcEvent::Ping { token } => EventView::Ping { token: token@ },
            IrcEvent::ErrorMsg { text } => EventView::ErrorMsg { text: text@ },
            IrcEvent::Other { raw } => EventView::Other { raw: raw@ },
        }
    }
}

/// One item pulled from the protocol stream: an event, a transport error,
/// or the clean end of the stream.
pub enum StreamItem {
    Event(IrcEvent),
    TransportError(String),
    EndOfStream,
}

/// Mathematical image of a `StreamItem`.
pub ghost enum ItemView {
    Event(EventView),
    TransportError(Seq<char>),
    EndOfStream,
}

impl View for StreamItem {
    type V = ItemView;

    open spec fn view(&self) -> ItemView {
        match self {
            StreamItem::Event(e) => ItemView::Event(e@),
            StreamItem::TransportError(t) => ItemView::TransportError(t@),
            StreamItem::EndOfStream => ItemView::EndOfStream,
        }
    }
}

/// What the listener does with one stream item: the display lines to emit,
/// an optional pong reply, and whether to signal `Disconnected` and stop.
pub struct ListenerStep {
    pub lines: Vec<String>,
    pub pong: Option<String>,
    pub disconnect: bool,
    pub stop: bool,
}

/// Mathematical image of a `ListenerStep`.
pub ghost struct StepView {
    pub lines: Seq<Seq<char>>,
    pub pong: Option<Seq<char>>,
    pub disconnect: bool,
    pub stop: bool,
}

impl View for ListenerStep {
    type V = StepView;

    open spec fn view(&self) -> StepView {
        StepView {
            lines: self.lines.deep_view(),
            pong: match self.pong {
                Some(ref p) => Some(p@),
                None => None,
            },
            disconnect: self.disconnect,
            stop: self.stop,
        }
    }
}

/// The nick part of a sender prefix: everything before the first `!`, or
/// the whole prefix when it has none; empty when the event has no prefix.
pub open spec fn sender_nick(prefix: Option<Seq<char>>) -> Seq<char> {
    match prefix {
        Some(p) => split2_head(p, '!'),
        None => Seq::empty(),
    }
}

/// Whether a message target names a channel rather than this client.
pub open spec fn is_channel_name(t: Seq<char>) -> bool {
    t.len() > 0 && (t[0] == '#' || t[0] == '&')
}

/// Whether a message body is an out-of-band action notice: a payload
/// wrapped in the reserved control character.
pub open spec fn is_action_wrapped(body: Seq<char>) -> bool {
    body.len() >= 2 && body[0] == '\u{1}' && body.last() == '\u{1}'
}

/// The action text of a wrapped body: the payload without its wrapper and
/// without the leading `ACTION ` word when present.
pub open spec fn action_text(body: Seq<char>) -> Seq<char>
    recommends
        is_action_wrapped(body),
{
    let inner = body.subrange(1, body.len() - 1);
    if "ACTION "@.is_prefix_of(inner) {
        inner.skip(7)
    } else {
        inner
    }
}

/// The display line for inbound text: an action notice is formatted
/// distinctly, channel text as `<sender> body`, and direct text as
/// `<sender->You> body`, each with the accent styling.
pub open spec fn privmsg_line_spec(
    nick: Seq<char>,
    target: Seq<char>,
    body: Seq<char>,
    accent: Option<Rgb>,
) -> Seq<char> {
    if is_action_wrapped(body) {
        "\x1b[1m\x1b["@ + color_code_spec(accent) + "m* "@ + nick + "\x1b[0m "@ + action_text(body)
    } else if is_channel_name(target) {
        "\x1b[1m\x1b["@ + color_code_spec(accent) + "m<"@ + nick + ">\x1b[0m "@ + body
    } else {
        "\x1b[1m\x1b["@ + color_code_spec(accent) + "m<"@ + nick + "->You>\x1b[0m "@ + body
    }
}

/// The informational line for a numeric server response: well-known codes
/// get a readable prefix, all others the generic `code: text` form.
pub open spec fn numeric_line_spec(code: u16, text: Seq<char>) -> Seq<char> {
    if code == 1 {
        "*** Welcome: "@ + text
    } else if code == 372 || code == 375 || code == 376 {
        "*** MOTD: "@ + text
    } else {
        "*** "@ + dec_digits(code as nat) + ": "@ + text
    }
}

/// The whole decision for one stream item.
pub open spec fn listener_step_spec(item: ItemView, accent: Option<Rgb>) -> StepView {
    match item {
        ItemView::Event(ev) => match ev {
            EventView::Privmsg { prefix, target, body } => StepView {
                lines: seq![privmsg_line_spec(sender_nick(prefix), target, body, accent)],
                pong: None,
                disconnect: false,
                stop: false,
            },
            EventView::Notice { prefix, target, body } => StepView {
                lines: seq!["*** -"@ + sender_nick(prefix) + "- "@ + body],
                pong: None,
                disconnect: false,
                stop: false,
            },
            EventView::Join { prefix, channel } => StepView {
                lines: seq!["*** "@ + sender_nick(prefix) + " joined "@ + channel],
                pong: None,
                disconnect: false,
                stop: false,
            },
            EventView::Part { prefix, channel } => StepView {
                lines: seq!["*** "@ + sender_nick(prefix) + " left "@ + channel],
                pong: None,
                disconnect: false,
                stop: false,
            },
            EventView::Mode { target, details } => StepView {
                lines: seq!["*** Mode "@ + target + " "@ + details],
                pong: None,
                disconnect: false,
                stop: false,
            },
            EventView::Numeric { code, text } => StepView {
                lines: seq![numeric_line_spec(code, text)],
                pong: None,
                disconnect: false,
                stop: false,
            },
            EventView::Ping { token } => StepView {
                lines: seq!["*** Ping received"@],
                pong: Some(token),
                disconnect: false,
                stop: false,
            },
            EventView::ErrorMsg { text } => StepView {
                lines: seq!["IRC Error: "@ + text],
                pong: None,
                disconnect: true,
                stop: true,
            },
            EventView::Other { raw } => StepView {
                lines: seq![raw],
                pong: None,
                disconnect: false,
                stop: false,
            },
        },
        ItemView::TransportError(text) => StepView {
            lines: seq!["*** Connection error: "@ + text],
            pong: None,
            disconnect: true,
            stop: true,
        },
        ItemView::EndOfStream => StepView {
            lines: seq!["*** Connection closed"@],
            pong: None,
            disconnect: true,
            stop: true,
        },
    }
}

/// The sender's nick from an optional raw prefix.
fn sender_nick_exec(prefix: &Option<String>) -> (r: String)
    ensures
        r@ == sender_nick(opt_str_view(*prefix)),
{
    match prefix {
        Some(p) => {
            let cv = chars_of(p.as_str());
            let (head, _tail) = split2(&cv, '!');
            string_of(&head)
        },
        None => String::new(),
    }
}

/// Builds the display line for inbound text.
fn privmsg_line(nick: &String, target: &String, body: &String, accent: Option<Rgb>) -> (r: String)
    ensures
        r@ == privmsg_line_spec(nick@, target@, body@, accent),
{
    let bv = chars_of(body.as_str());
    let wrapped = bv.len() >= 2 && bv[0] == '\u{1}' && bv[bv.len() - 1] == '\u{1}';
    let mut s = String::from_str("\x1b[1m\x1b[");
    let cc = color_code(accent);
    s.append(cc.as_str());
    if wrapped {
        proof {
            assert(bv@.last() == bv@[bv@.len() - 1]);
        }
        let mut inner: Vec<char> = Vec::new();
        let mut k: usize = 1;
        while k < bv.len() - 1
            invariant
                bv@.len() >= 2,
                1 <= k <= bv@.len() - 1,
                inner@ == bv@.subrange(1, k as int),
            decreases bv.len() - k,
        {
            inner.push(bv[k]);
            proof {
                assert(bv@.subrange(1, k as int).push(bv@[k as int]) =~= bv@.subrange(1, k + 1));
            }
            k += 1;
        }
        let act: String = if starts_with_str(&inner, "ACTION ") {
            let mut trimmed: Vec<char> = Vec::new();
            let mut m: usize = 7;
            proof {
                reveal_strlit("ACTION ");
                assert(inner@.subrange(7, 7) =~= Seq::<char>::empty());
            }
            while m < inner.len()
                invariant
                    7 <= m <= inner@.len(),
                    trimmed@ == inner@.subrange(7, m as int),
                decreases inner.len() - m,
            {
                trimmed.push(inner[m]);
                proof {
                    assert(inner@.subrange(7, m as int).push(inner@[m as int]) =~= inner@.subrange(
                        7,
                        m + 1,
                    ));
                }
                m += 1;
            }
            proof {
                assert(inner@.subrange(7, inner@.len() as int) =~= inner@.skip(7));
            }
            string_of(&trimmed)
        } else {
            string_of(&inner)
        };
        s.append("m* ");
        s.append(nick.as_str());
        s.append("\x1b[0m ");
        s.append(act.as_str());
        proof {
            assert(is_action_wrapped(body@));
            assert(act@ == action_text(body@));
            assert(s@ =~= privmsg_line_spec(nick@, target@, body@, accent));
        }
        s
    } else {
        let tv = chars_of(target.as_str());
        let channel = tv.len() > 0 && (tv[0] == '#' || tv[0] == '&');
        if channel {
            s.append("m<");
            s.append(nick.as_str());
            s.append(">\x1b[0m ");
            s.append(body.as_str());
        } else {
            s.append("m<");
            s.append(nick.as_str());
            s.append("->You>\x1b[0m ");
            s.append(body.as_str());
        }
        proof {
            if bv@.len() >= 2 {
                assert(bv@.last() == bv@[bv@.len() - 1]);
            }
            assert(!is_action_wrapped(body@));
            assert(s@ =~= privmsg_line_spec(nick@, target@, body@, accent));
        }
        s
    }
}

/// Decides what to do with one stream item, exactly as
/// `listener_step_spec` says.
pub fn listener_step(item: StreamItem, accent: Option<Rgb>) -> (st: ListenerStep)
    ensures
        st@ == listener_step_spec(item@, accent),
{
    let ghost target_step = listener_step_spec(item@, accent);
    match item {
        StreamItem::Event(ev) => match ev {
            IrcEvent::Privmsg { prefix, target, body } => {
                let nick = sender_nick_exec(&prefix);
                let line = privmsg_line(&nick, &target, &body, accent);
                let mut lines: Vec<String> = Vec::new();
                lines.push(line);
                proof {
                    assert(lines.deep_view() =~~= target_step.lines);
                }
                ListenerStep { lines, pong: None, disconnect: false, stop: false }
            },
            IrcEvent::Notice { prefix, target: _, body } => {
                let nick = sender_nick_exec(&prefix);
                let mut s = String::from_str("*** -");
                s.append(nick.as_str());
                s.append("- ");
                s.append(body.as_str());
                let mut lines: Vec<String> = Vec::new();
                lines.push(s);
                proof {
                    assert(lines.deep_view() =~~= target_step.lines);
                }
                ListenerStep { lines, pong: None, disconnect: false, stop: false }
            },
            IrcEvent::Join { prefix, channel } => {
                let nick = sender_nick_exec(&prefix);
                let mut s = String::from_str("*** ");
                s.append(nick.as_str());
                s.append(" joined ");
                s.append(channel.as_str());
                let mut lines: Vec<String> = Vec::new();
                lines.push(s);
                proof {
                    assert(lines.deep_view() =~~= target_step.lines);
                }
                ListenerStep { lines, pong: None, disconnect: false, stop: false }
            },
            IrcEvent::Part { prefix, channel } => {
                let nick = sender_nick_exec(&prefix);
                let mut s = String::from_str("*** ");
                s.append(nick.as_str());
                s.append(" left ");
                s.append(channel.as_str());
                let mut lines: Vec<String> = Vec::new();
                lines.push(s);
                proof {
                    assert(lines.deep_view() =~~= target_step.lines);
                }
                ListenerStep { lines, pong: None, disconnect: false, stop: false }
            },
            IrcEvent::Mode { target, details } => {
                let mut s = String::from_str("*** Mode ");
                s.append(target.as_str());
                s.append(" ");
                s.append(details.as_str());
                let mut lines: Vec<String> = Vec::new();
                lines.push(s);
                proof {
                    assert(lines.deep_view() =~~= target_step.lines);
                }
                ListenerStep { lines, pong: None, disconnect: false, stop: false }
            },
            IrcEvent::Numeric { code, text } => {
                let mut s: String;
                if code == 1 {
                    s = String::from_str("*** Welcome: ");
                    s.append(text.as_str());
                } else if code == 372 || code == 375 || code == 376 {
                    s = String::from_str("*** MOTD: ");
                    s.append(text.as_str());
                } else {
                    s = String::from_str("*** ");
                    let n = u64_string(code as u64);
                    s.append(n.as_str());
                    s.append(": ");
                    s.append(text.as_str());
                }
                proof {
                    assert(s@ =~= numeric_line_spec(code, text@));
                }
                let mut lines: Vec<String> = Vec::new();
                lines.push(s);
                proof {
                    assert(lines.deep_view() =~~= target_step.lines);
                }
                ListenerStep { lines, pong: None, disconnect: false, stop: false }
            },
            IrcEvent::Ping { token } => {
                let mut lines: Vec<String> = Vec::new();
                lines.push(String::from_str("*** Ping received"));
                proof {
                    assert(lines.deep_view() =~~= target_step.lines);
                }
                ListenerStep { lines, pong: Some(token), disconnect: false, stop: false }
            },
            IrcEvent::ErrorMsg { text } => {
                let mut s = String::from_str("IRC Error: ");
                s.append(text.as_str());
                let mut lines: Vec<String> = Vec::new();
                lines.push(s);
                proof {
                    assert(lines.deep_view() =~~= target_step.lines);
                }
                ListenerStep { lines, pong: None, disconnect: true, stop: true }
            },
            IrcEvent::Other { raw } => {
                let mut lines: Vec<String> = Vec::new();
                lines.push(raw);
                proof {
                    assert(lines.deep_view() =~~= target_step.lines);
                }
                ListenerStep { lines, pong: None, disconnect: false, stop: false }
            },
        },
        StreamItem::TransportError(text) => {
            let mut s = String::from_str("*** Connection error: ");
            s.append(text.as_str());
            let mut lines: Vec<String> = Vec::new();
            lines.push(s);
            proof {
                assert(lines.deep_view() =~~= target_step.lines);
            }
            ListenerStep { lines, pong: None, disconnect: true, stop: true }
        },
        StreamItem::EndOfStream => {
            let mut lines: Vec<String> = Vec::new();
            lines.push(String::from_str("*** Connection closed"));
            proof {
                assert(lines.deep_view() =~~= target_step.lines);
            }
            ListenerStep { lines, pong: None, disconnect: true, stop: true }
        },
    }
}

} // verus!
