//! The typed commands that flow from the UI to the session controller, and
//! the snapshot of connection parameters kept for reconnection.

use vstd::prelude::*;

verus! {

/// A command on the bus from the UI to the session controller.
/// `Disconnected` is an internal signal produced by the connection listener,
/// never by the user.
#[derive(Debug, Clone)]
pub enum InputCommand {
    Connect { server: String, port: u16, nick: String, tls: bool },
    SendMessage { target: String, message: String },
    JoinChannel(String),
    PartChannel(String),
    Quit,
    SendPlainMessage(String),
    Disconnected,
}

/// Mathematical image of an `InputCommand`: its strings as character
/// sequences.
pub ghost enum CommandView {
    Connect { server: Seq<char>, port: u16, nick: Seq<char>, tls: bool },
    SendMessage { target: Seq<char>, message: Seq<char> },
    JoinChannel(Seq<char>),
    PartChannel(Seq<char>),
    Quit,
    SendPlainMessage(Seq<char>),
    Disconnected,
}

impl View for InputCommand {
    type V = CommandView;

    open spec fn view(&self) -> CommandView {
        match self {
            InputCommand::Connect { server, port, nick, tls } => CommandView::Connect {
                server: server@,
                port: *port,
                nick: nick@,
                tls: *tls,
            },
            InputCommand::SendMessage { target, message } => CommandView::SendMessage {
                target: target@,
                message: message@,
            },
            InputCommand::JoinChannel(name) => CommandView::JoinChannel(name@),
            InputCommand::PartChannel(name) => CommandView::PartChannel(name@),
            InputCommand::Quit => CommandView::Quit,
            InputCommand::SendPlainMessage(body) => CommandView::SendPlainMessage(body@),
            InputCommand::Disconnected => CommandView::Disconnected,
        }
    }
}

/// The view of an optional command.
pub open spec fn opt_command_view(c: Option<InputCommand>) -> Option<CommandView> {
    match c {
        Some(cmd) => Some(cmd@),
        None => None,
    }
}

/// The immutable snapshot of connection parameters taken at connect time and
/// re-used verbatim on every reconnection attempt.
#[derive(Debug)]
pub struct ConnectParams {
    pub server: String,
    pub port: u16,
    pub nick: String,
    pub tls: bool,
}

impl Clone for ConnectParams {
    fn clone(&self) -> (r: Self)
        ensures
            r@ == self@,
    {
        ConnectParams {
            server: self.server.clone(),
            port: self.port,
            nick: self.nick.clone(),
            tls: self.tls,
        }
    }
}

/// Mathematical image of `ConnectParams`.
pub ghost struct ParamsView {
    pub server: Seq<char>,
    pub port: u16,
    pub nick: Seq<char>,
    pub tls: bool,
}

impl View for ConnectParams {
    type V = ParamsView;

    open spec fn view(&self) -> ParamsView {
        ParamsView { server: self.server@, port: self.port, nick: self.nick@, tls: self.tls }
    }
}

} // verus!
