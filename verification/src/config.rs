//! User configuration as plain immutable values, loaded once at startup by
//! the surrounding process and passed down into the core, and the defaults
//! the `/connect` command falls back on.

use vstd::prelude::*;

verus! {

/// Connection-related configuration.
#[derive(Debug, Clone)]
pub struct IrcConfig {
    pub nick: Option<String>,
    pub port: Option<u16>,
    pub tls: Option<bool>,
}

/// Colour theme configuration; the colour strings are hexadecimal, resolved
/// by `crate::color::parse_color`.
#[derive(Debug, Clone)]
pub struct ThemeConfig {
    pub background: Option<String>,
    pub foreground: Option<String>,
    pub accent: Option<String>,
    pub muted: Option<String>,
    pub icons: Option<bool>,
}

/// Emoji aliases: each `(alias, emoji)` pair makes the controller replace
/// `:alias:` in outbound message bodies with the emoji, in list order.
#[derive(Debug, Clone)]
pub struct EmojiConfig {
    pub aliases: Vec<(String, String)>,
}

/// The whole user configuration.
#[derive(Debug, Clone)]
pub struct UserConfig {
    pub irc: Option<IrcConfig>,
    pub theme: Option<ThemeConfig>,
    pub emojis: Option<EmojiConfig>,
}

impl Default for UserConfig {
    /// The configuration with nothing set.
    fn default() -> (c: Self)
        ensures
            c.irc is None,
            c.theme is None,
            c.emojis is None,
    {
        UserConfig { irc: None, theme: None, emojis: None }
    }
}

/// The values `/connect` uses where the command line gives only the server.
#[derive(Debug, Clone)]
pub struct ConnectDefaults {
    pub port: u16,
    pub nick: String,
    pub tls: bool,
}

/// Mathematical image of `ConnectDefaults`.
pub ghost struct DefaultsView {
    pub port: u16,
    pub nick: Seq<char>,
    pub tls: bool,
}

impl View for ConnectDefaults {
    type V = DefaultsView;

    open spec fn view(&self) -> DefaultsView {
        DefaultsView { port: self.port, nick: self.nick@, tls: self.tls }
    }
}

/// The connection defaults a configuration yields: port 6697, nick "meow"
/// and TLS on, each overridden by the configuration where it is set.
pub open spec fn defaults_of(cfg: UserConfig) -> DefaultsView {
    DefaultsView {
        port: match cfg.irc {
            Some(i) => match i.port {
                Some(p) => p,
                None => 6697,
            },
            None => 6697,
        },
        nick: match cfg.irc {
            Some(i) => match i.nick {
                Some(n) => n@,
                None => "meow"@,
            },
            None => "meow"@,
        },
        tls: match cfg.irc {
            Some(i) => match i.tls {
                Some(t) => t,
                None => true,
            },
            None => true,
        },
    }
}

/// Resolves the `/connect` defaults from a configuration.
pub fn connect_defaults(cfg: &UserConfig) -> (d: ConnectDefaults)
    ensures
        d@ == defaults_of(*cfg),
{
    let mut port: u16 = 6697;
    let mut nick: String = String::from_str("meow");
    let mut tls: bool = true;
    match &cfg.irc {
        Some(i) => {
            match i.port {
                Some(p) => {
                    port = p;
                },
                None => {},
            }
            match &i.nick {
                Some(n) => {
                    nick = n.clone();
                },
                None => {},
            }
            match i.tls {
                Some(t) => {
                    tls = t;
                },
                None => {},
            }
        },
        None => {},
    }
    ConnectDefaults { port, nick, tls }
}

} // verus!
