//! The render engine's state and its reaction to one terminal key event.
//!
//! The engine owns the input line, the input history, the scrollback and
//! the scroll offset. The surrounding process runs the draw loop: it
//! drains inbound display lines into `note_line`, draws `visible_lines`
//! and the input line, then polls for one key and hands it to `on_key`,
//! dispatching whatever command that returns onto the bus.

use vstd::prelude::*;
use crate::command::{opt_command_view, CommandView, InputCommand};
use crate::config::ConnectDefaults;
use crate::history::InputHistory;
use crate::input::{parse_line, parse_line_spec};
use crate::scrollback::{
    page_down,
    page_down_spec,
    page_up,
    page_up_spec,
    push_group_spec,
    ScrollbackBuffer,
};
use crate::text::{chars_of, string_of, trim_spec};
use crate::wrap::{format_message, format_message_spec};

verus! {

/// A terminal key event, reduced to what the engine reacts to.
pub enum Key {
    Char(char),
    Backspace,
    Enter,
    Esc,
    PageUp,
    PageDown,
    Up,
    Down,
}

/// What one key event yields beyond the engine's own state change: at
/// most one command for the bus, and whether the session ends.
pub struct KeyOutcome {
    pub command: Option<InputCommand>,
    pub quit: bool,
}

/// The scrollback after appending each of `lines` as one wrapped
/// line-group, in order.
pub open spec fn push_lines_spec(
    sb: Seq<Seq<Seq<char>>>,
    lines: Seq<Seq<char>>,
    width: nat,
    left: nat,
) -> Seq<Seq<Seq<char>>>
    decreases lines.len(),
{
    if lines.len() == 0 {
        sb
    } else {
        push_lines_spec(
            push_group_spec(sb, format_message_spec(lines[0], width, left)),
            lines.drop_first(),
            width,
            left,
        )
    }
}

/// The render engine's state.
pub struct Ui {
    /// The input line under edit; insertion and deletion at its end only.
    pub input: Vec<char>,
    pub history: InputHistory,
    pub scrollback: ScrollbackBuffer,
    pub scroll_offset: usize,
    /// Terminal width in columns.
    pub width: usize,
    /// Columns of left padding inside the width.
    pub left_padding: usize,
    /// Physical lines the message viewport shows.
    pub height: usize,
    /// Defaults for `/connect`.
    pub defaults: ConnectDefaults,
}

impl Ui {
    pub open spec fn inv(&self) -> bool {
        self.history.inv() && self.scrollback.inv()
    }

    /// The fixed layout and configuration fields are untouched.
    pub open spec fn same_frame(self, other: Ui) -> bool {
        self.width == other.width && self.left_padding == other.left_padding && self.height
            == other.height && self.defaults == other.defaults
    }

    pub fn new(width: usize, left_padding: usize, height: usize, defaults: ConnectDefaults) -> (u:
        Ui)
        ensures
            u.inv(),
            u.input@ == Seq::<char>::empty(),
            u.history.lines() =~= Seq::<Seq<char>>::empty(),
            u.history.cursor is None,
            u.scrollback@ =~= Seq::<Seq<Seq<char>>>::empty(),
            u.scroll_offset == 0,
            u.width == width && u.left_padding == left_padding && u.height == height,
            u.defaults == defaults,
    {
        Ui {
            input: Vec::new(),
            history: InputHistory::new(),
            scrollback: ScrollbackBuffer::new(),
            scroll_offset: 0,
            width,
            left_padding,
            height,
            defaults,
        }
    }

    /// The input line as a string, for drawing.
    pub fn input_string(&self) -> (r: String)
        ensures
            r@ == self.input@,
    {
        string_of(&self.input)
    }

    /// Consumes one inbound display line: wrapped at the engine's width
    /// and appended to the scrollback as one logical message.
    pub fn note_line(&mut self, line: &str)
        requires
            old(self).inv(),
        ensures
            final(self).inv(),
            final(self).scrollback@ == push_group_spec(
                old(self).scrollback@,
                format_message_spec(line@, old(self).width as nat, old(self).left_padding as nat),
            ),
            final(self).input == old(self).input,
            final(self).history == old(self).history,
            final(self).scroll_offset == old(self).scroll_offset,
            old(self).same_frame(*final(self)),
    {
        let group = format_message(line, self.width, self.left_padding);
        self.scrollback.push_group(group);
    }

    /// The window of scrollback lines the terminal shows now.
    pub fn visible_lines(&self) -> (r: Vec<String>)
        ensures
            r.deep_view() == self.scrollback@.flatten().subrange(
                crate::scrollback::visible_start_spec(
                    self.scrollback@.flatten().len(),
                    self.height as nat,
                    self.scroll_offset as nat,
                ),
                crate::scrollback::visible_end_spec(
                    self.scrollback@.flatten().len(),
                    self.scroll_offset as nat,
                ),
            ),
    {
        self.scrollback.visible_lines(self.height, self.scroll_offset)
    }

    /// Submits the current input line: records it in the history, resets
    /// scrolling and browsing, parses it, appends its local display lines
    /// to the scrollback, clears the input, and returns the command for
    /// the bus.
    fn submit(&mut self) -> (out: KeyOutcome)
        requires
            old(self).inv(),
        ensures
            final(self).inv(),
            old(self).same_frame(*final(self)),
            final(self).input@ == Seq::<char>::empty(),
            final(self).history.cursor is None,
            final(self).history.lines() == (if trim_spec(old(self).input@).len() > 0 {
                old(self).history.lines().push(old(self).input@)
            } else {
                old(self).history.lines()
            }),
            final(self).scroll_offset == 0,
            final(self).scrollback@ == push_lines_spec(
                old(self).scrollback@,
                parse_line_spec(old(self).input@, old(self).defaults@).lines,
                old(self).width as nat,
                old(self).left_padding as nat,
            ),
            opt_command_view(out.command) == parse_line_spec(
                old(self).input@,
                old(self).defaults@,
            ).command,
            out.quit == parse_line_spec(old(self).input@, old(self).defaults@).quit,
    {
        let line = string_of(&self.input);
        self.history.submit(line.as_str());
        self.scroll_offset = 0;
        let parsed = parse_line(line.as_str(), &self.defaults);
        let command = parsed.command;
        let lines = parsed.lines;
        let quit = parsed.quit;
        let ghost parsed_lines = lines.deep_view();
        let ghost sb0 = self.scrollback@;
        let ghost w = self.width as nat;
        let ghost l = self.left_padding as nat;
        let ghost hist0 = self.history;
        let mut i: usize = 0;
        proof {
            assert(parsed_lines.skip(0) =~= parsed_lines);
        }
        while i < lines.len()
            invariant
                i <= lines@.len(),
                parsed_lines == lines.deep_view(),
                self.scrollback.inv(),
                self.history == hist0,
                self.input == old(self).input,
                self.scroll_offset == 0,
                w == self.width as nat,
                l == self.left_padding as nat,
                old(self).same_frame(*self),
                push_lines_spec(sb0, parsed_lines, w, l) == push_lines_spec(
                    self.scrollback@,
                    parsed_lines.skip(i as int),
                    w,
                    l,
                ),
            decreases lines@.len() - i,
        {
            let group = format_message(lines[i].as_str(), self.width, self.left_padding);
            self.scrollback.push_group(group);
            proof {
                assert(parsed_lines.skip(i as int)[0] == parsed_lines[i as int]);
                assert(parsed_lines.skip(i as int).drop_first() =~= parsed_lines.skip(i + 1));
            }
            i += 1;
        }
        proof {
            assert(parsed_lines.skip(parsed_lines.len() as int) =~= Seq::<Seq<char>>::empty());
        }
        self.input.clear();
        KeyOutcome { command, quit }
    }

    /// Reacts to one key event.
    ///
    /// Character keys edit the end of the input line and stop history
    /// browsing; Enter submits; Escape asks to quit; PageUp and PageDown
    /// move the viewport, clamped; Up and Down browse the history.
    pub fn on_key(&mut self, k: Key) -> (out: KeyOutcome)
        requires
            old(self).inv(),
        ensures
            final(self).inv(),
            old(self).same_frame(*final(self)),
            match k {
                Key::Char(c) => ({
                    &&& final(self).input@ == old(self).input@.push(c)
                    &&& final(self).history.entries == old(self).history.entries
                    &&& final(self).history.cursor is None
                    &&& final(self).scrollback@ == old(self).scrollback@
                    &&& final(self).scroll_offset == old(self).scroll_offset
                    &&& out.command is None && !out.quit
                }),
                Key::Backspace => ({
                    &&& final(self).input@ == (if old(self).input@.len() > 0 {
                        old(self).input@.drop_last()
                    } else {
                        old(self).input@
                    })
                    &&& final(self).history.entries == old(self).history.entries
                    &&& final(self).history.cursor is None
                    &&& final(self).scrollback@ == old(self).scrollback@
                    &&& final(self).scroll_offset == old(self).scroll_offset
                    &&& out.command is None && !out.quit
                }),
                Key::Enter => ({
                    let parsed = parse_line_spec(old(self).input@, old(self).defaults@);
                    &&& final(self).input@ == Seq::<char>::empty()
                    &&& final(self).history.cursor is None
                    &&& final(self).history.lines() == (if trim_spec(old(self).input@).len() > 0 {
                        old(self).history.lines().push(old(self).input@)
                    } else {
                        old(self).history.lines()
                    })
                    &&& final(self).scroll_offset == 0
                    &&& final(self).scrollback@ == push_lines_spec(
                        old(self).scrollback@,
                        parsed.lines,
                        old(self).width as nat,
                        old(self).left_padding as nat,
                    )
                    &&& opt_command_view(out.command) == parsed.command
                    &&& out.quit == parsed.quit
                }),
                Key::Esc => ({
                    &&& final(self).input == old(self).input
                    &&& final(self).history == old(self).history
                    &&& final(self).scrollback@ == old(self).scrollback@
                    &&& final(self).scroll_offset == old(self).scroll_offset
                    &&& out.command matches Some(c) && c@ == CommandView::Quit
                    &&& out.quit
                }),
                Key::PageUp => ({
                    &&& final(self).input == old(self).input
                    &&& final(self).history == old(self).history
                    &&& final(self).scrollback@ == old(self).scrollback@
                    &&& final(self).scroll_offset == page_up_spec(
                        old(self).scroll_offset as nat,
                        old(self).scrollback@.flatten().len(),
                    )
                    &&& out.command is None && !out.quit
                }),
                Key::PageDown => ({
                    &&& final(self).input == old(self).input
                    &&& final(self).history == old(self).history
                    &&& final(self).scrollback@ == old(self).scrollback@
                    &&& final(self).scroll_offset == page_down_spec(old(self).scroll_offset as nat)
                    &&& out.command is None && !out.quit
                }),
                Key::Up => ({
                    let h = old(self).history;
                    &&& final(self).scrollback@ == old(self).scrollback@
                    &&& final(self).scroll_offset == old(self).scroll_offset
                    &&& final(self).history.entries == h.entries
                    &&& out.command is None && !out.quit
                    &&& if h.entries@.len() == 0 {
                        final(self).input == old(self).input && final(self).history.cursor
                            == h.cursor
                    } else {
                        final(self).history.cursor == Some(h.up_index() as usize) && final(self).input@
                            == h.lines()[h.up_index()]
                    }
                }),
                Key::Down => ({
                    let h = old(self).history;
                    &&& final(self).scrollback@ == old(self).scrollback@
                    &&& final(self).scroll_offset == old(self).scroll_offset
                    &&& final(self).history.entries == h.entries
                    &&& out.command is None && !out.quit
                    &&& if h.entries@.len() == 0 {
                        final(self).input == old(self).input && final(self).history.cursor
                            == h.cursor
                    } else {
                        match h.cursor {
                            Some(i) if i + 1 < h.entries@.len() => ({
                                &&& final(self).history.cursor == Some((i + 1) as usize)
                                &&& final(self).input@ == h.lines()[i + 1]
                            }),
                            _ => ({
                                &&& final(self).history.cursor is None
                                &&& final(self).input@ == Seq::<char>::empty()
                            }),
                        }
                    }
                }),
            },
    {
        match k {
            Key::Char(c) => {
                self.input.push(c);
                self.history.reset_cursor();
                KeyOutcome { command: None, quit: false }
            },
            Key::Backspace => {
                if self.input.len() > 0 {
                    self.input.pop();
                }
                self.history.reset_cursor();
                KeyOutcome { command: None, quit: false }
            },
            Key::Enter => self.submit(),
            Key::Esc => KeyOutcome { command: Some(InputCommand::Quit), quit: true },
            Key::PageUp => {
                let flat = self.scrollback.flat_lines();
                proof {
                    assert(flat.deep_view().len() == flat@.len());
                }
                self.scroll_offset = page_up(self.scroll_offset, flat.len());
                KeyOutcome { command: None, quit: false }
            },
            Key::PageDown => {
                self.scroll_offset = page_down(self.scroll_offset);
                KeyOutcome { command: None, quit: false }
            },
            Key::Up => {
                let shown = self.history.up();
                match shown {
                    Some(s) => {
                        self.input = chars_of(s.as_str());
                    },
                    None => {},
                }
                KeyOutcome { command: None, quit: false }
            },
            Key::Down => {
                let shown = self.history.down();
                match shown {
                    Some(s) => {
                        self.input = chars_of(s.as_str());
                    },
                    None => {},
                }
                KeyOutcome { command: None, quit: false }
            },
        }
    }
}

} // verus!
