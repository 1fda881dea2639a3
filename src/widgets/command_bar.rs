//! A command bar widget: a line of text that the user edits to enter
//! commands.
//!
//! The bar is in normal mode until its command key is pressed; it then
//! takes keystrokes as text until Enter commits the line or Escape leaves.
//! A committed line is kept in the bar's history and, when the bar was built
//! with a sending end of a channel, sent on it.
use std::sync::mpsc::{SendError, Sender};
use unicode_width::UnicodeWidthStr;
use vstd::prelude::*;

use crate::event::{Event, KeyCode, ReadError};
use crate::key_hook::key_hook::{KeyAction, KeyDatabase, KeyHook};

verus! {

broadcast use vstd::std_specs::hash::group_hash_axioms;

/// The displayed width of a string in terminal columns, as the
/// `unicode-width` crate measures it.
pub uninterp spec fn str_width(s: Seq<char>) -> usize;

/// Relies on `UnicodeWidthStr::width` for `str`: the displayed width of the
/// string, a function of its characters alone.
#[verifier::external_body]
fn display_width(s: &str) -> (r: usize)
    ensures
        r == str_width(s@),
{
    UnicodeWidthStr::width(s)
}

/// Relies on `String::push`: appends the character at the end.
pub assume_specification[ String::push ](s: &mut String, ch: char)
    ensures
        final(s)@ == old(s)@.push(ch),
;

/// Relies on `String::pop`: removes and returns the last character, or
/// returns `None` on an empty string.
pub assume_specification[ String::pop ](s: &mut String) -> (r: Option<char>)
    ensures
        old(s)@.len() == 0 ==> r is None && final(s)@ == old(s)@,
        old(s)@.len() > 0 ==> r == Some(old(s)@.last()) && final(s)@ == old(s)@.drop_last(),
;

/// The sending end of a channel, from `std::sync::mpsc`.
#[verifier::external_type_specification]
#[verifier::external_body]
#[verifier::reject_recursive_types(T)]
pub struct ExSender<T>(Sender<T>);

/// The error of a failed send, which gives the value back.
#[verifier::external_type_specification]
#[verifier::reject_recursive_types(T)]
pub struct ExSendError<T>(SendError<T>);

/// Relies on `Sender::send`: it fails only when the receiving end is gone,
/// and then hands the value back inside the error.
pub assume_specification<T>[ Sender::<T>::send ](tx: &Sender<T>, t: T) -> (r: Result<
    (),
    SendError<T>,
>)
    ensures
        r matches Err(e) ==> e.0 == t,
;

/// A CommandBar has an InputMode that indicates its editing state.
#[derive(Clone, Copy, Debug, PartialEq, Eq, Structural)]
pub enum InputMode {
    /// Normal means the CommandBar is not being edited.
    /// Depending on the widget type, it may not be visible or it may be unfocused.
    Normal,
    /// Editing means the CommandBar is in edit mode.
    Editing,
}

/// The outcome of handling one event.
#[derive(Clone, Copy, Debug, PartialEq, Eq, Structural)]
pub enum EventHandlerResult {
    /// The CommandBar consumed the event.
    Handled,
    /// The event could not be read.
    Error,
    /// The CommandBar did not know what to do with the event: the caller
    /// decides.
    Unhandled(Event),
}

/// CommandBar is a widget for easy editing of commands in a line.
pub struct CommandBar {
    /// Command key to activate the CommandBar.
    pub command_key: Option<char>,
    /// Current value of the input box.
    pub input: String,
    /// Current input mode.
    pub input_mode: InputMode,
    /// History of recorded messages, oldest first.
    pub messages: Vec<String>,
    /// Channel to send committed messages on.
    pub tx_channel: Option<Sender<String>>,
    /// The most columns of text the bar shows: typing stops there.
    pub width: u16,
    /// The key database to store key actions.
    pub key_database: KeyDatabase,
}

/// What a CommandBar holds, as mathematical values.
pub struct BarState {
    pub command_key: Option<char>,
    pub input: Seq<char>,
    pub mode: InputMode,
    pub history: Seq<Seq<char>>,
    pub max_width: u16,
    pub keys: Map<u32, KeyAction>,
}

impl View for CommandBar {
    type V = BarState;

    open spec fn view(&self) -> BarState {
        BarState {
            command_key: self.command_key,
            input: self.input@,
            mode: self.input_mode,
            history: self.messages@.map_values(|m: String| m@),
            max_width: self.width,
            keys: self.key_database.keys@,
        }
    }
}

/// Whether typing `c` after `input` keeps the text within `max_width`
/// columns.
pub open spec fn fits(input: Seq<char>, c: char, max_width: u16) -> bool {
    str_width(input.push(c)) <= max_width
}

impl BarState {
    /// The action bound to `c`, if any.
    pub open spec fn binding(self, c: char) -> Option<KeyAction> {
        if self.keys.contains_key(c as u32) {
            Some(self.keys[c as u32])
        } else {
            None
        }
    }

    /// Whether the bar, in normal mode, consumes the character `c`: it is
    /// bound to an action, or it is the command key.
    pub open spec fn claims(self, c: char) -> bool {
        self.binding(c) is Some || self.command_key == Some(c)
    }

    /// The state after the input line is committed: the line moves to the
    /// end of the history and the bar returns to normal mode.
    pub open spec fn submitted(self) -> BarState {
        BarState {
            input: Seq::empty(),
            history: self.history.push(self.input),
            mode: InputMode::Normal,
            ..self
        }
    }

    /// The state after a character is typed in editing mode: it is appended
    /// only when the text still fits.
    pub open spec fn typed(self, c: char) -> BarState {
        if fits(self.input, c, self.max_width) {
            BarState { input: self.input.push(c), ..self }
        } else {
            self
        }
    }

    /// The state after one event has been handled.
    pub open spec fn step(self, read: Result<Event, ReadError>) -> BarState {
        match read {
            Err(_) => self,
            Ok(Event::Key(key)) => match self.mode {
                InputMode::Normal => match key.code {
                    KeyCode::Char(c) => if self.binding(c) == Some(KeyAction::CommandKey)
                        || self.command_key == Some(c) {
                        BarState { mode: InputMode::Editing, ..self }
                    } else {
                        self
                    },
                    _ => self,
                },
                InputMode::Editing => match key.code {
                    KeyCode::Enter => self.submitted(),
                    KeyCode::Esc => BarState { mode: InputMode::Normal, ..self },
                    KeyCode::Backspace => if self.input.len() > 0 {
                        BarState { input: self.input.drop_last(), ..self }
                    } else {
                        self
                    },
                    KeyCode::Char(c) => self.typed(c),
                    KeyCode::Other => self,
                },
            },
            Ok(_) => self,
        }
    }

    /// What handling one event reports.
    pub open spec fn outcome(self, read: Result<Event, ReadError>) -> EventHandlerResult {
        match read {
            Err(_) => EventHandlerResult::Error,
            Ok(event) => {
                let handled = match event {
                    Event::Key(key) => match self.mode {
                        InputMode::Normal => match key.code {
                            KeyCode::Char(c) => self.claims(c),
                            _ => false,
                        },
                        InputMode::Editing => !(key.code is Other),
                    },
                    _ => false,
                };
                if handled {
                    EventHandlerResult::Handled
                } else {
                    EventHandlerResult::Unhandled(event)
                }
            },
        }
    }
}

impl Default for CommandBar {
    fn default() -> (r: CommandBar)
        ensures
            r.command_key is None,
            r.input@ == Seq::<char>::empty(),
            r.input_mode == InputMode::Normal,
            r.messages@ == Seq::<String>::empty(),
            r.tx_channel is None,
            r.width == 0,
            r.key_database.keys@ == Map::<u32, KeyAction>::empty(),
    {
        CommandBar {
            command_key: None,
            input: String::new(),
            input_mode: InputMode::Normal,
            messages: Vec::new(),
            tx_channel: None,
            width: 0,
            key_database: KeyDatabase::default(),
        }
    }
}

impl KeyHook for CommandBar {
    /// Bind `key` to `action` and make it the command key.
    fn register_key(&mut self, key: char, action: KeyAction)
        ensures
            final(self).command_key == Some(key),
            final(self).key_database.keys@ == old(self).key_database.keys@.insert(
                key as u32,
                action,
            ),
            final(self).input@ == old(self).input@,
            final(self).input_mode == old(self).input_mode,
            final(self).messages@ == old(self).messages@,
            final(self).tx_channel == old(self).tx_channel,
            final(self).width == old(self).width,
    {
        self.command_key = Some(key);
        self.key_database.insert(key, action);
    }

    /// Remove the binding of `key`; when it is the command key, the bar is
    /// left without one.
    fn unregister_key(&mut self, key: char)
        ensures
            unregistered(old(self)@, key, final(self)@),
            final(self).tx_channel == old(self).tx_channel,
    {
        self.key_database.remove(key);
        if let Some(command_key) = self.command_key {
            if command_key == key {
                self.command_key = None;
            }
        }
    }
}

/// `post` is `pre` with the binding of `key` removed, and without a command
/// key when `key` was it.
pub open spec fn unregistered(pre: BarState, key: char, post: BarState) -> bool {
    post == BarState {
        keys: pre.keys.remove(key as u32),
        command_key: if pre.command_key == Some(key) {
            None
        } else {
            pre.command_key
        },
        ..pre
    }
}

impl CommandBar {
    /// Build a default CommandBar that sends each committed message on
    /// `tx_channel`.
    pub fn default_with_tx_channel(tx_channel: Sender<String>) -> (r: Self)
        ensures
            r.tx_channel == Some(tx_channel),
            r.command_key is None,
            r.input@ == Seq::<char>::empty(),
            r.input_mode == InputMode::Normal,
            r.messages@ == Seq::<String>::empty(),
            r.width == 0,
            r.key_database.keys@ == Map::<u32, KeyAction>::empty(),
    {
        let mut bar = CommandBar::default();
        bar.tx_channel = Some(tx_channel);
        bar
    }

    /// Take the input line out of the bar: it is moved to the end of the
    /// history, the input is left empty and the bar returns to normal mode.
    /// The line is returned.
    pub fn take_input(&mut self) -> (line: String)
        ensures
            line@ == old(self)@.input,
            final(self)@ == old(self)@.submitted(),
            final(self).tx_channel == old(self).tx_channel,
    {
        let line = self.input.clone();
        self.input = String::new();
        let ghost old_messages = self.messages@;
        self.messages.push(line.clone());
        proof {
            assert(self.messages@ == old_messages.push(line));
            assert(self@.history =~= old(self)@.history.push(old(self)@.input));
        }
        self.input_mode = InputMode::Normal;
        line
    }

    /// Commit the input line and close the command bar: `take_input` takes
    /// the line out, and the line it returns is what is sent, unchanged, on
    /// the channel if there is one.
    ///
    /// Without a channel this succeeds. With one, the send fails only when
    /// the receiving end is gone, and then gives the line back in the error;
    /// the bar's state is the same either way.
    pub fn submit(&mut self) -> (r: Result<(), SendError<String>>)
        ensures
            final(self)@ == old(self)@.submitted(),
            final(self).tx_channel == old(self).tx_channel,
            old(self).tx_channel is None ==> r is Ok,
            r matches Err(e) ==> e.0@ == old(self).input@,
    {
        let line = self.take_input();
        match &self.tx_channel {
            Some(tx) => tx.send(line),
            None => Ok(()),
        }
    }

    /// Change the input mode to Normal.
    /// Different widgets may hide the CommandBar or unfocus it.
    pub fn normal(&mut self)
        ensures
            final(self)@ == (BarState { mode: InputMode::Normal, ..old(self)@ }),
            final(self).tx_channel == old(self).tx_channel,
    {
        self.input_mode = InputMode::Normal;
    }

    /// Handle the command key: in normal mode, enter editing mode.
    pub fn command_key_handler(&mut self, key: char)
        ensures
            final(self)@ == (BarState { mode: InputMode::Editing, ..old(self)@ }),
            final(self).tx_channel == old(self).tx_channel,
    {
        if let InputMode::Normal = self.input_mode {
            self.input_mode = InputMode::Editing;
        }
    }

    /// Append `c` to the input when the text with it, `new_width` columns
    /// wide, fits in the bar; otherwise drop it.
    pub fn push_char(&mut self, c: char, new_width: usize)
        ensures
            final(self)@ == (if new_width <= old(self).width {
                BarState { input: old(self)@.input.push(c), ..old(self)@ }
            } else {
                old(self)@
            }),
            final(self).tx_channel == old(self).tx_channel,
    {
        if new_width <= self.width as usize {
            self.input.push(c);
        }
    }

    /// Fit the bar to a drawing area `area_width` columns wide: the border
    /// takes one column on each side, and the text may use the rest.
    pub fn fit_width(&mut self, area_width: u16)
        requires
            area_width >= 2,
        ensures
            final(self)@ == (BarState { max_width: (area_width - 2) as u16, ..old(self)@ }),
            final(self).tx_channel == old(self).tx_channel,
    {
        self.width = area_width - 2;
    }

    /// Type `c` in editing mode: it is kept only when the text still fits.
    fn type_char(&mut self, c: char)
        ensures
            final(self)@ == old(self)@.typed(c),
            final(self).tx_channel == old(self).tx_channel,
    {
        let mut candidate = self.input.clone();
        candidate.push(c);
        let new_width = display_width(candidate.as_str());
        self.push_char(c, new_width);
    }

    /// Handle one event, given as the outcome of reading it.
    ///
    /// In normal mode a character bound to an action runs that action, and
    /// the command key then enters editing mode. In editing mode Enter
    /// commits the line, Escape returns to normal mode, Backspace deletes
    /// the last character, and a character is typed if it fits. Escape keeps
    /// the input: editing again later goes on from the same text. Enter
    /// commits through `submit`; the line is in the history whether or not
    /// the send succeeds, and a failed send does not change the outcome.
    /// What the bar does not consume is handed back as `Unhandled`; a failed
    /// read is reported as `Error` and changes nothing.
    pub fn handle_event(&mut self, read: Result<Event, ReadError>) -> (r: EventHandlerResult)
        ensures
            final(self)@ == old(self)@.step(read),
            r == old(self)@.outcome(read),
            final(self).tx_channel == old(self).tx_channel,
    {
        let event = match read {
            Ok(e) => e,
            Err(_) => {
                return EventHandlerResult::Error;
            },
        };
        let handled = match event {
            Event::Key(key) => match self.input_mode {
                InputMode::Normal => match key.code {
                    KeyCode::Char(k) => {
                        let mut handled = false;
                        if let Some(action) = self.key_database.lookup(k) {
                            if let KeyAction::CommandKey = action {
                                self.command_key_handler(k);
                            }
                            handled = true;
                        }
                        if let Some(c) = self.command_key {
                            if c == k {
                                self.command_key_handler(k);
                                handled = true;
                            }
                        }
                        handled
                    },
                    _ => false,
                },
                InputMode::Editing => match key.code {
                    KeyCode::Enter => {
                        let _ = self.submit();
                        true
                    },
                    KeyCode::Char(c) => {
                        self.type_char(c);
                        true
                    },
                    KeyCode::Backspace => {
                        let _ = self.input.pop();
                        true
                    },
                    KeyCode::Esc => {
                        self.normal();
                        true
                    },
                    KeyCode::Other => false,
                },
            },
            _ => false,
        };
        if handled {
            EventHandlerResult::Handled
        } else {
            EventHandlerResult::Unhandled(event)
        }
    }
}

} // verus!
