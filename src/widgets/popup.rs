//! A popup that wraps a CommandBar: it is shown while the bar is being
//! edited.
use vstd::prelude::*;

use super::command_bar::{CommandBar, EventHandlerResult, InputMode};
use crate::event::{Event, ReadError};
use crate::key_hook::key_hook::{KeyAction, KeyHook};

verus! {

/// A Popup widget that wraps a CommandBar in a popup or dialog.
pub struct Popup {
    /// Whether the popup should be shown: the bar is being edited. It is
    /// brought up to date after each event that the bar handles.
    pub show_popup: bool,
    /// The wrapped CommandBar.
    pub command_bar: CommandBar,
}

impl Default for Popup {
    fn default() -> (r: Popup)
        ensures
            !r.show_popup,
            r.command_bar.command_key is None,
            r.command_bar.input@ == Seq::<char>::empty(),
            r.command_bar.input_mode == InputMode::Normal,
            r.command_bar.messages@ == Seq::<String>::empty(),
            r.command_bar.tx_channel is None,
            r.command_bar.width == 0,
            r.command_bar.key_database.keys@ == Map::<u32, KeyAction>::empty(),
    {
        Popup { command_bar: CommandBar::default(), show_popup: false }
    }
}

impl KeyHook for Popup {
    /// Bind `key` to `action` on the wrapped bar and make it its command key.
    fn register_key(&mut self, key: char, action: KeyAction)
        ensures
            final(self).show_popup == old(self).show_popup,
            final(self).command_bar.command_key == Some(key),
            final(self).command_bar.key_database.keys@
                == old(self).command_bar.key_database.keys@.insert(key as u32, action),
            final(self).command_bar.input@ == old(self).command_bar.input@,
            final(self).command_bar.input_mode == old(self).command_bar.input_mode,
            final(self).command_bar.messages@ == old(self).command_bar.messages@,
            final(self).command_bar.tx_channel == old(self).command_bar.tx_channel,
            final(self).command_bar.width == old(self).command_bar.width,
    {
        self.command_bar.register_key(key, action);
    }

    /// Remove the binding of `key` from the wrapped bar; when it is the
    /// command key, the bar is left without one.
    fn unregister_key(&mut self, key: char)
        ensures
            final(self).show_popup == old(self).show_popup,
            super::command_bar::unregistered(old(self).command_bar@, key, final(self).command_bar@),
            final(self).command_bar.tx_channel == old(self).command_bar.tx_channel,
    {
        self.command_bar.unregister_key(key);
    }
}

impl Popup {
    /// Handle one event through the wrapped bar. When the bar handled it,
    /// the popup is shown exactly when the bar is now in editing mode;
    /// otherwise the popup stays as it was.
    pub fn handle_event(&mut self, read: Result<Event, ReadError>) -> (r: EventHandlerResult)
        ensures
            final(self).command_bar@ == old(self).command_bar@.step(read),
            final(self).command_bar.tx_channel == old(self).command_bar.tx_channel,
            r == old(self).command_bar@.outcome(read),
            final(self).show_popup == (if r == EventHandlerResult::Handled {
                final(self).command_bar.input_mode == InputMode::Editing
            } else {
                old(self).show_popup
            }),
    {
        let res = self.command_bar.handle_event(read);
        if let EventHandlerResult::Handled = res {
            match self.command_bar.input_mode {
                InputMode::Normal => {
                    self.show_popup = false;
                },
                InputMode::Editing => {
                    self.show_popup = true;
                },
            }
        }
        res
    }
}

} // verus!
