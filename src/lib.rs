//! A single-line command bar widget for terminal user interfaces, with a
//! popup wrapper and a table that binds characters to actions.
//!
//! The widgets never read the terminal themselves: the host reads one input
//! event and hands the outcome of that read to `handle_event`, which updates
//! the widget and reports whether the event was consumed.
use vstd::prelude::*;

/// Decoded input events as the widgets see them.
pub mod event;

/// Binding characters to actions.
pub mod key_hook;

/// The command bar widget and its popup wrapper.
pub mod widgets;

verus! {

} // verus!
