//! Widgets that display and edit a command line.

/// The command bar widget.
pub mod command_bar;

/// A popup that wraps a command bar.
pub mod popup;

/// What holds of the command bar over all states and event sequences.
pub mod lemmas;
