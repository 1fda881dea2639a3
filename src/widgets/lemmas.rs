//! What holds of the command bar over every state and every sequence of
//! events, proved from the transition that `CommandBar::handle_event`
//! follows.
use vstd::prelude::*;

use super::command_bar::{fits, unregistered, BarState, EventHandlerResult, InputMode};
use crate::event::{Event, KeyCode, KeyEvent, ReadError};

verus! {

/// The state after handling the read outcomes `reads` one after the other.
pub open spec fn run(s: BarState, reads: Seq<Result<Event, ReadError>>) -> BarState
    decreases reads.len(),
{
    if reads.len() == 0 {
        s
    } else {
        run(s, reads.drop_last()).step(reads.last())
    }
}

/// Whether `read` is a key press of a character.
pub open spec fn is_char_press(read: Result<Event, ReadError>) -> bool {
    read matches Ok(Event::Key(KeyEvent { code: KeyCode::Char(_), .. }))
}

/// The character of a key press of a character.
pub open spec fn pressed_char(read: Result<Event, ReadError>) -> char
    recommends
        is_char_press(read),
{
    match read {
        Ok(Event::Key(KeyEvent { code: KeyCode::Char(c), .. })) => c,
        _ => ' ',
    }
}

/// The text after typing each of `cs` after `input`, keeping a character
/// exactly when the text with it fits in `max_width` columns.
pub open spec fn accepted(input: Seq<char>, cs: Seq<char>, max_width: u16) -> Seq<char>
    decreases cs.len(),
{
    if cs.len() == 0 {
        input
    } else {
        let before = accepted(input, cs.drop_last(), max_width);
        if fits(before, cs.last(), max_width) {
            before.push(cs.last())
        } else {
            before
        }
    }
}

/// Typing characters in editing mode keeps the bar in editing mode and
/// leaves as input the old input followed by each character that fitted
/// when it was typed; nothing else changes.
pub proof fn lemma_typing_keeps_what_fits(s: BarState, reads: Seq<Result<Event, ReadError>>)
    requires
        s.mode == InputMode::Editing,
        forall|i: int| 0 <= i < reads.len() ==> is_char_press(#[trigger] reads[i]),
    ensures
        run(s, reads) == (BarState {
            input: accepted(s.input, reads.map_values(|r| pressed_char(r)), s.max_width),
            ..s
        }),
    decreases reads.len(),
{
    if reads.len() > 0 {
        let front = reads.drop_last();
        assert forall|i: int| 0 <= i < front.len() implies is_char_press(#[trigger] front[i]) by {
            assert(front[i] == reads[i]);
        }
        lemma_typing_keeps_what_fits(s, front);
        let cs = reads.map_values(|r| pressed_char(r));
        assert(cs.drop_last() =~= front.map_values(|r| pressed_char(r)));
        assert(is_char_press(reads[reads.len() - 1]));
    }
}

/// Enter in editing mode commits a non-empty line: the input is emptied,
/// the line becomes the newest history entry and the bar returns to normal
/// mode.
pub proof fn lemma_enter_commits(s: BarState, key: KeyEvent)
    requires
        s.mode == InputMode::Editing,
        s.input.len() > 0,
        key.code == KeyCode::Enter,
    ensures
        s.step(Ok(Event::Key(key))).input.len() == 0,
        s.step(Ok(Event::Key(key))).history == s.history.push(s.input),
        s.step(Ok(Event::Key(key))).mode == InputMode::Normal,
        s.outcome(Ok(Event::Key(key))) == EventHandlerResult::Handled,
{
}

/// In normal mode the command key enters editing mode and is handled.
pub proof fn lemma_command_key_enters_editing(s: BarState, key: KeyEvent, c: char)
    requires
        s.mode == InputMode::Normal,
        s.command_key == Some(c),
        key.code == KeyCode::Char(c),
    ensures
        s.step(Ok(Event::Key(key))).mode == InputMode::Editing,
        s.outcome(Ok(Event::Key(key))) == EventHandlerResult::Handled,
{
}

/// In normal mode a character that is neither bound nor the command key is
/// handed back unhandled, and the bar stays as it was.
pub proof fn lemma_unclaimed_char_passes_through(s: BarState, key: KeyEvent, c: char)
    requires
        s.mode == InputMode::Normal,
        key.code == KeyCode::Char(c),
        s.binding(c) is None,
        s.command_key != Some(c),
    ensures
        s.step(Ok(Event::Key(key))) == s,
        s.outcome(Ok(Event::Key(key))) == EventHandlerResult::Unhandled(Event::Key(key)),
{
}

/// Escape in editing mode returns to normal mode and keeps the input and
/// the history as they were.
pub proof fn lemma_escape_leaves_editing(s: BarState, key: KeyEvent)
    requires
        s.mode == InputMode::Editing,
        key.code == KeyCode::Esc,
    ensures
        s.step(Ok(Event::Key(key))) == (BarState { mode: InputMode::Normal, ..s }),
        s.outcome(Ok(Event::Key(key))) == EventHandlerResult::Handled,
{
}

/// Unregistering the command key clears it, and in normal mode the old key
/// is then handed back unhandled.
pub proof fn lemma_unregistered_command_key_passes_through(
    pre: BarState,
    post: BarState,
    key: KeyEvent,
    c: char,
)
    requires
        pre.command_key == Some(c),
        pre.mode == InputMode::Normal,
        unregistered(pre, c, post),
        key.code == KeyCode::Char(c),
    ensures
        post.command_key is None,
        post.outcome(Ok(Event::Key(key))) == EventHandlerResult::Unhandled(Event::Key(key)),
        post.step(Ok(Event::Key(key))).mode == InputMode::Normal,
{
}

/// A failed read, in any state, is reported as an error and changes
/// nothing.
pub proof fn lemma_read_failure_changes_nothing(s: BarState, e: ReadError)
    ensures
        s.step(Err(e)) == s,
        s.outcome(Err(e)) == EventHandlerResult::Error,
{
}

} // verus!
