use tui_command_bar_widget::event::{Event, KeyCode, KeyEvent, ReadError, NONE};
use tui_command_bar_widget::key_hook::key_hook::{KeyAction, KeyHook};
use tui_command_bar_widget::widgets::command_bar::{CommandBar, EventHandlerResult, InputMode};
use tui_command_bar_widget::widgets::popup::Popup;

fn key(code: KeyCode) -> Result<Event, ReadError> {
    Ok(Event::Key(KeyEvent::new(code, NONE)))
}

#[test]
fn popup_default() {
    let popup = Popup::default();
    let command_bar = CommandBar::default();

    assert!(!popup.show_popup);
    assert_eq!(popup.command_bar.command_key, command_bar.command_key);
    assert_eq!(popup.command_bar.input, command_bar.input);
    assert_eq!(popup.command_bar.input_mode, command_bar.input_mode);
    assert_eq!(popup.command_bar.messages, command_bar.messages);
    assert_eq!(popup.command_bar.width, command_bar.width);
}

#[test]
fn popup_shows_while_editing() {
    let mut popup = Popup::default();
    popup.register_key('p', KeyAction::CommandKey);
    popup.command_bar.fit_width(20);
    assert_eq!(popup.handle_event(key(KeyCode::Char('p'))), EventHandlerResult::Handled);
    assert!(popup.show_popup);
    assert_eq!(popup.handle_event(key(KeyCode::Char('q'))), EventHandlerResult::Handled);
    assert!(popup.show_popup);
    assert_eq!(popup.handle_event(key(KeyCode::Enter)), EventHandlerResult::Handled);
    assert!(!popup.show_popup);
    assert_eq!(popup.command_bar.messages, vec![String::from("q")]);
}

#[test]
fn popup_keeps_its_visibility_on_errors_and_unhandled_events() {
    let mut popup = Popup::default();
    popup.register_key('p', KeyAction::CommandKey);
    popup.handle_event(key(KeyCode::Char('p')));
    assert!(popup.show_popup);
    assert_eq!(popup.handle_event(Err(ReadError)), EventHandlerResult::Error);
    assert!(popup.show_popup);
    assert_eq!(
        popup.handle_event(Ok(Event::Resize(10, 10))),
        EventHandlerResult::Unhandled(Event::Resize(10, 10))
    );
    assert!(popup.show_popup);
    assert_eq!(popup.handle_event(key(KeyCode::Esc)), EventHandlerResult::Handled);
    assert!(!popup.show_popup);
    assert_eq!(popup.command_bar.input_mode, InputMode::Normal);
}

#[test]
fn popup_unregisters_the_command_key() {
    let mut popup = Popup::default();
    popup.register_key('p', KeyAction::CommandKey);
    popup.unregister_key('p');
    assert_eq!(popup.command_bar.command_key, None);
    assert_eq!(
        popup.handle_event(key(KeyCode::Char('p'))),
        EventHandlerResult::Unhandled(Event::Key(KeyEvent::new(KeyCode::Char('p'), NONE)))
    );
    assert!(!popup.show_popup);
}
