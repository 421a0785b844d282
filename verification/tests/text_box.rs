use tipp10w::event_result::{EventResult, ResultError};
use tipp10w::input::{InputEvent, KeyCode};
use tipp10w::text_box::TextBox;

#[test]
fn test_new_text_box() {
    let text_box = TextBox::new(Some(10));
    assert_eq!(text_box.get_ptr(), 0);
    assert_eq!(text_box.get_buffer(), "");
    assert_eq!(text_box.get_max_len(), Some(10));
}

#[test]
fn test_with_preset() {
    let text_box = TextBox::with_preset("hello", Some(10));
    assert_eq!(text_box.get_ptr(), 0);
    assert_eq!(text_box.get_buffer(), "hello");
    assert_eq!(text_box.get_max_len(), Some(10));
}

#[test]
fn test_handle_events_left_key() {
    let mut text_box = TextBox::with_preset("hello", None);
    text_box.set_ptr(3).unwrap();
    let event = InputEvent::Key(KeyCode::Left);
    text_box.handle_events(&event);
    assert_eq!(text_box.get_ptr(), 2);
}

#[test]
fn test_handle_events_right_key() {
    let mut text_box = TextBox::with_preset("hello", None);
    text_box.set_ptr(3).unwrap();
    let event = InputEvent::Key(KeyCode::Right);
    text_box.handle_events(&event);
    assert_eq!(text_box.get_ptr(), 4);
}

#[test]
fn test_handle_events_backspace_key() {
    let mut text_box = TextBox::with_preset("hello", None);
    text_box.set_ptr(3).unwrap();
    let event = InputEvent::Key(KeyCode::Backspace);
    text_box.handle_events(&event);
    assert_eq!(text_box.get_buffer(), "helo");
    assert_eq!(text_box.get_ptr(), 2);
}

#[test]
fn test_handle_events_delete_key() {
    let mut text_box = TextBox::with_preset("hello", None);
    text_box.set_ptr(3).unwrap();
    let event = InputEvent::Key(KeyCode::Delete);
    text_box.handle_events(&event);
    assert_eq!(text_box.get_buffer(), "helo");
    assert_eq!(text_box.get_ptr(), 3);
}

#[test]
fn test_handle_events_char_key() {
    let mut text_box = TextBox::with_preset("hello", None);
    text_box.set_ptr(3).unwrap();
    let event = InputEvent::Key(KeyCode::Char('x'));
    text_box.handle_events(&event);
    assert_eq!(text_box.get_buffer(), "helxlo");
    assert_eq!(text_box.get_ptr(), 4);
}

#[test]
fn test_handle_events_paste() {
    let mut text_box = TextBox::with_preset("hello", None);
    text_box.set_ptr(3).unwrap();
    let event = InputEvent::Paste("world".to_string());
    text_box.handle_events(&event);
    assert_eq!(text_box.get_buffer(), "helworldlo");
    assert_eq!(text_box.get_ptr(), 8);
}

#[test]
fn test_set_ptr_out_of_bounds() {
    let mut text_box = TextBox::with_preset("hello", None);
    let result = text_box.set_ptr(10);
    assert!(result.is_err());
}

#[test]
fn test_reset() {
    let mut text_box = TextBox::with_preset("hello", None);
    text_box.reset();
    assert_eq!(text_box.get_ptr(), 0);
    assert_eq!(text_box.get_buffer(), "");
}

#[test]
fn test_paste_atomicity() {
    // A paste that would exceed the limit changes nothing at all.
    let mut text_box = TextBox::with_preset("hello", Some(6));
    text_box.set_ptr(3).unwrap();
    let event = InputEvent::Paste("world".to_string());
    let result = text_box.handle_events(&event);
    assert_eq!(result, EventResult::Nothing(ResultError::MaxLenReached));
    assert_eq!(text_box.get_buffer(), "hello");
    assert_eq!(text_box.get_ptr(), 3);
}

#[test]
fn test_char_at_max_len() {
    let mut text_box = TextBox::with_preset("hello", Some(5));
    let event = InputEvent::Key(KeyCode::Char('x'));
    let result = text_box.handle_events(&event);
    assert_eq!(result, EventResult::Nothing(ResultError::MaxLenReached));
    assert_eq!(text_box.get_buffer(), "hello");
}

#[test]
fn test_set_buf_clamps_pointer() {
    let mut text_box = TextBox::with_preset("hello", None);
    text_box.set_ptr(5).unwrap();
    text_box.set_buf("ab");
    assert_eq!(text_box.get_buffer(), "ab");
    assert_eq!(text_box.get_ptr(), 2);
}

#[test]
fn test_enter_submits() {
    let mut text_box = TextBox::with_preset("hello", None);
    let result = text_box.handle_events(&InputEvent::Key(KeyCode::Enter));
    assert_eq!(result, EventResult::Submit);
    assert_eq!(text_box.get_buffer(), "hello");
}
