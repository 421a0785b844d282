use rusqlite::Connection;

use tipp10w::action_selection::ActionSelection;
use tipp10w::event_result::{EventResult, ResultError};
use tipp10w::input::{InputEvent, KeyCode};
use tipp10w::parameter_widget::ParameterWidget;
use tipp10w::state::SubState;
use tipp10w::store::get_lessons;
use tipp10w::text_box::TextBox;

fn setup_db() -> Connection {
    let conn = Connection::open_in_memory().unwrap();
    conn.execute(
        "CREATE TABLE user_lesson_list (
            user_lesson_id INTEGER PRIMARY KEY,
            user_lesson_lesson TEXT NOT NULL,
            user_lesson_timelen INTEGER NOT NULL,
            user_lesson_tokenlen INTEGER NOT NULL,
            user_lesson_strokesnum INTEGER NOT NULL,
            user_lesson_errornum INTEGER NOT NULL,
            user_lesson_timestamp TEXT NOT NULL,
            user_lesson_type INTEGER NOT NULL,
            user_lesson_name TEXT NOT NULL
        )",
        (),
    )
    .unwrap();
    conn
}

#[test]
fn test_parameter_widget_defaults() {
    let widget = ParameterWidget::new();
    assert_eq!(widget.get_selected(), 0);
    let values = widget.get_parameters().clone();
    assert_eq!(values[0], 18);
    assert_eq!(values[1], 0);
    assert_eq!(values[2], 0);
    assert_eq!(values[3], 600);
    assert!(values[4] > 0);
}

#[test]
fn test_parameter_entry_and_step_back() {
    let mut conn = setup_db();
    let mut widget = ParameterWidget::new();
    let mut text_box = TextBox::new(None);
    // Enter a lesson code and confirm it.
    text_box.set_buf("5");
    let r = widget.handle_events(&mut conn, &mut text_box, &InputEvent::Key(KeyCode::Enter));
    assert_eq!(r, EventResult::Nothing(ResultError::NoError));
    assert_eq!(widget.get_selected(), 1);
    assert_eq!(widget.get_parameters()[0], 5);
    // The next parameter's current value is shown for editing.
    assert_eq!(text_box.get_buffer(), "0");
    // Step back: the stored value reappears.
    let r = widget.handle_events(&mut conn, &mut text_box, &InputEvent::Key(KeyCode::Tab));
    assert_eq!(r, EventResult::Nothing(ResultError::NoError));
    assert_eq!(widget.get_selected(), 0);
    assert_eq!(text_box.get_buffer(), "5");
}

#[test]
fn test_parameter_unreadable_entry_keeps_value() {
    let mut conn = setup_db();
    let mut widget = ParameterWidget::new();
    let mut text_box = TextBox::new(None);
    text_box.set_buf("not a number");
    widget.handle_events(&mut conn, &mut text_box, &InputEvent::Key(KeyCode::Enter));
    assert_eq!(widget.get_selected(), 1);
    assert_eq!(widget.get_parameters()[0], 18);
}

#[test]
fn test_parameter_escape_resets() {
    let mut conn = setup_db();
    let mut widget = ParameterWidget::new();
    let mut text_box = TextBox::new(None);
    text_box.set_buf("5");
    widget.handle_events(&mut conn, &mut text_box, &InputEvent::Key(KeyCode::Enter));
    let r = widget.handle_events(&mut conn, &mut text_box, &InputEvent::Key(KeyCode::Esc));
    assert_eq!(r, EventResult::SetSubState(SubState::Browse));
    assert_eq!(widget.get_selected(), 0);
    assert_eq!(widget.get_parameters()[0], 18);
    assert_eq!(text_box.get_buffer(), "");
}

#[test]
fn test_parameter_append_flow() {
    let mut conn = setup_db();
    let mut widget = ParameterWidget::new();
    let mut text_box = TextBox::new(None);
    let entries = ["2", "100", "10", "60", "20230101120000"];
    for entry in entries.iter() {
        text_box.set_buf(entry);
        widget.handle_events(&mut conn, &mut text_box, &InputEvent::Key(KeyCode::Enter));
    }
    assert_eq!(widget.get_selected(), 5);
    let r = widget.handle_events(&mut conn, &mut text_box, &InputEvent::Key(KeyCode::Enter));
    assert_eq!(r, EventResult::SetSubState(SubState::Browse));
    let lessons = get_lessons(&conn).unwrap();
    assert_eq!(lessons.len(), 1);
    assert_eq!(lessons[0].lesson_id.get_lesson_id(), 2);
    assert_eq!(lessons[0].strokes, 100);
    assert_eq!(lessons[0].errors, 10);
    assert_eq!(lessons[0].duration, 60);
    assert_eq!(lessons[0].timestamp, 20230101120000);
    // The widget is back at the defaults afterwards.
    assert_eq!(widget.get_selected(), 0);
    assert_eq!(widget.get_parameters()[0], 18);
}

#[test]
fn test_action_selection_wraps() {
    let mut selection = ActionSelection::new();
    assert_eq!(selection.get_selected(), 0);
    selection.select_down();
    assert_eq!(selection.get_selected(), 1);
    selection.select_down();
    assert_eq!(selection.get_selected(), 0);
    selection.select_up();
    assert_eq!(selection.get_selected(), 1);
    selection.select_up();
    assert_eq!(selection.get_selected(), 0);
}
