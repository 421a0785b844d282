use rusqlite::Connection;

use tipp10w::event_result::{EventResult, ResultError};
use tipp10w::input::{InputEvent, KeyCode};
use tipp10w::lesson::Lesson;
use tipp10w::lesson_selection::LessonSelection;
use tipp10w::lesson_widget::LessonWidget;
use tipp10w::lessons_widget::LessonsWidget;
use tipp10w::state::{State, SubState};
use tipp10w::text_box::TextBox;
use tipp10w::tipp10w::Tipp10W;

fn sample_lesson() -> Lesson {
    Lesson::new(0, LessonSelection::L5, 20230101120000, 60, 100, 10)
}

#[test]
fn test_confirm_empty_buffer_keeps_field() {
    // Confirming an empty buffer leaves the field's stored value unchanged
    // and advances to the next field.
    let mut conn = Connection::open_in_memory().unwrap();
    let mut widget = LessonWidget::new(sample_lesson());
    let mut text_box = TextBox::new(None);
    let result = widget.handle_events(&InputEvent::Key(KeyCode::Enter), &mut conn, &mut text_box);
    assert_eq!(result, EventResult::Nothing(ResultError::NoError));
    assert_eq!(widget.ptr, 1);
    assert_eq!(widget.lesson.lesson_id, LessonSelection::L5);
    assert_eq!(widget.lesson.timestamp, 20230101120000);
    assert_eq!(widget.lesson.duration, 60);
    assert_eq!(widget.lesson.strokes, 100);
    assert_eq!(widget.lesson.errors, 10);
}

#[test]
fn test_confirm_invalid_input_changes_nothing() {
    // Unparsable input reports an error; the field index, the record, and
    // the buffer all stay as they were.
    let mut conn = Connection::open_in_memory().unwrap();
    let mut widget = LessonWidget::new(sample_lesson());
    let mut text_box = TextBox::new(None);
    text_box.set_buf("abc");
    let result = widget.handle_events(&InputEvent::Key(KeyCode::Enter), &mut conn, &mut text_box);
    assert_eq!(result, EventResult::Nothing(ResultError::WrongInput));
    assert_eq!(widget.ptr, 0);
    assert_eq!(widget.lesson.lesson_id, LessonSelection::L5);
    assert_eq!(text_box.get_buffer(), "abc");
}

#[test]
fn test_confirm_unknown_lesson_code_rejected() {
    let mut conn = Connection::open_in_memory().unwrap();
    let mut widget = LessonWidget::new(sample_lesson());
    let mut text_box = TextBox::new(None);
    text_box.set_buf("21");
    let result = widget.handle_events(&InputEvent::Key(KeyCode::Enter), &mut conn, &mut text_box);
    assert_eq!(result, EventResult::Nothing(ResultError::WrongInput));
    assert_eq!(widget.ptr, 0);
    assert_eq!(widget.lesson.lesson_id, LessonSelection::L5);
}

#[test]
fn test_confirm_invalid_timestamp_reported() {
    // 2023-02-29 is not a calendar date.
    let mut conn = Connection::open_in_memory().unwrap();
    let mut widget = LessonWidget::new(sample_lesson());
    widget.ptr = 1;
    let mut text_box = TextBox::new(None);
    text_box.set_buf("20230229120000");
    let result = widget.handle_events(&InputEvent::Key(KeyCode::Enter), &mut conn, &mut text_box);
    assert_eq!(result, EventResult::Nothing(ResultError::Timestamp));
    assert_eq!(widget.ptr, 1);
    assert_eq!(widget.lesson.timestamp, 20230101120000);
    assert_eq!(text_box.get_buffer(), "20230229120000");
}

#[test]
fn test_confirm_valid_code_advances() {
    let mut conn = Connection::open_in_memory().unwrap();
    let mut widget = LessonWidget::new(sample_lesson());
    let mut text_box = TextBox::new(None);
    text_box.set_buf("7");
    let result = widget.handle_events(&InputEvent::Key(KeyCode::Enter), &mut conn, &mut text_box);
    assert_eq!(result, EventResult::Nothing(ResultError::NoError));
    assert_eq!(widget.ptr, 1);
    assert_eq!(widget.lesson.lesson_id, LessonSelection::L7);
    assert_eq!(text_box.get_buffer(), "");
    // The next field (the timestamp) is pre-sized to its display width.
    assert_eq!(text_box.get_max_len(), Some(14));
}

#[test]
fn test_tab_steps_back_and_discards() {
    let mut conn = Connection::open_in_memory().unwrap();
    let mut widget = LessonWidget::new(sample_lesson());
    widget.ptr = 3;
    let mut text_box = TextBox::new(None);
    text_box.set_buf("555");
    let result = widget.handle_events(&InputEvent::Key(KeyCode::Tab), &mut conn, &mut text_box);
    assert_eq!(result, EventResult::Nothing(ResultError::NoError));
    assert_eq!(widget.ptr, 2);
    assert_eq!(text_box.get_buffer(), "");
    assert_eq!(text_box.get_max_len(), Some(4));
}

#[test]
fn test_open_on_empty_list_reports_no_records() {
    // Opening a record on an empty list reports the condition and moves
    // neither the pointer nor the state.
    let mut conn = Connection::open_in_memory().unwrap();
    let mut widget = LessonsWidget::new();
    let mut text_box = TextBox::new(None);
    let result = widget.handle_events(
        &InputEvent::Key(KeyCode::Enter),
        &SubState::Browse,
        &mut conn,
        &mut text_box,
    );
    assert_eq!(result, EventResult::Nothing(ResultError::NoLessons));
    assert_eq!(widget.ptr, 0);
}

fn setup_db_with_table() -> Connection {
    let conn = Connection::open_in_memory().unwrap();
    conn.execute(
        "CREATE TABLE user_lesson_list (
            user_lesson_id INTEGER PRIMARY KEY,
            user_lesson_lesson TEXT NOT NULL,
            user_lesson_timelen INTEGER NOT NULL,
            user_lesson_tokenlen INTEGER NOT NULL,
            user_lesson_strokesnum INTEGER NOT NULL,
            user_lesson_errornum INTEGER NOT NULL,
            user_lesson_timestamp TEXT NOT NULL,
            user_lesson_type INTEGER NOT NULL,
            user_lesson_name TEXT NOT NULL
        )",
        (),
    )
    .unwrap();
    conn
}

#[test]
fn test_editor_commit_persists() {
    // Confirming the last field writes the record back to the store and
    // leaves the editing session.
    let mut conn = setup_db_with_table();
    tipp10w::store::append_lesson(&mut conn, 1, 100, 10, 60, 20230101120000).unwrap();
    let lessons = tipp10w::store::get_lessons(&conn).unwrap();
    let mut widget = LessonWidget::new(lessons[0]);
    widget.ptr = 4;
    let mut text_box = TextBox::new(None);
    text_box.set_buf("12");
    let result = widget.handle_events(&InputEvent::Key(KeyCode::Enter), &mut conn, &mut text_box);
    assert_eq!(result, EventResult::SetSubState(SubState::Browse));
    assert_eq!(widget.ptr, 0);
    let lessons = tipp10w::store::get_lessons(&conn).unwrap();
    assert_eq!(lessons[0].errors, 12);
    assert_eq!(lessons[0].strokes, 100);
}

#[test]
fn test_controller_delete_reclamps_pointer() {
    let mut conn = setup_db_with_table();
    tipp10w::store::append_lesson(&mut conn, 1, 100, 10, 60, 20230101120000).unwrap();
    tipp10w::store::append_lesson(&mut conn, 2, 200, 20, 120, 20230101130000).unwrap();
    let mut widget = LessonsWidget::new();
    let mut text_box = TextBox::new(None);
    widget.update_lessons(&conn).unwrap();
    // Select the last record, then delete it.
    widget.handle_events(
        &InputEvent::Key(KeyCode::Down),
        &SubState::Browse,
        &mut conn,
        &mut text_box,
    );
    assert_eq!(widget.ptr, 1);
    let result = widget.handle_events(
        &InputEvent::Key(KeyCode::Delete),
        &SubState::Browse,
        &mut conn,
        &mut text_box,
    );
    assert_eq!(result, EventResult::Nothing(ResultError::NoError));
    assert_eq!(widget.lessons.len(), 1);
    assert_eq!(widget.ptr, 0);
}

#[test]
fn test_controller_new_opens_fresh_record() {
    let mut conn = setup_db_with_table();
    let mut widget = LessonsWidget::new();
    let mut text_box = TextBox::new(None);
    let result = widget.handle_events(
        &InputEvent::Key(KeyCode::Char('n')),
        &SubState::Browse,
        &mut conn,
        &mut text_box,
    );
    assert_eq!(result, EventResult::SetSubState(SubState::Edit(0)));
    assert_eq!(widget.lessons.len(), 1);
    assert_eq!(widget.ptr, 0);
    // The fresh record carries the documented defaults.
    let lessons = tipp10w::store::get_lessons(&conn).unwrap();
    assert_eq!(lessons[0].lesson_id.get_lesson_id(), 18);
    assert_eq!(lessons[0].strokes, 0);
    assert_eq!(lessons[0].errors, 0);
    assert_eq!(lessons[0].duration, 600);
}

#[test]
fn test_machine_escape_exits_in_setup() {
    let mut app = Tipp10W::new();
    let result = app.handle_events(&InputEvent::Key(KeyCode::Esc));
    assert_eq!(result, EventResult::Exit);
    assert_eq!(app.app_state.state, State::Setup);
}

#[test]
fn test_machine_forwards_typing_in_setup() {
    let mut app = Tipp10W::new();
    app.handle_events(&InputEvent::Key(KeyCode::Char('x')));
    app.handle_events(&InputEvent::Key(KeyCode::Char('y')));
    assert_eq!(app.app_state.text_box.get_buffer(), "xy");
    assert_eq!(app.app_state.state, State::Setup);
}

#[test]
fn test_machine_open_failure_stays_in_setup() {
    let mut app = Tipp10W::new();
    // A path whose parent directory does not exist cannot be opened.
    let event = InputEvent::Paste("/nonexistent-hopefully/x".to_string());
    app.handle_events(&event);
    let result = app.handle_events(&InputEvent::Key(KeyCode::Enter));
    assert_eq!(result, EventResult::Nothing(ResultError::SQLite));
    assert_eq!(app.app_state.state, State::Setup);
    // The input is cleared so the user can retry.
    assert_eq!(app.app_state.text_box.get_buffer(), "");
}

#[test]
fn test_machine_menu_new_record_enters_edit() {
    let mut app = Tipp10W::new();
    app.conn = Some(setup_db_with_table());
    app.app_state.state = State::Menu(SubState::Browse);
    let result = app.handle_events(&InputEvent::Key(KeyCode::Char('n')));
    assert_eq!(result, EventResult::Nothing(ResultError::NoError));
    assert_eq!(app.app_state.state, State::Menu(SubState::Edit(0)));
    assert_eq!(app.app_state.lessons_widget.lessons.len(), 1);
}

#[test]
fn test_machine_menu_surfaces_error_message() {
    let mut app = Tipp10W::new();
    app.conn = Some(setup_db_with_table());
    app.app_state.state = State::Menu(SubState::Browse);
    let result = app.handle_events(&InputEvent::Key(KeyCode::Enter));
    assert_eq!(result, EventResult::Nothing(ResultError::NoLessons));
    assert_eq!(app.app_state.state, State::Menu(SubState::Browse));
    assert_eq!(app.app_state.error, "No lessons found!");
}

#[test]
fn test_get_path_to_db() {
    assert_eq!(
        Tipp10W::get_path_to_db("/home/user").as_str(),
        "/home/user/portable/tipp10v2.db"
    );
}
