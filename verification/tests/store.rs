use rusqlite::Connection;

use tipp10w::clock::{get_datetime_tipp10_format_from_str, get_timestamp};
use tipp10w::store::{
    append_lesson, delete_lesson, get_last_lesson_id, get_lessons, reset_ids, update_lesson,
};

fn setup_test_db() -> Connection {
    let conn = Connection::open_in_memory().unwrap();
    conn.execute(
        "CREATE TABLE user_lesson_list (
            user_lesson_id INTEGER PRIMARY KEY,
            user_lesson_lesson TEXT NOT NULL,
            user_lesson_timelen INTEGER NOT NULL,
            user_lesson_tokenlen INTEGER NOT NULL,
            user_lesson_strokesnum INTEGER NOT NULL,
            user_lesson_errornum INTEGER NOT NULL,
            user_lesson_timestamp TEXT NOT NULL,
            user_lesson_type INTEGER NOT NULL,
            user_lesson_name TEXT NOT NULL
        )",
        (),
    )
    .unwrap();
    conn
}

#[test]
fn test_append_lesson() {
    let mut conn = setup_test_db();
    let result = append_lesson(&mut conn, 1, 100, 10, 60, 20230101120000);
    assert!(result.is_ok());
}

#[test]
fn test_get_lessons() {
    let mut conn = setup_test_db();
    append_lesson(&mut conn, 1, 100, 10, 60, 20230101120000).unwrap();
    let lessons = get_lessons(&conn).unwrap();
    assert_eq!(lessons.len(), 1);
}

#[test]
fn test_update_lesson() {
    let mut conn = setup_test_db();
    append_lesson(&mut conn, 1, 100, 10, 60, 20230101120000).unwrap();
    let id = get_last_lesson_id(&conn).unwrap();
    let result = update_lesson(&mut conn, id, 1, 200, 10, 60, 20230101120000);
    assert!(result.is_ok());
    let lessons = get_lessons(&conn).unwrap();
    assert_eq!(lessons[0].strokes, 200);
}

#[test]
fn test_delete_lesson() {
    let mut conn = setup_test_db();
    append_lesson(&mut conn, 1, 100, 10, 60, 20230101120000).unwrap();
    let result = delete_lesson(&mut conn, 0);
    assert!(result.is_ok());
    let lessons = get_lessons(&conn).unwrap();
    assert!(lessons.is_empty());
}

#[test]
fn test_get_last_lesson_id() {
    let mut conn = setup_test_db();
    append_lesson(&mut conn, 1, 100, 10, 60, 20230101120000).unwrap();
    let last_id = get_last_lesson_id(&conn).unwrap();
    assert_eq!(last_id, 0);
}

#[test]
fn test_reset_ids() {
    let mut conn = setup_test_db();
    append_lesson(&mut conn, 1, 100, 10, 60, 20230101120000).unwrap();
    append_lesson(&mut conn, 2, 200, 20, 120, 20230101130000).unwrap();
    reset_ids(&mut conn).unwrap();
    let lessons = get_lessons(&conn).unwrap();
    assert_eq!(lessons[0].id, 0);
    assert_eq!(lessons[1].id, 1);
}

#[test]
fn test_get_timestamp() {
    let timestamp = get_timestamp();
    assert!(timestamp > 0);
}

#[test]
fn test_get_datetime_tipp10_format_from_str() {
    let datetime_str = "20230101120000";
    let timestamp = get_datetime_tipp10_format_from_str(datetime_str).unwrap();
    assert_eq!(timestamp, 20230101120000);
}

#[test]
fn test_append_then_list_roundtrip() {
    // One appended record comes back with id 0 and its fields unchanged.
    let mut conn = setup_test_db();
    let id = append_lesson(&mut conn, 1, 100, 10, 60, 20230101120000).unwrap();
    assert_eq!(id, 0);
    let lessons = get_lessons(&conn).unwrap();
    assert_eq!(lessons.len(), 1);
    assert_eq!(lessons[0].id, 0);
    assert_eq!(lessons[0].lesson_id.get_lesson_id(), 1);
    assert_eq!(lessons[0].timestamp, 20230101120000);
    assert_eq!(lessons[0].duration, 60);
    assert_eq!(lessons[0].strokes, 100);
    assert_eq!(lessons[0].errors, 10);
}

#[test]
fn test_delete_renumbers_densely() {
    // After deleting id 0, the remaining record bears id 0 and keeps the
    // second record's original field values.
    let mut conn = setup_test_db();
    append_lesson(&mut conn, 1, 100, 10, 60, 20230101120000).unwrap();
    append_lesson(&mut conn, 2, 200, 20, 120, 20230101130000).unwrap();
    delete_lesson(&mut conn, 0).unwrap();
    let lessons = get_lessons(&conn).unwrap();
    assert_eq!(lessons.len(), 1);
    assert_eq!(lessons[0].id, 0);
    assert_eq!(lessons[0].lesson_id.get_lesson_id(), 2);
    assert_eq!(lessons[0].timestamp, 20230101130000);
    assert_eq!(lessons[0].duration, 120);
    assert_eq!(lessons[0].strokes, 200);
    assert_eq!(lessons[0].errors, 20);
}

#[test]
fn test_dense_ids_after_mixed_appends_and_deletes() {
    let mut conn = setup_test_db();
    for k in 0..5u64 {
        append_lesson(&mut conn, (k + 1) as u8, 10, 1, 60, 20230101120000 + k).unwrap();
    }
    delete_lesson(&mut conn, 1).unwrap();
    delete_lesson(&mut conn, 2).unwrap();
    append_lesson(&mut conn, 7, 70, 7, 70, 20230101120010).unwrap();
    let lessons = get_lessons(&conn).unwrap();
    assert_eq!(lessons.len(), 4);
    for (i, lesson) in lessons.iter().enumerate() {
        assert_eq!(lesson.id, i);
    }
    // Relative order of the survivors is preserved.
    assert_eq!(lessons[0].lesson_id.get_lesson_id(), 1);
    assert_eq!(lessons[1].lesson_id.get_lesson_id(), 3);
    assert_eq!(lessons[2].lesson_id.get_lesson_id(), 5);
    assert_eq!(lessons[3].lesson_id.get_lesson_id(), 7);
}

#[test]
fn test_append_without_table_fails() {
    // A storage failure is reported, not hidden.
    let mut conn = Connection::open_in_memory().unwrap();
    let result = append_lesson(&mut conn, 1, 100, 10, 60, 20230101120000);
    assert!(result.is_err());
}

#[test]
fn test_get_last_lesson_id_empty() {
    let conn = setup_test_db();
    assert!(get_last_lesson_id(&conn).is_err());
}

#[test]
fn test_update_missing_id_reports_not_found() {
    let mut conn = setup_test_db();
    let result = update_lesson(&mut conn, 5, 1, 1, 1, 1, 20230101120000);
    assert!(result.is_err());
}

#[test]
fn test_datetime_rejects_bad_calendar_dates() {
    // 2023 is not a leap year; 2024 is.
    assert!(get_datetime_tipp10_format_from_str("20230229120000").is_err());
    assert_eq!(
        get_datetime_tipp10_format_from_str("20240229120000").unwrap(),
        20240229120000
    );
    // Month, hour, and length are validated too.
    assert!(get_datetime_tipp10_format_from_str("20231301120000").is_err());
    assert!(get_datetime_tipp10_format_from_str("20230101240000").is_err());
    assert!(get_datetime_tipp10_format_from_str("2023010112000").is_err());
    assert!(get_datetime_tipp10_format_from_str("2023010112000x").is_err());
}
