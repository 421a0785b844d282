//! The persistence layer: CRUD over the record table, with dense
//! reindexing of ids after structural changes.
//!
//! Deleting or appending rewrites the whole table inside one transaction:
//! the rows are staged in memory, the table is cleared, and the rows are
//! reinserted in their original id order with new ids `0, 1, 2, ...`.  This
//! re-establishes the invariant that ids are a contiguous zero-based
//! sequence matching relative insertion order.

use vstd::prelude::*;

use crate::clock::get_timestamp;
use crate::db::{
    begin_tx, commit_tx, delete_all_rows, has_id, insert_row, rollback_tx, rows_view, select_rows,
    table_of, tx_state, update_row, updated_rows, DbRow, RowModel,
};
use crate::digits::{all_digits, dec_rep, digits_val, parse_u64, u64_to_string};
use crate::lesson::Lesson;
use crate::lesson_selection::{lesson_code, lesson_from_code, lesson_name, LessonSelection};

verus! {

/// Errors that can occur while working with SQLite.
#[derive(Debug)]
pub enum SQLiteError {
    RusqliteError(rusqlite::Error),
    NoLessons(String),
}

/// `rows` with new ids `0, 1, 2, ...` assigned in order; all other columns
/// are kept as they are.
pub open spec fn renumbered(rows: Seq<RowModel>) -> Seq<RowModel> {
    Seq::new(rows.len(), |j: int| RowModel { id: j as u64, ..rows[j] })
}

/// `rows` without the rows whose id is `id`.
pub open spec fn remove_id(rows: Seq<RowModel>, id: u64) -> Seq<RowModel> {
    rows.filter(|r: RowModel| r.id != id)
}

/// The row that `append_lesson` writes, before renumbering.
pub open spec fn appended_row(
    lesson_id: u8,
    strokes: usize,
    errors: usize,
    timelen: usize,
    timestamp: u64,
) -> RowModel {
    RowModel {
        id: 0,
        lesson: dec_rep((lesson_code(lesson_from_code(lesson_id as int)) + 100) as nat),
        timelen: timelen as u64,
        tokenlen: strokes as u64,
        strokes: strokes as u64,
        errors: errors as u64,
        timestamp: dec_rep(timestamp as nat),
        kind: 0,
        name: lesson_name(lesson_from_code(lesson_id as int)),
    }
}

/// The lesson selection stored in the `lesson` column: the column holds the
/// code plus 100 as decimal text; anything else falls back to lesson 1.
pub open spec fn lesson_sel_of(s: Seq<char>) -> LessonSelection {
    if s.len() > 0 && all_digits(s) && digits_val(s) <= u64::MAX {
        lesson_from_code(digits_val(s) - 100)
    } else {
        LessonSelection::L1
    }
}

/// The timestamp stored in the `timestamp` column as decimal text; anything
/// unreadable is taken as 0.
pub open spec fn ts_val_of(s: Seq<char>) -> u64 {
    if s.len() > 0 && all_digits(s) && digits_val(s) <= u64::MAX {
        digits_val(s) as u64
    } else {
        0
    }
}

/// The record that one stored row denotes.
pub open spec fn lesson_of_row(r: RowModel) -> Lesson {
    Lesson {
        id: r.id as usize,
        lesson_id: lesson_sel_of(r.lesson),
        timestamp: ts_val_of(r.timestamp),
        duration: r.timelen as usize,
        strokes: r.strokes as usize,
        errors: r.errors as usize,
    }
}

/// The records that the stored rows denote, in order.
pub open spec fn lessons_of(rows: Seq<RowModel>) -> Seq<Lesson> {
    rows.map_values(|r: RowModel| lesson_of_row(r))
}

/// Dense-id law: renumbering gives the rows the ids `0, 1, ..., N-1` in
/// order and changes nothing else, so after any rewrite the set of stored
/// ids is exactly `{0, ..., N-1}` and the relative order of the rows is kept.
pub proof fn lemma_renumbered_dense(rows: Seq<RowModel>)
    requires
        rows.len() <= u64::MAX,
    ensures
        renumbered(rows).len() == rows.len(),
        forall|j: int| 0 <= j < rows.len() ==> (#[trigger] renumbered(rows)[j]).id == j,
        forall|id: u64| #[trigger] has_id(renumbered(rows), id) <==> id < rows.len(),
        forall|j: int| 0 <= j < rows.len() ==> (#[trigger] renumbered(rows)[j]).lesson
            == rows[j].lesson && renumbered(rows)[j].timelen == rows[j].timelen
            && renumbered(rows)[j].tokenlen == rows[j].tokenlen && renumbered(rows)[j].strokes
            == rows[j].strokes && renumbered(rows)[j].errors == rows[j].errors
            && renumbered(rows)[j].timestamp == rows[j].timestamp && renumbered(rows)[j].kind
            == rows[j].kind && renumbered(rows)[j].name == rows[j].name,
{
    assert forall|id: u64| id < rows.len() implies #[trigger] has_id(
        renumbered(rows),
        id,
    ) by {
        assert(renumbered(rows)[id as int].id == id);
    }
}

/// Round-trip law: appending a record to an empty table and reading the
/// table back yields exactly one record, bearing id 0 and the appended
/// field values unchanged.
pub proof fn lemma_append_list_roundtrip(
    lesson_id: u8,
    strokes: usize,
    errors: usize,
    timelen: usize,
    timestamp: u64,
)
    requires
        1 <= lesson_id <= 20,
    ensures
        lessons_of(
            renumbered(
                Seq::<RowModel>::empty().push(
                    appended_row(lesson_id, strokes, errors, timelen, timestamp),
                ),
            ),
        ) == seq![
            Lesson {
                id: 0,
                lesson_id: lesson_from_code(lesson_id as int),
                timestamp,
                duration: timelen,
                strokes,
                errors,
            },
        ],
{
    let row = appended_row(lesson_id, strokes, errors, timelen, timestamp);
    let table = renumbered(Seq::<RowModel>::empty().push(row));
    assert(table.len() == 1);
    assert(table[0] == RowModel { id: 0, ..row });
    let code = lesson_code(lesson_from_code(lesson_id as int));
    crate::lesson_selection::lemma_lesson_code_roundtrip(lesson_from_code(lesson_id as int));
    crate::digits::lemma_dec_rep_val((code + 100) as nat);
    crate::digits::lemma_dec_rep_val(timestamp as nat);
    assert(lesson_sel_of(row.lesson) == lesson_from_code(lesson_id as int));
    assert(ts_val_of(row.timestamp) == timestamp);
    assert(lessons_of(table) =~= seq![
        Lesson {
            id: 0,
            lesson_id: lesson_from_code(lesson_id as int),
            timestamp,
            duration: timelen,
            strokes,
            errors,
        },
    ]);
}

/// Clear the table and reinsert `rows` in order under new dense ids.  A
/// failure leaves the transaction either still open or already rolled back
/// to its starting state, for the caller's rollback to resolve.
fn rewrite_dense(conn: &mut rusqlite::Connection, rows: &Vec<DbRow>) -> (r: Result<
    (),
    rusqlite::Error,
>)
    ensures
        r matches Ok(()) ==> table_of(*final(conn)) == renumbered(rows_view(rows@))
            && tx_state(*final(conn)) == tx_state(*old(conn)),
        r matches Err(_) ==> tx_state(*final(conn)) == tx_state(*old(conn)) || (tx_state(
            *old(conn),
        ) matches Some(t) && table_of(*final(conn)) == t && tx_state(*final(conn)) is None),
{
    delete_all_rows(conn)?;
    let ghost target = renumbered(rows_view(rows@));
    let n = rows.len();
    let mut i: usize = 0;
    while i < n
        invariant
            i <= n,
            n == rows@.len(),
            target == renumbered(rows_view(rows@)),
            table_of(*conn) == target.subrange(0, i as int),
            tx_state(*conn) == tx_state(*old(conn)),
        decreases n - i,
    {
        let row = DbRow {
            id: i as u64,
            lesson: rows[i].lesson.clone(),
            timelen: rows[i].timelen,
            tokenlen: rows[i].tokenlen,
            strokes: rows[i].strokes,
            errors: rows[i].errors,
            timestamp: rows[i].timestamp.clone(),
            kind: rows[i].kind,
            name: rows[i].name.clone(),
        };
        assert(row@ == target[i as int]);
        insert_row(conn, &row)?;
        proof {
            assert(table_of(*conn) =~= target.subrange(0, i + 1 as int));
        }
        i = i + 1;
    }
    proof {
        assert(table_of(*conn) =~= target);
    }
    Ok(())
}

/// Reset the ids of the lessons: stage every row, clear the table, and
/// reinsert the rows in id order under new ids `0, 1, 2, ...`, all inside
/// one transaction.
pub fn reset_ids(conn: &mut rusqlite::Connection) -> (r: Result<(), SQLiteError>)
    ensures
        r matches Ok(()) ==> table_of(*final(conn)) == renumbered(table_of(*old(conn))),
        r matches Err(_) ==> table_of(*final(conn)) == table_of(*old(conn)),
{
    match begin_tx(conn) {
        Ok(()) => (),
        Err(e) => {
            return Err(SQLiteError::RusqliteError(e));
        },
    }
    let rows = match select_rows(conn) {
        Ok(rows) => rows,
        Err(e) => {
            let _ = rollback_tx(conn);
            return Err(SQLiteError::RusqliteError(e));
        },
    };
    match rewrite_dense(conn, &rows) {
        Ok(()) => (),
        Err(e) => {
            let _ = rollback_tx(conn);
            return Err(SQLiteError::RusqliteError(e));
        },
    }
    match commit_tx(conn) {
        Ok(()) => Ok(()),
        Err(e) => {
            let _ = rollback_tx(conn);
            Err(SQLiteError::RusqliteError(e))
        },
    }
}

/// Append a lesson to the table.  The new row goes in behind the existing
/// rows and the whole table is renumbered densely, so the new record ends up
/// with id `N-1` (the returned id) where `N` is the new row count.
pub fn append_lesson(
    conn: &mut rusqlite::Connection,
    lesson_id: u8,
    strokes: usize,
    errors: usize,
    timelen: usize,
    timestamp: u64,
) -> (r: Result<usize, SQLiteError>)
    ensures
        r matches Ok(id) ==> table_of(*final(conn)) == renumbered(
            table_of(*old(conn)).push(
                appended_row(lesson_id, strokes, errors, timelen, timestamp),
            ),
        ) && id == table_of(*old(conn)).len(),
        r matches Err(_) ==> table_of(*final(conn)) == table_of(*old(conn)),
{
    let lesson = LessonSelection::from_lesson_id(lesson_id);
    let user_lesson = lesson.get_user_lesson();
    let row = DbRow {
        id: 0,
        lesson: u64_to_string(user_lesson as u64),
        timelen: timelen as u64,
        tokenlen: strokes as u64,
        strokes: strokes as u64,
        errors: errors as u64,
        timestamp: u64_to_string(timestamp),
        kind: 0,
        name: lesson.get_lesson_name(),
    };
    assert(row@ == appended_row(lesson_id, strokes, errors, timelen, timestamp));
    match begin_tx(conn) {
        Ok(()) => (),
        Err(e) => {
            return Err(SQLiteError::RusqliteError(e));
        },
    }
    let mut rows = match select_rows(conn) {
        Ok(rows) => rows,
        Err(e) => {
            let _ = rollback_tx(conn);
            return Err(SQLiteError::RusqliteError(e));
        },
    };
    let n = rows.len();
    rows.push(row);
    proof {
        assert(rows_view(rows@) =~= table_of(*old(conn)).push(
            appended_row(lesson_id, strokes, errors, timelen, timestamp),
        ));
    }
    match rewrite_dense(conn, &rows) {
        Ok(()) => (),
        Err(e) => {
            let _ = rollback_tx(conn);
            return Err(SQLiteError::RusqliteError(e));
        },
    }
    match commit_tx(conn) {
        Ok(()) => Ok(n),
        Err(e) => {
            let _ = rollback_tx(conn);
            Err(SQLiteError::RusqliteError(e))
        },
    }
}

/// The row that `update_lesson` stores for the record `id`.
pub open spec fn updated_row(
    id: usize,
    lesson_id: u8,
    strokes: usize,
    errors: usize,
    timelen: usize,
    timestamp: u64,
) -> RowModel {
    RowModel {
        id: id as u64,
        ..appended_row(lesson_id, strokes, errors, timelen, timestamp)
    }
}

/// Update a lesson in the table: every row bearing `id` (at most one, when
/// ids are dense) takes the new field values; other rows stay as they are.
/// An id that no row bears is reported, and any failure leaves the table
/// unchanged: the statement runs inside its own transaction.
pub fn update_lesson(
    conn: &mut rusqlite::Connection,
    id: usize,
    lesson_id: u8,
    strokes: usize,
    errors: usize,
    timelen: usize,
    timestamp: u64,
) -> (r: Result<(), SQLiteError>)
    ensures
        r matches Ok(()) ==> table_of(*final(conn)) == updated_rows(
            table_of(*old(conn)),
            updated_row(id, lesson_id, strokes, errors, timelen, timestamp),
        ) && has_id(table_of(*old(conn)), id as u64),
        (r matches Err(e) && e is NoLessons) ==> !has_id(table_of(*old(conn)), id as u64),
        r matches Err(_) ==> table_of(*final(conn)) == table_of(*old(conn)),
{
    match begin_tx(conn) {
        Ok(()) => (),
        Err(e) => {
            return Err(SQLiteError::RusqliteError(e));
        },
    }
    let lesson = LessonSelection::from_lesson_id(lesson_id);
    let user_lesson = lesson.get_user_lesson();
    let row = DbRow {
        id: id as u64,
        lesson: u64_to_string(user_lesson as u64),
        timelen: timelen as u64,
        tokenlen: strokes as u64,
        strokes: strokes as u64,
        errors: errors as u64,
        timestamp: u64_to_string(timestamp),
        kind: 0,
        name: lesson.get_lesson_name(),
    };
    assert(row@ == updated_row(id, lesson_id, strokes, errors, timelen, timestamp));
    match update_row(conn, &row) {
        Ok(n) => {
            if n == 0 {
                let _ = rollback_tx(conn);
                proof {
                    assert(table_of(*conn) =~= table_of(*old(conn)));
                }
                return Err(SQLiteError::NoLessons("No lessons found!".to_owned()));
            }
            match commit_tx(conn) {
                Ok(()) => Ok(()),
                Err(e) => {
                    let _ = rollback_tx(conn);
                    Err(SQLiteError::RusqliteError(e))
                },
            }
        },
        Err(e) => {
            let _ = rollback_tx(conn);
            Err(SQLiteError::RusqliteError(e))
        },
    }
}

/// Delete a lesson from the table, then renumber the remaining rows densely,
/// all inside one transaction.
pub fn delete_lesson(conn: &mut rusqlite::Connection, id: usize) -> (r: Result<(), SQLiteError>)
    ensures
        r matches Ok(()) ==> table_of(*final(conn)) == renumbered(
            remove_id(table_of(*old(conn)), id as u64),
        ),
        r matches Err(_) ==> table_of(*final(conn)) == table_of(*old(conn)),
{
    match begin_tx(conn) {
        Ok(()) => (),
        Err(e) => {
            return Err(SQLiteError::RusqliteError(e));
        },
    }
    let rows = match select_rows(conn) {
        Ok(rows) => rows,
        Err(e) => {
            let _ = rollback_tx(conn);
            return Err(SQLiteError::RusqliteError(e));
        },
    };
    let idv = id as u64;
    let mut kept: Vec<DbRow> = Vec::new();
    let n = rows.len();
    let mut i: usize = 0;
    while i < n
        invariant
            i <= n,
            n == rows@.len(),
            idv == id as u64,
            rows_view(kept@) == remove_id(rows_view(rows@.subrange(0, i as int)), idv),
        decreases n - i,
    {
        let ghost pre_kept = kept@;
        if rows[i].id != idv {
            let row = DbRow {
                id: rows[i].id,
                lesson: rows[i].lesson.clone(),
                timelen: rows[i].timelen,
                tokenlen: rows[i].tokenlen,
                strokes: rows[i].strokes,
                errors: rows[i].errors,
                timestamp: rows[i].timestamp.clone(),
                kind: rows[i].kind,
                name: rows[i].name.clone(),
            };
            assert(row@ == rows@[i as int]@);
            kept.push(row);
        }
        proof {
            reveal(Seq::filter);
            let prev = rows_view(rows@.subrange(0, i as int));
            let cur = rows_view(rows@.subrange(0, i + 1 as int));
            assert(cur.drop_last() =~= prev);
            assert(cur.last() == rows@[i as int]@);
            if rows@[i as int].id != idv {
                assert(rows_view(kept@) =~= remove_id(prev, idv).push(rows@[i as int]@));
            } else {
                assert(rows_view(kept@) =~= remove_id(prev, idv));
            }
        }
        i = i + 1;
    }
    proof {
        assert(rows@.subrange(0, n as int) =~= rows@);
    }
    match rewrite_dense(conn, &kept) {
        Ok(()) => (),
        Err(e) => {
            let _ = rollback_tx(conn);
            return Err(SQLiteError::RusqliteError(e));
        },
    }
    match commit_tx(conn) {
        Ok(()) => Ok(()),
        Err(e) => {
            let _ = rollback_tx(conn);
            Err(SQLiteError::RusqliteError(e))
        },
    }
}

/// Get all saved lessons, in stored (id) order.
pub fn get_lessons(conn: &rusqlite::Connection) -> (r: Result<Vec<Lesson>, rusqlite::Error>)
    ensures
        r matches Ok(v) ==> v@ == lessons_of(table_of(*conn)),
{
    let rows = select_rows(conn)?;
    let mut lessons: Vec<Lesson> = Vec::new();
    let n = rows.len();
    let mut i: usize = 0;
    while i < n
        invariant
            i <= n,
            n == rows@.len(),
            lessons@.len() == i,
            forall|j: int| 0 <= j < i ==> lessons@[j] == lesson_of_row(
                #[trigger] rows@[j]@,
            ),
        decreases n - i,
    {
        let sel_chars = crate::strutil::str_chars(rows[i].lesson.as_str());
        let lesson_sel = match parse_u64(&sel_chars) {
            Some(u) => {
                if 101 <= u && u <= 120 {
                    LessonSelection::from_lesson_id((u - 100) as u8)
                } else {
                    LessonSelection::L1
                }
            },
            Option::None => LessonSelection::L1,
        };
        assert(lesson_sel == lesson_sel_of(rows@[i as int]@.lesson));
        let ts_chars = crate::strutil::str_chars(rows[i].timestamp.as_str());
        let ts = match parse_u64(&ts_chars) {
            Some(t) => t,
            Option::None => 0,
        };
        assert(ts == ts_val_of(rows@[i as int]@.timestamp));
        let lesson = Lesson {
            id: rows[i].id as usize,
            lesson_id: lesson_sel,
            timestamp: ts,
            duration: rows[i].timelen as usize,
            strokes: rows[i].strokes as usize,
            errors: rows[i].errors as usize,
        };
        lessons.push(lesson);
        i = i + 1;
    }
    proof {
        assert(lessons@ =~= lessons_of(table_of(*conn)));
    }
    Ok(lessons)
}

/// Get the largest stored id.  An empty table has none, and an id that does
/// not fit the platform's pointer width cannot be returned either; both
/// cases report that no lesson is available.
pub fn get_last_lesson_id(conn: &rusqlite::Connection) -> (r: Result<usize, SQLiteError>)
    ensures
        match r {
            Ok(n) => {
                &&& table_of(*conn).len() > 0
                &&& has_id(table_of(*conn), n as u64)
                &&& forall|j: int|
                    0 <= j < table_of(*conn).len() ==> (#[trigger] table_of(*conn)[j]).id
                        <= n as u64
            },
            Err(e) => e matches SQLiteError::NoLessons(_) ==> (table_of(*conn).len() == 0
                || exists|j: int|
                    0 <= j < table_of(*conn).len() && (#[trigger] table_of(*conn)[j]).id
                        > usize::MAX as u64),
        },
{
    let rows = match select_rows(conn) {
        Ok(rows) => rows,
        Err(e) => {
            return Err(SQLiteError::RusqliteError(e));
        },
    };
    proof {
        assert(table_of(*conn).len() == rows@.len());
        assert forall|j: int| 0 <= j < rows@.len() implies table_of(*conn)[j] == rows@[j]@ by {
            assert(rows_view(rows@)[j] == rows@[j]@);
        }
    }
    let n = rows.len();
    if n == 0 {
        return Err(SQLiteError::NoLessons("No lessons found!".to_owned()));
    }
    let mut max: u64 = rows[0].id;
    let ghost mut witness: int = 0;
    let mut i: usize = 1;
    while i < n
        invariant
            1 <= i <= n,
            n == rows@.len(),
            0 <= witness < n,
            max == rows@[witness]@.id,
            forall|j: int| 0 <= j < i ==> (#[trigger] rows@[j]@).id <= max,
        decreases n - i,
    {
        if rows[i].id > max {
            max = rows[i].id;
            proof {
                witness = i as int;
            }
        }
        i = i + 1;
    }
    if max > usize::MAX as u64 {
        proof {
            assert(table_of(*conn)[witness].id > usize::MAX as u64);
        }
        return Err(SQLiteError::NoLessons("No lessons found!".to_owned()));
    }
    proof {
        assert((max as usize) as u64 == max);
        assert(table_of(*conn)[witness].id == (max as usize) as u64);
    }
    Ok(max as usize)
}

/// Append a fresh record with the documented defaults: lesson code 18,
/// 0 strokes, 0 errors, a 600-second duration, and the current timestamp.
pub fn append_default_lesson(conn: &mut rusqlite::Connection) -> (r: Result<usize, SQLiteError>)
    ensures
        r matches Ok(id) ==> (exists|ts: u64|
            table_of(*final(conn)) == renumbered(
                table_of(*old(conn)).push(#[trigger] appended_row(18, 0, 0, 600, ts)),
            )) && id == table_of(*old(conn)).len(),
        r matches Err(_) ==> table_of(*final(conn)) == table_of(*old(conn)),
{
    let ts = get_timestamp();
    append_lesson(conn, 18, 0, 0, 600, ts)
}

} // verus!
