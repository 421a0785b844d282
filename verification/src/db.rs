//! The trusted boundary to the embedded SQLite store.
//!
//! One table, `user_lesson_list`, holds the records.  Its contents, as seen
//! through this connection and ordered by ascending id, are named by the
//! uninterpreted function [`table_of`]; each wrapper below runs one SQL
//! statement and states what it does to that sequence.  Everything built on
//! top (reindexing, append, delete) is verified against these contracts.

use vstd::prelude::*;

verus! {

#[verifier::external_type_specification]
#[verifier::external_body]
pub struct ExConnection(rusqlite::Connection);

#[verifier::external_type_specification]
#[verifier::external_body]
pub struct ExRusqliteError(rusqlite::Error);

/// The columns of one stored row, as plain values.  The `lesson` and
/// `timestamp` columns have text affinity in the schema, so they are carried
/// as character sequences.
pub struct RowModel {
    pub id: u64,
    pub lesson: Seq<char>,
    pub timelen: u64,
    pub tokenlen: u64,
    pub strokes: u64,
    pub errors: u64,
    pub timestamp: Seq<char>,
    pub kind: u64,
    pub name: Seq<char>,
}

/// One row of the record table, as read from or written to the store.
#[derive(Debug)]
pub struct DbRow {
    pub id: u64,
    pub lesson: String,
    pub timelen: u64,
    pub tokenlen: u64,
    pub strokes: u64,
    pub errors: u64,
    pub timestamp: String,
    pub kind: u64,
    pub name: String,
}

impl View for DbRow {
    type V = RowModel;

    open spec fn view(&self) -> RowModel {
        RowModel {
            id: self.id,
            lesson: self.lesson@,
            timelen: self.timelen,
            tokenlen: self.tokenlen,
            strokes: self.strokes,
            errors: self.errors,
            timestamp: self.timestamp@,
            kind: self.kind,
            name: self.name@,
        }
    }
}

/// The rows of the record table as this connection sees them, in ascending
/// id order.
pub uninterp spec fn table_of(conn: rusqlite::Connection) -> Seq<RowModel>;

/// The models of a vector of rows, in order.
pub open spec fn rows_view(v: Seq<DbRow>) -> Seq<RowModel> {
    v.map_values(|r: DbRow| r@)
}

/// Whether some row of `rows` bears the id `id`.
pub open spec fn has_id(rows: Seq<RowModel>, id: u64) -> bool {
    exists|j: int| 0 <= j < rows.len() && rows[j].id == id
}

/// `rows` with the fields of every row whose id matches `row.id` replaced by
/// those of `row`.
pub open spec fn updated_rows(rows: Seq<RowModel>, row: RowModel) -> Seq<RowModel> {
    Seq::new(rows.len(), |j: int| if rows[j].id == row.id { row } else { rows[j] })
}

/// The transaction state of a connection: `Some(t)` when a transaction is
/// open and `t` is what the table held when it began (the state a rollback
/// returns to), `None` when the connection is in autocommit mode.
pub uninterp spec fn tx_state(conn: rusqlite::Connection) -> Option<Seq<RowModel>>;

/// Relies on rusqlite's `Connection::open`: opens the SQLite database at the
/// given path, creating the file if it does not exist.  Nothing is assumed
/// about the table contents found there; a fresh connection starts in
/// autocommit mode (no transaction open).
#[verifier::external_body]
pub(crate) fn open_connection(path: &str) -> (r: Result<rusqlite::Connection, rusqlite::Error>)
    ensures
        r matches Ok(c) ==> tx_state(c) is None,
{
    rusqlite::Connection::open(path)
}

/// Relies on rusqlite's `Connection::prepare` and `Statement::query_map`:
/// runs one SELECT over the record table, ordered by ascending id, and hands
/// back one row per table row with the column values moved across unchanged.
#[verifier::external_body]
pub(crate) fn select_rows(conn: &rusqlite::Connection) -> (r: Result<Vec<DbRow>, rusqlite::Error>)
    ensures
        r matches Ok(v) ==> rows_view(v@) == table_of(*conn),
{
    let mut stmt = conn.prepare(
        "SELECT user_lesson_id, user_lesson_lesson, user_lesson_timelen, user_lesson_tokenlen, user_lesson_strokesnum, user_lesson_errornum, user_lesson_timestamp, user_lesson_type, user_lesson_name FROM user_lesson_list ORDER BY user_lesson_id",
    )?;
    let rows = stmt.query_map((), |row| {
        Ok(DbRow {
            id: row.get(0)?, lesson: row.get(1)?, timelen: row.get(2)?, tokenlen: row.get(3)?,
            strokes: row.get(4)?, errors: row.get(5)?, timestamp: row.get(6)?, kind: row.get(7)?,
            name: row.get(8)?,
        })
    })?;
    rows.collect()
}

/// Relies on rusqlite's `Connection::execute` running one INSERT: on success
/// the row joins the table, and since its id is larger than every stored id
/// it comes last in id order.  A failed statement either rolls back the
/// statement alone, or (for a few error codes, inside an open transaction)
/// rolls the whole transaction back to its starting state.
#[verifier::external_body]
pub(crate) fn insert_row(conn: &mut rusqlite::Connection, row: &DbRow) -> (r: Result<
    (),
    rusqlite::Error,
>)
    requires
        forall|j: int|
            0 <= j < table_of(*old(conn)).len() ==> (#[trigger] table_of(*old(conn))[j]).id
                < row.id,
    ensures
        r matches Ok(()) ==> table_of(*final(conn)) == table_of(*old(conn)).push(row@)
            && tx_state(*final(conn)) == tx_state(*old(conn)),
        r matches Err(_) ==> (table_of(*final(conn)) == table_of(*old(conn)) && tx_state(
            *final(conn),
        ) == tx_state(*old(conn))) || (tx_state(*old(conn)) matches Some(t) && table_of(
            *final(conn),
        ) == t && tx_state(*final(conn)) is None),
{
    conn.execute(
        "INSERT INTO user_lesson_list (user_lesson_id, user_lesson_lesson, user_lesson_timelen, user_lesson_tokenlen, user_lesson_strokesnum, user_lesson_errornum, user_lesson_timestamp, user_lesson_type, user_lesson_name) VALUES (?1, ?2, ?3, ?4, ?5, ?6, ?7, ?8, ?9)",
        (row.id, &row.lesson, row.timelen, row.tokenlen, row.strokes, row.errors, &row.timestamp,
        row.kind, &row.name),
    ).map(|_| ())
}

/// Relies on rusqlite's `Connection::execute` running one UPDATE with a WHERE
/// clause on the id: every row whose id matches takes the new field values
/// and the number of matching rows is returned.  A failed statement either
/// rolls back the statement alone, or (for a few error codes, inside an open
/// transaction) rolls the whole transaction back to its starting state.
#[verifier::external_body]
pub(crate) fn update_row(conn: &mut rusqlite::Connection, row: &DbRow) -> (r: Result<
    usize,
    rusqlite::Error,
>)
    ensures
        r matches Ok(n) ==> table_of(*final(conn)) == updated_rows(table_of(*old(conn)), row@)
            && (n == 0 <==> !has_id(table_of(*old(conn)), row.id)) && tx_state(*final(conn))
            == tx_state(*old(conn)),
        r matches Err(_) ==> (table_of(*final(conn)) == table_of(*old(conn)) && tx_state(
            *final(conn),
        ) == tx_state(*old(conn))) || (tx_state(*old(conn)) matches Some(t) && table_of(
            *final(conn),
        ) == t && tx_state(*final(conn)) is None),
{
    conn.execute(
        "UPDATE user_lesson_list SET user_lesson_lesson = ?1, user_lesson_timelen = ?2, user_lesson_tokenlen = ?3, user_lesson_strokesnum = ?4, user_lesson_errornum = ?5, user_lesson_timestamp = ?6, user_lesson_type = ?7, user_lesson_name = ?8 WHERE user_lesson_id = ?9",
        (&row.lesson, row.timelen, row.tokenlen, row.strokes, row.errors, &row.timestamp,
        row.kind, &row.name, row.id),
    )
}

/// Relies on rusqlite's `Connection::execute` running one DELETE without a
/// WHERE clause: on success the table is empty.  A failed statement either
/// rolls back the statement alone, or (for a few error codes, inside an open
/// transaction) rolls the whole transaction back to its starting state.
#[verifier::external_body]
pub(crate) fn delete_all_rows(conn: &mut rusqlite::Connection) -> (r: Result<(), rusqlite::Error>)
    ensures
        r matches Ok(()) ==> table_of(*final(conn)) == Seq::<RowModel>::empty() && tx_state(
            *final(conn),
        ) == tx_state(*old(conn)),
        r matches Err(_) ==> (table_of(*final(conn)) == table_of(*old(conn)) && tx_state(
            *final(conn),
        ) == tx_state(*old(conn))) || (tx_state(*old(conn)) matches Some(t) && table_of(
            *final(conn),
        ) == t && tx_state(*final(conn)) is None),
{
    conn.execute("DELETE FROM user_lesson_list", ()).map(|_| ())
}

/// Relies on rusqlite's `Connection::execute_batch` running BEGIN: starting a
/// transaction changes no rows, whether it succeeds or not.  On success a
/// transaction is open whose starting state is the current table; BEGIN can
/// only fail when it starts no transaction, leaving the state as it was.
#[verifier::external_body]
pub(crate) fn begin_tx(conn: &mut rusqlite::Connection) -> (r: Result<(), rusqlite::Error>)
    ensures
        table_of(*final(conn)) == table_of(*old(conn)),
        r matches Ok(()) ==> tx_state(*final(conn)) == Some(table_of(*old(conn))),
        r matches Err(_) ==> tx_state(*final(conn)) == tx_state(*old(conn)),
{
    conn.execute_batch("BEGIN")
}

/// Relies on rusqlite's `Connection::execute_batch` running COMMIT: a
/// successful commit keeps the rows this connection already sees and ends
/// the transaction.  A failed commit either leaves the transaction open with
/// the rows as they were, or rolls it back to its starting state.
#[verifier::external_body]
pub(crate) fn commit_tx(conn: &mut rusqlite::Connection) -> (r: Result<(), rusqlite::Error>)
    ensures
        r matches Ok(()) ==> table_of(*final(conn)) == table_of(*old(conn)) && tx_state(
            *final(conn),
        ) is None,
        r matches Err(_) ==> (table_of(*final(conn)) == table_of(*old(conn)) && tx_state(
            *final(conn),
        ) == tx_state(*old(conn))) || (tx_state(*old(conn)) matches Some(t) && table_of(
            *final(conn),
        ) == t && tx_state(*final(conn)) is None),
{
    conn.execute_batch("COMMIT")
}

/// Relies on rusqlite's `Connection::execute_batch` running ROLLBACK: with a
/// transaction open (rusqlite finalizes every statement it runs, so none is
/// pending) the table returns to the transaction's starting state and the
/// transaction ends; without one, ROLLBACK fails and changes no rows.
#[verifier::external_body]
pub(crate) fn rollback_tx(conn: &mut rusqlite::Connection) -> (r: Result<(), rusqlite::Error>)
    ensures
        tx_state(*old(conn)) matches Some(t) ==> table_of(*final(conn)) == t && tx_state(
            *final(conn),
        ) is None,
        tx_state(*old(conn)) is None ==> table_of(*final(conn)) == table_of(*old(conn))
            && tx_state(*final(conn)) is None,
{
    conn.execute_batch("ROLLBACK")
}

} // verus!
