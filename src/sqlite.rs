use vstd::prelude::*;

verus! {

#[verifier::external_type_specification]
#[verifier::external_body]
pub struct ExConnection(rusqlite::Connection);

#[verifier::external_type_specification]
#[verifier::external_body]
pub struct ExTransaction<'conn>(rusqlite::Transaction<'conn>);

/// Relies on rusqlite::Connection::open_with_flags: opens an existing
/// database for reading and writing, without creating it.
#[verifier::external_body]
pub(crate) fn open_read_write(path: &str) -> (r: Result<rusqlite::Connection, rusqlite::Error>) {
    rusqlite::Connection::open_with_flags(path, rusqlite::OpenFlags::SQLITE_OPEN_READ_WRITE)
}

/// Relies on rusqlite::Connection::open: opens a database, creating it
/// when it does not exist.
#[verifier::external_body]
pub(crate) fn open_or_create(path: &str) -> (r: Result<rusqlite::Connection, rusqlite::Error>) {
    rusqlite::Connection::open(path)
}

/// Relies on rusqlite::Error and rusqlite::ErrorCode: tells whether an
/// open failed because the database file could not be opened.
#[verifier::external_body]
pub(crate) fn is_cannot_open(e: &rusqlite::Error) -> (r: bool) {
    match e {
        rusqlite::Error::SqliteFailure(f, _) => f.code == rusqlite::ErrorCode::CannotOpen,
        _ => false,
    }
}

/// Relies on rusqlite::Connection::transaction_with_behavior: begins an
/// immediate (write) transaction, rolled back when dropped uncommitted.
#[verifier::external_body]
pub(crate) fn begin_immediate(db: &mut rusqlite::Connection) -> (r: Result<
    rusqlite::Transaction<'_>,
    rusqlite::Error,
>) {
    db.transaction_with_behavior(rusqlite::TransactionBehavior::Immediate)
}

/// Relies on rusqlite::Connection::execute_batch: runs statements that
/// take no parameters.
#[verifier::external_body]
pub(crate) fn execute_batch(tx: &rusqlite::Transaction<'_>, sql: &str) -> (r: Result<
    (),
    rusqlite::Error,
>) {
    tx.execute_batch(sql)
}

/// Relies on rusqlite::Connection::execute: runs one statement whose
/// parameters are a key, an integer and a text.
#[verifier::external_body]
pub(crate) fn execute_row(
    tx: &rusqlite::Transaction<'_>,
    sql: &str,
    key: &str,
    value: i64,
    text: &str,
) -> (r: Result<usize, rusqlite::Error>) {
    tx.execute(sql, &[&key as &dyn rusqlite::ToSql, &value, &text])
}

/// Relies on rusqlite::Connection::query_row and
/// rusqlite::OptionalExtension::optional: the text in the first column of
/// the first row that a keyed query returns, `None` when it returns none.
#[verifier::external_body]
pub(crate) fn query_text(tx: &rusqlite::Transaction<'_>, sql: &str, key: &str) -> (r: Result<
    Option<String>,
    rusqlite::Error,
>) {
    rusqlite::OptionalExtension::optional(tx.query_row(sql, &[key], |row| row.get(0)))
}

/// Relies on rusqlite::Connection::query_row and
/// rusqlite::OptionalExtension::optional: the integer in the first column
/// of the first row that a keyed query returns, `None` when it returns none.
#[verifier::external_body]
pub(crate) fn query_integer(db: &rusqlite::Connection, sql: &str, key: &str) -> (r: Result<
    Option<i64>,
    rusqlite::Error,
>) {
    rusqlite::OptionalExtension::optional(db.query_row(sql, &[key], |row| row.get(0)))
}

/// Relies on rusqlite::Transaction::commit: commits the transaction.
#[verifier::external_body]
pub(crate) fn commit(tx: rusqlite::Transaction<'_>) -> (r: Result<(), rusqlite::Error>) {
    tx.commit()
}

} // verus!
