//! The correlation table and the ban registry, kept in an SQLite database.
//!
//! What a query returns depends on the database, so the functions that run one
//! promise little. What is fixed here, and proved, is the text of each
//! statement and what is made of each outcome.

use crate::text::{decimal_text, push_decimal};
use vstd::prelude::*;
use vstd::string::*;

verus! {

/// `sqlite::ConnectionThreadSafe`, an open database. What the database
/// holds is not visible here.
#[verifier::external_type_specification]
#[verifier::external_body]
pub struct ExConnectionThreadSafe(sqlite::ConnectionThreadSafe);

/// `sqlite::Statement`, a prepared statement of one connection.
#[verifier::external_type_specification]
#[verifier::external_body]
pub struct ExStatement<'l>(sqlite::Statement<'l>);

/// `sqlite::Error`, read only through its result code.
#[verifier::external_type_specification]
#[verifier::external_body]
pub struct ExSqliteError(sqlite::Error);

/// Creates the correlation table unless it is there: one row per relayed
/// message, keyed by the group-side message.
pub const CREATE_MESSAGE_TABLE_STATEMENT: &'static str =
    "CREATE TABLE IF NOT EXISTS forwards (message_id INTEGER PRIMARY KEY, user_id INTEGER, dm_message_id INTEGER);";

/// Creates the ban table unless it is there: one row per banned user.
pub const CREATE_BAN_TABLE_STATEMENT: &'static str =
    "CREATE TABLE IF NOT EXISTS bans (user_id INTEGER PRIMARY KEY)";

/// Selects the correlation record of one group-side message.
pub const SELECT_MESSAGE_STATEMENT: &'static str =
    "select user_id, dm_message_id from forwards where message_id = ?";

/// Selects a row if the user is banned, and none if not.
pub const SELECT_BAN_STATEMENT: &'static str = "SELECT 1 FROM bans WHERE user_id = ?";

/// The primary result code with which SQLite reports a violated constraint.
pub const SQLITE_CONSTRAINT: isize = 19;

/// One row of the correlation table: the group-side message, the user it came
/// from, and the message as numbered in that user's own conversation.
#[derive(Clone, Copy, Debug, PartialEq, Eq, Structural)]
pub struct InsertValues {
    pub message_id: i64,
    pub user_id: i64,
    pub dm_message_id: i64,
}

/// Why the store could not answer.
#[derive(Clone, Copy, Debug, PartialEq, Eq, Structural)]
pub enum StorageError {
    /// A row with the same primary key is already there.
    Conflict,
    /// The database could not be reached, read or written.
    IO,
}

/// What a prepared statement reports after one step.
#[derive(Clone, Copy, Debug, PartialEq, Eq, Structural)]
pub enum Stepped {
    /// A row is ready to be read.
    Row,
    /// The statement has run to its end.
    Done,
}

/// The two selects of the store. Their columns are named in plain letters.
pub open spec fn is_select(sql: Seq<char>) -> bool {
    sql == SELECT_MESSAGE_STATEMENT@ || sql == SELECT_BAN_STATEMENT@
}

/// `sqlite::Connection::prepare`: compiles one statement. Nothing is claimed
/// of the outcome, which depends on the database. It is for the two selects
/// alone: the call reads the names of the statement's columns as UTF-8 and
/// panics on a name that is not.
#[verifier::external_body]
fn prepare<'l>(db: &'l sqlite::ConnectionThreadSafe, sql: &str) -> (res: Result<
    sqlite::Statement<'l>,
    sqlite::Error,
>)
    requires
        is_select(sql@),
{
    db.prepare(sql)
}

/// `sqlite::Statement::bind` with a parameter index and an `i64` value.
/// Nothing is claimed of the outcome.
#[verifier::external_body]
fn bind_integer(statement: &mut sqlite::Statement<'_>, index: usize, value: i64) -> (res: Result<
    (),
    sqlite::Error,
>) {
    statement.bind((index, value))
}

/// `sqlite::Statement::next`: advances the statement by one step. Nothing is
/// claimed of the outcome, which depends on the database.
#[verifier::external_body]
fn step(statement: &mut sqlite::Statement<'_>) -> (res: Result<Stepped, sqlite::Error>) {
    match statement.next() {
        Ok(sqlite::State::Row) => Ok(Stepped::Row),
        Ok(sqlite::State::Done) => Ok(Stepped::Done),
        Err(error) => Err(error),
    }
}

/// `sqlite::Statement::read` of an `i64` from the column of the given name.
/// Nothing is claimed of the outcome.
#[verifier::external_body]
fn read_integer(statement: &sqlite::Statement<'_>, column: &str) -> (res: Result<
    i64,
    sqlite::Error,
>) {
    statement.read::<i64, _>(column)
}

/// `sqlite::Connection::execute`: runs a statement and discards its rows.
/// Nothing is claimed of the outcome, which depends on the database.
#[verifier::external_body]
fn execute(db: &sqlite::ConnectionThreadSafe, sql: &str) -> (res: Result<(), sqlite::Error>) {
    db.execute(sql)
}

/// Reads the public field `code` of an `sqlite::Error`. Nothing is claimed of
/// its value.
#[verifier::external_body]
fn error_code(error: &sqlite::Error) -> (res: Option<isize>) {
    error.code
}

/// Whether a result code reports a violated constraint. The primary code is
/// the low byte; an extended code keeps it there.
pub open spec fn is_constraint_code(code: Option<isize>) -> bool {
    match code {
        Some(c) => c >= 0 && c % 256 == SQLITE_CONSTRAINT,
        None => false,
    }
}

/// The error that stands for a failed call with the given result code: a
/// violated constraint is a conflict, everything else is an I/O failure.
pub open spec fn storage_error_of(code: Option<isize>) -> StorageError {
    if is_constraint_code(code) {
        StorageError::Conflict
    } else {
        StorageError::IO
    }
}

/// Classifies the result code of a failed call.
pub fn classify_code(code: Option<isize>) -> (error: StorageError)
    ensures
        error == storage_error_of(code),
{
    match code {
        Some(c) => {
            if c >= 0 && c % 256 == SQLITE_CONSTRAINT {
                StorageError::Conflict
            } else {
                StorageError::IO
            }
        },
        None => StorageError::IO,
    }
}

/// The statement that inserts `values` into the correlation table.
pub open spec fn insert_statement_text(values: InsertValues) -> Seq<char> {
    "INSERT INTO forwards VALUES ("@ + decimal_text(values.message_id as int) + ", "@
        + decimal_text(values.user_id as int) + ", "@ + decimal_text(values.dm_message_id as int)
        + ")"@
}

/// The statement that inserts `user_id` into the ban table.
pub open spec fn ban_statement_text(user_id: i64) -> Seq<char> {
    "INSERT INTO bans VALUES ("@ + decimal_text(user_id as int) + ")"@
}

/// Writes the statement that records one relayed message. It is a plain
/// insert: a row that is already there is never replaced.
pub fn insert_statement(values: &InsertValues) -> (sql: String)
    ensures
        sql@ == insert_statement_text(*values),
{
    let mut sql = String::from_str("INSERT INTO forwards VALUES (");
    push_decimal(&mut sql, values.message_id);
    sql.append(", ");
    push_decimal(&mut sql, values.user_id);
    sql.append(", ");
    push_decimal(&mut sql, values.dm_message_id);
    sql.append(")");
    sql
}

/// Writes the statement that bans one user.
pub fn ban_statement(user_id: i64) -> (sql: String)
    ensures
        sql@ == ban_statement_text(user_id),
{
    let mut sql = String::from_str("INSERT INTO bans VALUES (");
    push_decimal(&mut sql, user_id);
    sql.append(")");
    sql
}

/// What recording a message returns for each outcome of its insert: success
/// as it is, a violated key as `Conflict`, any other failure as `IO`.
pub open spec fn insert_result(outcome: Result<(), Option<isize>>) -> Result<(), StorageError> {
    match outcome {
        Ok(()) => Ok(()),
        Err(code) => Err(storage_error_of(code)),
    }
}

/// What banning a user returns for each outcome of its insert: a violated key
/// means the user was banned before, which is as good as success.
pub open spec fn ban_result(outcome: Result<(), Option<isize>>) -> Result<(), StorageError> {
    match outcome {
        Ok(()) => Ok(()),
        Err(code) => if is_constraint_code(code) {
            Ok(())
        } else {
            Err(StorageError::IO)
        },
    }
}

/// Decides what `insert_into` returns once the insert has run.
pub fn insert_outcome(outcome: Result<(), Option<isize>>) -> (res: Result<(), StorageError>)
    ensures
        res == insert_result(outcome),
{
    match outcome {
        Ok(()) => Ok(()),
        Err(code) => Err(classify_code(code)),
    }
}

/// Decides what `ban` returns once the insert has run.
pub fn ban_outcome(outcome: Result<(), Option<isize>>) -> (res: Result<(), StorageError>)
    ensures
        res == ban_result(outcome),
{
    match outcome {
        Ok(()) => Ok(()),
        Err(code) => match classify_code(code) {
            StorageError::Conflict => Ok(()),
            StorageError::IO => Err(StorageError::IO),
        },
    }
}

/// What the select of a correlation record came to.
#[derive(Clone, Copy, Debug, PartialEq, Eq, Structural)]
pub enum Selected {
    /// The statement could not be prepared, bound or stepped.
    Failed,
    /// The statement ran to its end without a row.
    Nothing,
    /// A row came. Each column is there unless it could not be read.
    Row { user_id: Option<i64>, dm_message_id: Option<i64> },
}

/// What a lookup returns for each thing its select can come to: the record
/// of a row that was read in full, `None` where no row came, and
/// `StorageError::IO` where the statement failed or a column could not be
/// read.
pub open spec fn lookup_result(selected: Selected) -> Result<Option<(i64, i64)>, StorageError> {
    match selected {
        Selected::Failed => Err(StorageError::IO),
        Selected::Nothing => Ok(None),
        Selected::Row { user_id: Some(user_id), dm_message_id: Some(dm_message_id) } => Ok(
            Some((user_id, dm_message_id)),
        ),
        Selected::Row { .. } => Err(StorageError::IO),
    }
}

/// What a ban check returns for each thing its select can come to, `None`
/// standing for a statement that failed: a row means banned, the end without
/// a row means not banned, and a failure is `StorageError::IO`.
pub open spec fn banned_result(stepped: Option<Stepped>) -> Result<bool, StorageError> {
    match stepped {
        Some(Stepped::Row) => Ok(true),
        Some(Stepped::Done) => Ok(false),
        None => Err(StorageError::IO),
    }
}

/// Decides what `get_from_message_id` returns once the select has run.
pub fn lookup_outcome(selected: Selected) -> (res: Result<Option<(i64, i64)>, StorageError>)
    ensures
        res == lookup_result(selected),
{
    match selected {
        Selected::Failed => Err(StorageError::IO),
        Selected::Nothing => Ok(None),
        Selected::Row { user_id: Some(user_id), dm_message_id: Some(dm_message_id) } => Ok(
            Some((user_id, dm_message_id)),
        ),
        Selected::Row { .. } => Err(StorageError::IO),
    }
}

/// Decides what `is_banned` returns once the select has run.
pub fn banned_outcome(stepped: Option<Stepped>) -> (res: Result<bool, StorageError>)
    ensures
        res == banned_result(stepped),
{
    match stepped {
        Some(Stepped::Row) => Ok(true),
        Some(Stepped::Done) => Ok(false),
        None => Err(StorageError::IO),
    }
}

/// Runs one statement and keeps, of a failure, the result code alone.
fn run(db: &sqlite::ConnectionThreadSafe, sql: &str) -> (res: Result<(), Option<isize>>) {
    match execute(db, sql) {
        Ok(()) => Ok(()),
        Err(error) => Err(error_code(&error)),
    }
}

/// Prepares `sql`, one of the two selects, binds `key` to its first parameter
/// and takes one step.
fn step_keyed<'l>(db: &'l sqlite::ConnectionThreadSafe, sql: &str, key: i64) -> (res: Result<
    (sqlite::Statement<'l>, Stepped),
    StorageError,
>)
    requires
        is_select(sql@),
    ensures
        res matches Err(e) ==> e == StorageError::IO,
{
    let mut query = match prepare(db, sql) {
        Ok(query) => query,
        Err(_) => {
            return Err(StorageError::IO);
        },
    };
    match bind_integer(&mut query, 1, key) {
        Ok(()) => {},
        Err(_) => {
            return Err(StorageError::IO);
        },
    }
    match step(&mut query) {
        Ok(stepped) => Ok((query, stepped)),
        Err(_) => Err(StorageError::IO),
    }
}

/// Looks up the correlation record of a group-side message: the user it came
/// from and the message as numbered in that user's conversation. `Ok(None)`
/// is the ordinary answer for a message that was never relayed.
///
/// The answer is the database's: the select is `SELECT_MESSAGE_STATEMENT`
/// with the message as its key, and `lookup_result` says what is returned
/// for each thing the select can come to. Whatever it comes to, an error is
/// `StorageError::IO`: a lookup never reports a conflict.
pub fn get_from_message_id(db: &sqlite::ConnectionThreadSafe, message_id: i64) -> (res: Result<
    Option<(i64, i64)>,
    StorageError,
>)
    ensures
        res matches Err(e) ==> e == StorageError::IO,
{
    let selected = match step_keyed(db, SELECT_MESSAGE_STATEMENT, message_id) {
        Err(_) => Selected::Failed,
        Ok((_, Stepped::Done)) => Selected::Nothing,
        Ok((query, Stepped::Row)) => Selected::Row {
            user_id: match read_integer(&query, "user_id") {
                Ok(value) => Some(value),
                Err(_) => None,
            },
            dm_message_id: match read_integer(&query, "dm_message_id") {
                Ok(value) => Some(value),
                Err(_) => None,
            },
        },
    };
    lookup_outcome(selected)
}

/// Whether the user is in the ban table.
///
/// The answer is the database's: the select is `SELECT_BAN_STATEMENT` with
/// the user as its key, and `banned_result` says what is returned for each
/// thing the select can come to. Whatever it comes to, an error is
/// `StorageError::IO`.
pub fn is_banned(db: &sqlite::ConnectionThreadSafe, user_id: i64) -> (res: Result<
    bool,
    StorageError,
>)
    ensures
        res matches Err(e) ==> e == StorageError::IO,
{
    let stepped = match step_keyed(db, SELECT_BAN_STATEMENT, user_id) {
        Ok((_, stepped)) => Some(stepped),
        Err(_) => None,
    };
    banned_outcome(stepped)
}

/// Puts the user into the ban table. Banning a user who is banned already
/// succeeds and changes nothing: the violated key is not reported, so the only
/// error is `StorageError::IO`.
///
/// The outcome is the database's: the statement is that of `ban_statement`,
/// and `ban_result` says what is returned for each outcome of running it.
pub fn ban(db: &sqlite::ConnectionThreadSafe, user_id: i64) -> (res: Result<(), StorageError>)
    ensures
        res matches Err(e) ==> e == StorageError::IO,
{
    let sql = ban_statement(user_id);
    ban_outcome(run(db, sql.as_str()))
}

/// Records one relayed message. The insert is plain, so a row with the same
/// group-side message is left as it was and `StorageError::Conflict` comes
/// back; any other failure is `StorageError::IO`.
///
/// The outcome is the database's, and each of the three results can come:
/// the statement is that of `insert_statement`, and `insert_result` says what
/// is returned for each outcome of running it.
pub fn insert_into(db: &sqlite::ConnectionThreadSafe, values: InsertValues) -> (res: Result<
    (),
    StorageError,
>) {
    let sql = insert_statement(&values);
    insert_outcome(run(db, sql.as_str()))
}

/// A record is written once: where the insert of a record runs into the key
/// of a record that is there, `insert_into` reports `Conflict`, not success.
pub proof fn used_key_is_a_conflict(code: Option<isize>)
    requires
        is_constraint_code(code),
    ensures
        insert_result(Err(code)) == Err::<(), StorageError>(StorageError::Conflict),
{
}

/// Banning again is no error: where the insert of a ban runs into the key of
/// a ban that is there, `ban` reports success.
pub proof fn repeated_ban_succeeds(code: Option<isize>)
    requires
        is_constraint_code(code),
    ensures
        ban_result(Err(code)) == Ok::<(), StorageError>(()),
{
}

} // verus!
