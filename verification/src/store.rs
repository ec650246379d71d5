//! The operations on the `logs` table of a SQLite connection.

use crate::clock::{unix_time, window_start};
use crate::entry::{row_for, stored_row, LogEntry, StoredRow};
use crate::query::{build_search, SqlParameter};
use crate::ranking::{
    distinct_users, is_distinct, is_ranked, lemma_ranking_is_ranked, lemma_ranking_keeps_distinct,
    lemma_top_is_distinct, lemma_top_outranks_rest, rank, ranking, top_n, top_of, user_views,
    UserCount, UserCountView,
};
use crate::render::{render_rows, render_top_users, top_users_markup};
use crate::rows::{
    answers_search, check_answer, display_rows, log_row_views, search_markup, LogRow, LogRowView,
};
use vstd::prelude::*;

verus! {

/// Trusted: makes `rusqlite::Connection` known as an opaque type.
#[verifier::external_type_specification]
#[verifier::external_body]
pub struct ExConnection(rusqlite::Connection);

/// Trusted: makes `rusqlite::Error` known as an opaque type.
#[verifier::external_type_specification]
#[verifier::external_body]
pub struct ExSqliteError(rusqlite::Error);

/// A failure of the underlying store, with the store's own description of it.
#[derive(Debug, Clone, PartialEq, Eq)]
pub struct StorageError {
    pub message: String,
}

/// Trusted: calls `rusqlite::Connection::execute` with the statement and the
/// six columns of the row, in the order timestamp, userid, username, type,
/// roomid, body. Whether it succeeds is the store's matter: nothing is claimed.
#[verifier::external_body]
fn execute_insert(conn: &rusqlite::Connection, sql: &str, row: &StoredRow) -> (r: Result<
    usize,
    rusqlite::Error,
>) {
    conn.execute(
        sql,
        (row.timestamp, &row.userid, &row.username, &row.kind, &row.roomid, &row.body),
    )
}

/// Trusted: calls `rusqlite::Connection::query_row` with the statement and its
/// three arguments and reads the first column of the single row as a 32-bit
/// integer. Nothing is claimed of the outcome.
#[verifier::external_body]
fn query_count(
    conn: &rusqlite::Connection,
    sql: &str,
    user_id: &str,
    room_id: &str,
    cutoff: i64,
) -> (r: Result<i32, rusqlite::Error>) {
    conn.query_row(sql, (user_id, room_id, cutoff), |row| row.get(0))
}

/// Trusted: prepares the statement with `rusqlite::Connection::prepare`, runs
/// it with `Statement::query_map` on the given arguments and reads of every
/// row the columns 1, 2, 3, 5 and 6 (timestamp, userid, username, roomid,
/// body) with `Row::get`; a column that cannot be read fails the whole call.
/// Nothing is claimed of the outcome.
#[verifier::external_body]
fn query_log_rows(conn: &rusqlite::Connection, sql: &str, args: &Vec<SqlParameter>) -> (r: Result<
    Vec<LogRow>,
    rusqlite::Error,
>) {
    let values = args.iter().map(|p| match p {
        SqlParameter::Number(n) => rusqlite::types::Value::Integer(*n),
        SqlParameter::Text(s) => rusqlite::types::Value::Text(s.clone()),
        SqlParameter::Null => rusqlite::types::Value::Null,
    });
    let mut statement = conn.prepare(sql)?;
    let rows = statement.query_map(rusqlite::params_from_iter(values), |row| {
        let (timestamp, userid, username) = (row.get(1)?, row.get(2)?, row.get(3)?);
        Ok(LogRow { timestamp, userid, username, roomid: row.get(5)?, body: row.get(6)? })
    })?;
    rows.collect()
}

/// Trusted: prepares the statement with `rusqlite::Connection::prepare`, runs
/// it with `Statement::query_map` on the room and the bound and reads of every
/// row the columns 0 and 1 (user, count) with `Row::get`; a column that cannot
/// be read fails the whole call. Nothing is claimed of the outcome.
#[verifier::external_body]
fn query_user_counts(conn: &rusqlite::Connection, sql: &str, room_id: &str, cutoff: i64) -> (r:
    Result<Vec<UserCount>, rusqlite::Error>) {
    let mut statement = conn.prepare(sql)?;
    let rows = statement.query_map((room_id, cutoff), |row| {
        Ok(UserCount { userid: row.get(0)?, lines: row.get(1)? })
    })?;
    rows.collect()
}

/// Trusted: the description that `rusqlite::Error` gives of itself through
/// `Display`. Nothing is claimed of the text.
#[verifier::external_body]
fn describe(error: &rusqlite::Error) -> String {
    error.to_string()
}

fn storage_error(error: &rusqlite::Error) -> StorageError {
    StorageError { message: describe(error) }
}

/// The rendering of the head of the ranking of a list of users.
pub open spec fn ranking_markup(
    room_id: Seq<char>,
    users: Seq<UserCountView>,
    num_users: Option<i32>,
) -> Seq<char> {
    top_users_markup(room_id, top_of(ranking(users), num_users))
}

/// Settles an insertion: it succeeds exactly where the store did.
pub fn insert_result(outcome: Result<usize, rusqlite::Error>) -> (r: Result<(), StorageError>)
    ensures
        r is Ok <==> outcome is Ok,
{
    match outcome {
        Ok(_) => Ok(()),
        Err(e) => Err(storage_error(&e)),
    }
}

/// Settles a search. Where the store failed, the search fails. Rows that do
/// not answer the search are a failure of the store too. Rows that do are
/// rendered.
pub fn search_result(
    outcome: Result<Vec<LogRow>, rusqlite::Error>,
    room_id: &str,
    user_id: Option<&str>,
    oldest: Option<i32>,
    max_messages: Option<i32>,
) -> (r: Result<String, StorageError>)
    ensures
        match outcome {
            Ok(rows) => if answers_search(
                log_row_views(rows@),
                room_id,
                user_id,
                oldest,
                max_messages,
            ) {
                r matches Ok(html) && html@ == search_markup(log_row_views(rows@))
            } else {
                r matches Err(e) && e.message@ == "the rows returned do not answer the search"@
            },
            Err(_) => r is Err,
        },
{
    match outcome {
        Ok(rows) => {
            if !check_answer(&rows, room_id, user_id, oldest, max_messages) {
                return Err(
                    StorageError {
                        message: String::from_str("the rows returned do not answer the search"),
                    },
                );
            }
            let shown = display_rows(&rows);
            Ok(render_rows(&shown))
        },
        Err(e) => Err(storage_error(&e)),
    }
}

/// Settles a line count. Where the store failed, the count fails. A negative
/// number is no count and a failure of the store too. Any other number is the
/// count.
pub fn linecount_result(outcome: Result<i32, rusqlite::Error>) -> (r: Result<i32, StorageError>)
    ensures
        match outcome {
            Ok(count) => if count >= 0 {
                r == Ok::<i32, StorageError>(count)
            } else {
                r matches Err(e) && e.message@ == "the count returned is negative"@
            },
            Err(_) => r is Err,
        },
{
    match outcome {
        Ok(count) => {
            if count < 0 {
                Err(StorageError { message: String::from_str("the count returned is negative") })
            } else {
                Ok(count)
            }
        },
        Err(e) => Err(storage_error(&e)),
    }
}

/// Settles a listing of users and their counts. Where the store failed, the
/// ranking fails. A listing that names a user twice is no count per user and a
/// failure of the store too. Any other listing is ranked, and its head of
/// `num_users` users, or all of it where no number is given, is the result.
pub fn topusers_result(
    outcome: Result<Vec<UserCount>, rusqlite::Error>,
    num_users: Option<i32>,
) -> (r: Result<Vec<UserCount>, StorageError>)
    ensures
        match outcome {
            Ok(all) => if is_distinct(user_views(all@)) {
                r matches Ok(users) && user_views(users@) == top_of(
                    ranking(user_views(all@)),
                    num_users,
                )
            } else {
                r matches Err(e) && e.message@ == "a user is listed more than once"@
            },
            Err(_) => r is Err,
        },
{
    match outcome {
        Ok(all) => {
            if !distinct_users(&all) {
                return Err(
                    StorageError { message: String::from_str("a user is listed more than once") },
                );
            }
            Ok(top_n(rank(&all), num_users))
        },
        Err(e) => Err(storage_error(&e)),
    }
}

/// Settles the rendering of a ranking: a failure stays the failure it is, and
/// a ranking is rendered in the order given.
pub fn topusers_html_result(room_id: &str, ranked: Result<Vec<UserCount>, StorageError>) -> (r:
    Result<String, StorageError>)
    ensures
        match ranked {
            Ok(users) => r matches Ok(html) && html@ == top_users_markup(
                room_id@,
                user_views(users@),
            ),
            Err(e) => r == Err::<String, StorageError>(e),
        },
{
    match ranked {
        Ok(users) => Ok(render_top_users(room_id, &users)),
        Err(e) => Err(e),
    }
}

/// Appends a message to the log of a room. A message whose kind is neither
/// "chat" nor "pm" is dropped without a word: the store is not touched and the
/// call succeeds. Any other message is handed to the store as one row, and
/// the call fails exactly where the store does.
pub fn log_message(conn: &rusqlite::Connection, room: &str, message: LogEntry) -> (r: Result<
    (),
    StorageError,
>)
    ensures
        stored_row(room@, message@) is None ==> r is Ok,
{
    match row_for(room, message) {
        None => Ok(()),
        Some(row) => {
            let outcome = execute_insert(
                conn,
                "INSERT INTO logs (timestamp, userid, username, type, roomid, body) VALUES (?, ?, ?, ?, ?, ?)",
                &row,
            );
            insert_result(outcome)
        },
    }
}

/// Searches the log of a room and renders what it finds, newest first, as
/// one collapsible block per calendar day. An answer of the store that is out
/// of order, holds a row of another room, of another user than the one asked
/// for or at or before the bound, or has more rows than were asked for is
/// reported as a failure of the store. So whatever the store returns, a
/// successful result is the rendering of rows of this room and this user that
/// are newest first, newer than the bound and within the limit. That each row
/// holds every keyword, and that no newer row was left out, is the store's
/// part.
pub fn search(
    conn: &rusqlite::Connection,
    room_id: &str,
    user_id: Option<&str>,
    oldest: Option<i32>,
    keywords: Option<Vec<&str>>,
    max_messages: Option<i32>,
) -> (r: Result<String, StorageError>)
    ensures
        r matches Ok(html) ==> exists|rows: Seq<LogRowView>|
            answers_search(rows, room_id, user_id, oldest, max_messages) && html@ == search_markup(
                rows,
            ),
{
    let query = build_search(room_id, user_id, oldest, keywords, max_messages);
    let outcome = query_log_rows(conn, query.sql.as_str(), &query.args);
    let ghost found = outcome;
    let r = search_result(outcome, room_id, user_id, oldest, max_messages);
    proof {
        if r is Ok {
            let html = r->Ok_0;
            let rows = log_row_views(found->Ok_0@);
            assert(answers_search(rows, room_id, user_id, oldest, max_messages) && html@
                == search_markup(rows));
        }
    }
    r
}

/// Counts the lines that a user wrote in a room within the last `days` days
/// (30 where none are given), counted back from the current time. No lines
/// give a count of zero, not a failure; a negative count is none and is
/// reported as a failure of the store.
pub fn get_linecount(
    conn: &rusqlite::Connection,
    user_id: &str,
    room_id: &str,
    days: Option<i32>,
) -> (r: Result<i32, StorageError>)
    ensures
        r matches Ok(count) ==> count >= 0,
{
    let cutoff = window_start(unix_time(), days);
    let outcome = query_count(
        conn,
        "SELECT count(log_id) FROM logs WHERE userid = ? AND roomid = ? AND timestamp > ?",
        user_id,
        room_id,
        cutoff,
    );
    linecount_result(outcome)
}

/// Ranks the users of a room by the lines they wrote within the last `days`
/// days (30 where none are given): most lines first. The statement asks the
/// store for that order, with users of equally many lines in ascending order
/// of their identifiers, and a list in that order is ranked as it stands.
/// With `num_users`, only that many users from the top are returned. A
/// listing that names a user twice is no count per user and is reported as a
/// failure of the store. Whatever the store returns, a successful result is
/// the head of the ranking of some list of users, ranked and without
/// repetition.
pub fn get_topusers(
    conn: &rusqlite::Connection,
    room_id: &str,
    days: Option<i32>,
    num_users: Option<i32>,
) -> (r: Result<Vec<UserCount>, StorageError>)
    ensures
        r matches Ok(users) ==> {
            &&& is_ranked(user_views(users@))
            &&& is_distinct(user_views(users@))
            &&& exists|all: Seq<UserCountView>|
                user_views(users@) == top_of(ranking(all), num_users)
        },
{
    let cutoff = window_start(unix_time(), days);
    let outcome = query_user_counts(
        conn,
        "SELECT userid, count(log_id) FROM logs WHERE roomid = ? AND timestamp > ? GROUP BY userid ORDER BY count(log_id) DESC, userid ASC",
        room_id,
        cutoff,
    );
    let ghost listed = outcome;
    let r = topusers_result(outcome, num_users);
    proof {
        if r is Ok {
            let users = r->Ok_0;
            let all = user_views(listed->Ok_0@);
            lemma_ranking_is_ranked(all);
            lemma_ranking_keeps_distinct(all);
            lemma_top_outranks_rest(ranking(all), num_users);
            lemma_top_is_distinct(ranking(all), num_users);
            assert(user_views(users@) == top_of(ranking(all), num_users));
        }
    }
    r
}

/// The ranking of `get_topusers`, rendered as a list in a collapsible block.
pub fn get_topusers_html(
    conn: &rusqlite::Connection,
    room_id: &str,
    days: Option<i32>,
    num_users: Option<i32>,
) -> (r: Result<String, StorageError>)
    ensures
        r matches Ok(html) ==> exists|all: Seq<UserCountView>|
            html@ == ranking_markup(room_id@, all, num_users),
{
    let ranked = get_topusers(conn, room_id, days, num_users);
    let ghost given = ranked;
    let r = topusers_html_result(room_id, ranked);
    proof {
        if r is Ok {
            let html = r->Ok_0;
            let users = user_views(given->Ok_0@);
            let all = choose|all: Seq<UserCountView>| users == top_of(ranking(all), num_users);
            assert(html@ == ranking_markup(room_id@, all, num_users));
        }
    }
    r
}

} // verus!
