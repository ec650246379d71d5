use chatlog_tools::{
    get_linecount, get_topusers, get_topusers_html, insert_result, linecount_result, lines_of,
    log_message, search, search_result, topusers_html_result, topusers_result, unix_time,
    LogEntry, LogRow, StorageError, UserCount,
};
use rusqlite::Connection;

fn get_connection() -> Connection {
    let connection = Connection::open_in_memory().unwrap();
    connection
        .execute_batch(
            "CREATE TABLE IF NOT EXISTS logs (
                log_id INTEGER NOT NULL PRIMARY KEY,
                -- UNIX timestamp
                timestamp INTEGER NOT NULL,
                -- the ID of the user who sent the message
                userid TEXT,
                -- their name
                username TEXT,
                -- chat, pm, etc
                type TEXT NOT NULL,
                -- null if it's a PM/other global message
                roomid TEXT,
                body TEXT
            );

            CREATE INDEX IF NOT EXISTS log_index_1 ON logs(timestamp);
            CREATE INDEX IF NOT EXISTS log_index_2 ON logs(userid, timestamp);
            CREATE INDEX IF NOT EXISTS log_index_3 ON logs(userid, roomid, timestamp);
            CREATE INDEX IF NOT EXISTS log_index_5 ON logs(type, userid, roomid, timestamp);
            PRAGMA journal_mode=WAL;",
        )
        .unwrap();
    connection
}

fn entry(time: i32, kind: &str, sender_id: &str, sender_name: &str, body: &str) -> LogEntry {
    LogEntry {
        body: String::from(body),
        kind: String::from(kind),
        sender_id: String::from(sender_id),
        sender_name: String::from(sender_name),
        time,
    }
}

fn add_test_data(conn: &Connection, current_time: i32) {
    log_message(
        conn,
        "test",
        LogEntry {
            body: String::from("Test Message One"),
            kind: String::from("chat"),
            sender_id: String::from("annika"),
            sender_name: String::from("@Annika"),
            time: current_time,
        },
    )
    .unwrap();
    log_message(
        conn,
        "test",
        LogEntry {
            body: String::from("Test Message Two"),
            kind: String::from("chat"),
            sender_id: String::from("annika"),
            sender_name: String::from("@Annika"),
            time: current_time,
        },
    )
    .unwrap();
    log_message(
        conn,
        "test",
        LogEntry {
            body: String::from("Test Message Three"),
            kind: String::from("chat"),
            sender_id: String::from("annika"),
            sender_name: String::from("@Annika"),
            time: current_time - 15 * 30 * 60 * 60, // 15 days ago
        },
    )
    .unwrap();
    log_message(
        conn,
        "test",
        LogEntry {
            body: String::from("Test Message Four"),
            kind: String::from("chat"),
            sender_id: String::from("heartofetheria"),
            sender_name: String::from("Heart of Etheria"),
            time: current_time - 15 * 30 * 60 * 60, // 15 days ago
        },
    )
    .unwrap();
}

fn row_count(conn: &Connection) -> i64 {
    conn.query_row("SELECT count(*) FROM logs", [], |row| row.get(0)).unwrap()
}

#[test]
fn insertion_test() {
    let conn = get_connection();

    log_message(
        &conn,
        "test",
        LogEntry {
            body: String::from("Hello from Rust!"),
            kind: String::from("chat"),
            sender_id: String::from("annika"),
            sender_name: String::from("@Annika"),
            time: 1601875655,
        },
    )
    .unwrap();

    conn.query_row("SELECT * FROM logs", [], |row: &rusqlite::Row| {
        assert_eq!(row.get::<usize, i32>(1).unwrap(), 1601875655);
        assert_eq!(row.get::<usize, String>(2).unwrap(), String::from("annika"));
        assert_eq!(row.get::<usize, String>(3).unwrap(), String::from("@Annika"));
        assert_eq!(row.get::<usize, String>(4).unwrap(), String::from("chat"));
        assert_eq!(row.get::<usize, String>(5).unwrap(), String::from("test"));
        assert_eq!(row.get::<usize, String>(6).unwrap(), String::from("Hello from Rust!"));
        Ok(())
    })
    .unwrap();
}

#[test]
fn search_test() {
    let conn = get_connection();
    add_test_data(&conn, 1602131140);

    // Check that it can search by user ID and format regular users
    let mut results = search(&conn, "test", Some("heartofetheria"), None, None, None).unwrap();
    // 19 Sep = 15 days ago as per add_test_data()
    assert_eq!(results, "<details style=\"margin-left: 5px;\"><summary><b>19-Sep-2020</b></summary><div style=\"margin-left: 10px;\"><small>[10:25:40] </small><b>Heart of Etheria</b>: Test Message Four</div></details>");

    // Check that it can format auth correctly
    results = search(&conn, "test", Some("annika"), Some(0), None, Some(1)).unwrap();
    assert_eq!(results, "<details style=\"margin-left: 5px;\"><summary><b> 8-Oct-2020</b></summary><div style=\"margin-left: 10px;\"><small>[04:25:40] </small><small>@</small><b>Annika</b>: Test Message One</div></details>");

    // Check that it can search by time
    results = search(&conn, "test", None, Some(1602131140 - 100), None, Some(1000)).unwrap();
    assert_eq!(results.contains("Test Message One"), true);
    assert_eq!(results.contains("Test Message Two"), true);
    assert_eq!(results.contains("Test Message Three"), false);
    assert_eq!(results.contains("Test Message Four"), false);

    // Check that it can limit the number of messages returned
    results = search(&conn, "test", None, None, None, Some(1)).unwrap();
    assert_eq!(results.contains("Test Message One"), true);
    assert_eq!(results.contains("Test Message Two"), false);
    assert_eq!(results.contains("Test Message Three"), false);
    assert_eq!(results.contains("Test Message Four"), false);

    // Check that it can search by a (case-insensitive) keyword
    results = search(&conn, "test", None, None, Some(vec!["tWo"]), None).unwrap();
    assert_eq!(results.contains("Test Message One"), false);
    assert_eq!(results.contains("Test Message Two"), true);
    assert_eq!(results.contains("Test Message Three"), false);
    assert_eq!(results.contains("Test Message Four"), false);
}

#[test]
fn linecount_test() {
    let conn = get_connection();
    add_test_data(&conn, unix_time() as i32);

    // Test that it works
    assert_eq!(get_linecount(&conn, "annika", "test", None), Ok(3));
    assert_eq!(get_linecount(&conn, "heartofetheria", "test", None), Ok(1));

    // Test that it limits the number of days
    assert_eq!(get_linecount(&conn, "annika", "test", Some(10)), Ok(2));
    assert_eq!(get_linecount(&conn, "heartofetheria", "test", Some(10)), Ok(0));
}

#[test]
fn topusers_test() {
    let conn = get_connection();
    add_test_data(&conn, unix_time() as i32);

    // test that it works
    let mut topusers = get_topusers(&conn, "test", None, None).unwrap();
    assert_eq!(lines_of(&topusers, "annika"), Some(3));
    assert_eq!(lines_of(&topusers, "heartofetheria"), Some(1));

    // test that it limits by day
    topusers = get_topusers(&conn, "test", Some(1), None).unwrap();
    assert_eq!(lines_of(&topusers, "annika"), Some(2));
    assert_eq!(lines_of(&topusers, "heartofetheria"), None);

    // test that it limits by number of users
    topusers = get_topusers(&conn, "test", None, Some(1)).unwrap();
    assert_eq!(lines_of(&topusers, "annika"), Some(3));
    assert_eq!(lines_of(&topusers, "heartofetheria"), None);
}

#[test]
fn topusers_html_test() {
    let conn = get_connection();
    add_test_data(&conn, unix_time() as i32);

    let html = get_topusers_html(&conn, "test", None, None).unwrap();
    assert_eq!(html, r#"<details><summary>Top users in the room test</summary><ul><li><strong>annika</strong> — 3 lines</li><li><strong>heartofetheria</strong> — 1 line</li></ul></details>"#);
}

#[test]
fn unknown_kind_is_dropped_without_error() {
    let conn = get_connection();
    assert_eq!(log_message(&conn, "test", entry(1601875655, "join", "annika", "@Annika", "x")), Ok(()));
    assert_eq!(log_message(&conn, "test", entry(1601875655, "", "annika", "@Annika", "x")), Ok(()));
    assert_eq!(log_message(&conn, "test", entry(1601875655, "Chat", "annika", "@Annika", "x")), Ok(()));
    assert_eq!(row_count(&conn), 0);
    assert_eq!(log_message(&conn, "test", entry(1601875655, "pm", "annika", "@Annika", "x")), Ok(()));
    assert_eq!(row_count(&conn), 1);
}

#[test]
fn private_message_round_trip() {
    let conn = get_connection();
    log_message(&conn, "lobby", entry(-5, "pm", "bob", "+Bob", "<hi> & bye")).unwrap();
    let row: (i32, String, String, String, String, String) = conn
        .query_row("SELECT timestamp, userid, username, type, roomid, body FROM logs", [], |r| {
            Ok((r.get(0)?, r.get(1)?, r.get(2)?, r.get(3)?, r.get(4)?, r.get(5)?))
        })
        .unwrap();
    assert_eq!(
        row,
        (
            -5,
            String::from("bob"),
            String::from("+Bob"),
            String::from("pm"),
            String::from("lobby"),
            String::from("<hi> & bye")
        )
    );
}

#[test]
fn search_without_filters_lists_the_room_newest_first() {
    let conn = get_connection();
    log_message(&conn, "test", entry(1602131140, "chat", "a", "A", "first")).unwrap();
    log_message(&conn, "test", entry(1602131150, "chat", "b", "B", "second")).unwrap();
    log_message(&conn, "other", entry(1602131160, "chat", "c", "C", "elsewhere")).unwrap();
    let html = search(&conn, "test", None, None, None, None).unwrap();
    assert_eq!(html, "<details style=\"margin-left: 5px;\"><summary><b> 8-Oct-2020</b></summary><div style=\"margin-left: 10px;\"><small>[04:25:50] </small><b>B</b>: second<small>[04:25:40] </small><b>A</b>: first</div></details>");
}

#[test]
fn search_groups_rows_by_day() {
    let conn = get_connection();
    add_test_data(&conn, 1602131140);
    let html = search(&conn, "test", Some("annika"), None, None, None).unwrap();
    let day_one = "<details style=\"margin-left: 5px;\"><summary><b> 8-Oct-2020</b></summary><div style=\"margin-left: 10px;\">";
    let day_two = "</div></details><details style=\"margin-left: 5px;\"><summary><b>19-Sep-2020</b></summary><div style=\"margin-left: 10px;\">";
    assert!(html.starts_with(day_one));
    assert_eq!(html.matches("<details").count(), 2);
    assert!(html.contains(day_two));
    assert!(html.ends_with("<small>[10:25:40] </small><small>@</small><b>Annika</b>: Test Message Three</div></details>"));
}

#[test]
fn search_by_user_excludes_other_users() {
    let conn = get_connection();
    add_test_data(&conn, 1602131140);
    let html = search(&conn, "test", Some("annika"), None, None, None).unwrap();
    assert!(html.contains("Test Message One"));
    assert!(html.contains("Test Message Two"));
    assert!(html.contains("Test Message Three"));
    assert!(!html.contains("Test Message Four"));
    assert_eq!(search(&conn, "test", Some("nobody"), None, None, None).unwrap(), "");
    assert_eq!(search(&conn, "empty", None, None, None, None).unwrap(), "");
}

#[test]
fn search_needs_every_keyword() {
    let conn = get_connection();
    add_test_data(&conn, 1602131140);
    let both = search(&conn, "test", None, None, Some(vec!["MESSAGE", "thr"]), None).unwrap();
    assert!(both.contains("Test Message Three"));
    assert!(!both.contains("Test Message One"));
    assert!(!both.contains("Test Message Two"));
    assert!(!both.contains("Test Message Four"));
    let clash = search(&conn, "test", None, None, Some(vec!["three", "four"]), None).unwrap();
    assert_eq!(clash, "");
    let none = search(&conn, "test", None, None, Some(vec![]), None).unwrap();
    assert_eq!(none.matches("Test Message").count(), 4);
}

#[test]
fn search_limit_keeps_the_most_recent() {
    let conn = get_connection();
    log_message(&conn, "test", entry(100, "chat", "a", "A", "oldest")).unwrap();
    log_message(&conn, "test", entry(300, "chat", "a", "A", "newest")).unwrap();
    log_message(&conn, "test", entry(200, "chat", "a", "A", "middle")).unwrap();
    let two = search(&conn, "test", None, None, None, Some(2)).unwrap();
    assert!(two.contains("newest"));
    assert!(two.contains("middle"));
    assert!(!two.contains("oldest"));
    assert!(two.find("newest").unwrap() < two.find("middle").unwrap());
    assert_eq!(search(&conn, "test", None, None, None, Some(0)).unwrap(), "");
}

#[test]
fn search_excludes_rows_at_the_oldest_bound() {
    let conn = get_connection();
    log_message(&conn, "test", entry(100, "chat", "a", "A", "at-bound")).unwrap();
    log_message(&conn, "test", entry(101, "chat", "a", "A", "after-bound")).unwrap();
    let html = search(&conn, "test", None, Some(100), None, None).unwrap();
    assert!(!html.contains("at-bound"));
    assert!(html.contains("after-bound"));
    // the default bound is 0, itself excluded
    log_message(&conn, "test", entry(0, "chat", "a", "A", "epoch")).unwrap();
    let all = search(&conn, "test", None, None, None, None).unwrap();
    assert!(!all.contains("epoch"));
    assert!(all.contains("at-bound"));
}

#[test]
fn search_escapes_the_body() {
    let conn = get_connection();
    log_message(&conn, "test", entry(1602131140, "chat", "a", "&Admin<", "<b>1 & 2</b>")).unwrap();
    let html = search(&conn, "test", None, None, None, None).unwrap();
    assert_eq!(html, "<details style=\"margin-left: 5px;\"><summary><b> 8-Oct-2020</b></summary><div style=\"margin-left: 10px;\"><small>[04:25:40] </small><small>&amp;</small><b>Admin&lt;</b>: &lt;b&gt;1 &amp; 2&lt;/b&gt;</div></details>");
}

#[test]
fn storage_failure_is_reported() {
    let conn = Connection::open_in_memory().unwrap();
    assert!(log_message(&conn, "test", entry(1, "chat", "a", "A", "x")).is_err());
    assert!(search(&conn, "test", None, None, None, None).is_err());
    assert!(get_linecount(&conn, "a", "test", None).is_err());
    assert!(get_topusers(&conn, "test", None, None).is_err());
    assert!(get_topusers_html(&conn, "test", None, None).is_err());
    let message = search(&conn, "test", None, None, None, None).unwrap_err().message;
    assert!(message.contains("logs"));
}

#[test]
fn unreadable_row_fails_the_search() {
    let conn = get_connection();
    log_message(&conn, "test", entry(1602131140, "chat", "a", "A", "fine")).unwrap();
    conn.execute(
        "INSERT INTO logs (timestamp, userid, username, type, roomid, body) VALUES (5, 'a', NULL, 'chat', 'test', 'x')",
        [],
    )
    .unwrap();
    assert!(search(&conn, "test", None, None, None, None).is_err());
}

#[test]
fn linecount_of_unknown_user_is_zero() {
    let conn = get_connection();
    add_test_data(&conn, unix_time() as i32);
    assert_eq!(get_linecount(&conn, "nobody", "test", None), Ok(0));
    assert_eq!(get_linecount(&conn, "annika", "elsewhere", None), Ok(0));
    assert_eq!(get_linecount(&conn, "annika", "test", Some(0)), Ok(0));
}

#[test]
fn topusers_agree_with_linecounts() {
    let conn = get_connection();
    add_test_data(&conn, unix_time() as i32);
    let users = get_topusers(&conn, "test", None, None).unwrap();
    assert_eq!(users.len(), 2);
    assert_eq!(users[0].userid, "annika");
    assert_eq!(users[1].userid, "heartofetheria");
    for user in users.iter() {
        assert_eq!(get_linecount(&conn, &user.userid, "test", None), Ok(user.lines));
    }
    assert_eq!(get_topusers(&conn, "test", None, Some(0)).unwrap().len(), 0);
    assert_eq!(get_topusers(&conn, "test", None, Some(5)).unwrap().len(), 2);
}

#[test]
fn topusers_break_ties_by_identifier() {
    let conn = get_connection();
    let now = unix_time() as i32;
    log_message(&conn, "test", entry(now, "chat", "zed", "Zed", "1")).unwrap();
    log_message(&conn, "test", entry(now, "chat", "amy", "Amy", "1")).unwrap();
    log_message(&conn, "test", entry(now, "chat", "kim", "Kim", "1")).unwrap();
    log_message(&conn, "test", entry(now, "chat", "kim", "Kim", "2")).unwrap();
    let users = get_topusers(&conn, "test", None, Some(2)).unwrap();
    assert_eq!(users.len(), 2);
    assert_eq!((users[0].userid.as_str(), users[0].lines), ("kim", 2));
    assert_eq!((users[1].userid.as_str(), users[1].lines), ("amy", 1));
    let html = get_topusers_html(&conn, "test", None, Some(2)).unwrap();
    assert_eq!(html, "<details><summary>Top users in the room test</summary><ul><li><strong>kim</strong> — 2 lines</li><li><strong>amy</strong> — 1 line</li></ul></details>");
}

#[test]
fn search_without_a_limit_stops_at_a_thousand() {
    let conn = get_connection();
    for i in 0..1005 {
        log_message(&conn, "test", entry(1000 + i, "chat", "a", "A", "x")).unwrap();
    }
    let html = search(&conn, "test", None, None, None, None).unwrap();
    assert_eq!(html.matches("<small>[").count(), 1000);
    let all = search(&conn, "test", None, None, None, Some(-1)).unwrap();
    assert_eq!(all.matches("<small>[").count(), 1005);
}

#[test]
fn rows_of_another_room_fail_the_search() {
    let conn = Connection::open_in_memory().unwrap();
    conn.execute_batch(
        "CREATE TABLE logs (
            log_id INTEGER NOT NULL PRIMARY KEY,
            timestamp INTEGER NOT NULL,
            userid TEXT COLLATE NOCASE,
            username TEXT,
            type TEXT NOT NULL,
            roomid TEXT COLLATE NOCASE,
            body TEXT
        );",
    )
    .unwrap();
    log_message(&conn, "Test", entry(1602131140, "chat", "Annika", "@Annika", "hi")).unwrap();
    assert!(search(&conn, "Test", Some("Annika"), None, None, None).is_ok());
    let by_room = search(&conn, "test", None, None, None, None);
    assert_eq!(by_room.unwrap_err().message, "the rows returned do not answer the search");
    let by_user = search(&conn, "Test", Some("annika"), None, None, None);
    assert_eq!(by_user.unwrap_err().message, "the rows returned do not answer the search");
}

fn found(timestamp: i32, userid: &str, username: &str, body: &str) -> LogRow {
    LogRow {
        timestamp,
        userid: Some(String::from(userid)),
        username: String::from(username),
        roomid: Some(String::from("test")),
        body: String::from(body),
    }
}

fn counted(userid: &str, lines: i32) -> UserCount {
    UserCount { userid: String::from(userid), lines }
}

#[test]
fn insertion_succeeds_where_the_store_did() {
    assert_eq!(insert_result(Ok(1)), Ok(()));
    assert_eq!(insert_result(Ok(0)), Ok(()));
    let failed = insert_result(Err(rusqlite::Error::QueryReturnedNoRows));
    assert_eq!(failed.unwrap_err().message, rusqlite::Error::QueryReturnedNoRows.to_string());
    assert!(insert_result(Err(rusqlite::Error::InvalidQuery)).is_err());
}

#[test]
fn search_settles_on_what_the_store_returned() {
    let rows = vec![
        found(1602131140, "annika", "@Annika", "a < b"),
        found(1600511140, "annika", "@Annika", "old"),
    ];
    let html = search_result(Ok(rows.clone()), "test", Some("annika"), None, Some(2)).unwrap();
    assert_eq!(html, "<details style=\"margin-left: 5px;\"><summary><b> 8-Oct-2020</b></summary><div style=\"margin-left: 10px;\"><small>[04:25:40] </small><small>@</small><b>Annika</b>: a &lt; b</div></details><details style=\"margin-left: 5px;\"><summary><b>19-Sep-2020</b></summary><div style=\"margin-left: 10px;\"><small>[10:25:40] </small><small>@</small><b>Annika</b>: old</div></details>");
    assert_eq!(search_result(Ok(Vec::new()), "test", None, None, None), Ok(String::new()));
    let refused = StorageError { message: String::from("the rows returned do not answer the search") };
    assert_eq!(search_result(Ok(rows.clone()), "test", None, None, Some(1)), Err(refused.clone()));
    assert_eq!(search_result(Ok(rows.clone()), "test", Some("bob"), None, None), Err(refused.clone()));
    assert_eq!(search_result(Ok(rows.clone()), "other", None, None, None), Err(refused.clone()));
    assert_eq!(search_result(Ok(rows.clone()), "test", None, Some(1600511140), None), Err(refused.clone()));
    let mut backwards = rows.clone();
    backwards.reverse();
    assert_eq!(search_result(Ok(backwards), "test", None, None, None), Err(refused));
    let failed = search_result(Err(rusqlite::Error::InvalidQuery), "test", None, None, None);
    assert_eq!(failed.unwrap_err().message, rusqlite::Error::InvalidQuery.to_string());
}

#[test]
fn line_count_settles_on_what_the_store_returned() {
    assert_eq!(linecount_result(Ok(0)), Ok(0));
    assert_eq!(linecount_result(Ok(3)), Ok(3));
    assert_eq!(linecount_result(Ok(i32::MAX)), Ok(i32::MAX));
    let negative = StorageError { message: String::from("the count returned is negative") };
    assert_eq!(linecount_result(Ok(-1)), Err(negative.clone()));
    assert_eq!(linecount_result(Ok(i32::MIN)), Err(negative));
    let failed = linecount_result(Err(rusqlite::Error::QueryReturnedNoRows));
    assert_eq!(failed.unwrap_err().message, rusqlite::Error::QueryReturnedNoRows.to_string());
}

#[test]
fn ranking_settles_on_what_the_store_returned() {
    let listed = vec![counted("amy", 1), counted("kim", 2), counted("zed", 1)];
    assert_eq!(
        topusers_result(Ok(listed.clone()), None),
        Ok(vec![counted("kim", 2), counted("amy", 1), counted("zed", 1)])
    );
    assert_eq!(
        topusers_result(Ok(listed.clone()), Some(2)),
        Ok(vec![counted("kim", 2), counted("amy", 1)])
    );
    assert_eq!(topusers_result(Ok(listed.clone()), Some(0)), Ok(Vec::new()));
    assert_eq!(topusers_result(Ok(Vec::new()), Some(3)), Ok(Vec::new()));
    let twice = StorageError { message: String::from("a user is listed more than once") };
    let repeated = vec![counted("amy", 1), counted("kim", 2), counted("amy", 5)];
    assert_eq!(topusers_result(Ok(repeated.clone()), None), Err(twice.clone()));
    assert_eq!(topusers_result(Ok(repeated), Some(1)), Err(twice));
    let failed = topusers_result(Err(rusqlite::Error::InvalidQuery), None);
    assert_eq!(failed.unwrap_err().message, rusqlite::Error::InvalidQuery.to_string());
}

#[test]
fn ranking_markup_settles_on_the_ranking() {
    let ranked = vec![counted("kim", 2), counted("amy", 1)];
    assert_eq!(
        topusers_html_result("test", Ok(ranked)),
        Ok(String::from("<details><summary>Top users in the room test</summary><ul><li><strong>kim</strong> — 2 lines</li><li><strong>amy</strong> — 1 line</li></ul></details>"))
    );
    let failure = StorageError { message: String::from("no such table: logs") };
    assert_eq!(topusers_html_result("test", Err(failure.clone())), Err(failure));
}
