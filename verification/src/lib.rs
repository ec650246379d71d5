//! Chat-log persistence and retrieval: messages are appended to a `logs` table
//! and read back as day-grouped markup, per-user line counts and a ranking of
//! the most active users.
//!
//! The store is SQLite, reached through `rusqlite`. What is handed to the
//! store and what is made of its answers is verified: the row that a message
//! becomes (`entry`), the search statement and its arguments (`query`), what
//! makes rows an answer to a search (`rows`), the markup (`render`, `escape`),
//! the window of days (`clock`) and the ranking (`ranking`). The calls into
//! the store stand in `store`, the calendar text of a timestamp in
//! `calendar`.

pub mod calendar;
pub mod clock;
pub mod entry;
pub mod escape;
pub mod query;
pub mod ranking;
pub mod render;
pub mod rows;
pub mod store;

pub use clock::{timestamp_of, unix_time, window_start};
pub use entry::{row_for, LogEntry, StoredRow};
pub use query::{build_search, SearchQuery, SqlParameter};
pub use ranking::{distinct_users, lines_of, rank, top_n, UserCount};
pub use render::{format_username, render_rows, render_top_users, DisplayRow};
pub use rows::{check_answer, check_row, display_rows, LogRow};
pub use store::{
    get_linecount, get_topusers, get_topusers_html, insert_result, linecount_result, log_message,
    search, search_result, topusers_html_result, topusers_result, StorageError,
};
