//! The rows that a search reads, what makes them an answer to the search, and
//! how they are written out for display.

use crate::calendar::{clock_label, day_label, utc_clock_label, utc_day_label};
use crate::query::{search_bound, search_limit, DEFAULT_MAX_MESSAGES};
use crate::render::{log_markup, row_views, DisplayRow, DisplayRowView};
use vstd::prelude::*;

verus! {

/// What a search reads of a stored row.
#[derive(Debug, Clone, PartialEq, Eq)]
pub struct LogRow {
    pub timestamp: i32,
    pub userid: Option<String>,
    pub username: String,
    pub roomid: Option<String>,
    pub body: String,
}

/// What a search reads of a stored row, as a mathematical value.
pub struct LogRowView {
    pub timestamp: i32,
    pub userid: Option<Seq<char>>,
    pub username: Seq<char>,
    pub roomid: Option<Seq<char>>,
    pub body: Seq<char>,
}

/// The value of a text that may be absent.
pub open spec fn text_view(text: Option<String>) -> Option<Seq<char>> {
    match text {
        Some(t) => Some(t@),
        None => None,
    }
}

impl View for LogRow {
    type V = LogRowView;

    open spec fn view(&self) -> LogRowView {
        LogRowView {
            timestamp: self.timestamp,
            userid: text_view(self.userid),
            username: self.username@,
            roomid: text_view(self.roomid),
            body: self.body@,
        }
    }
}

/// The values of a list of rows.
pub open spec fn log_row_views(rows: Seq<LogRow>) -> Seq<LogRowView> {
    rows.map_values(|row: LogRow| row@)
}

/// A row with its timestamp written out in UTC as a calendar day and a time of
/// day.
pub open spec fn displayed(row: LogRowView) -> DisplayRowView {
    DisplayRowView {
        day: utc_day_label(row.timestamp),
        clock: utc_clock_label(row.timestamp),
        username: row.username,
        body: row.body,
    }
}

/// The rows of a list, each written out for display, in order.
pub open spec fn displayed_rows(rows: Seq<LogRowView>) -> Seq<DisplayRowView> {
    rows.map_values(|row: LogRowView| displayed(row))
}

/// A row that a search may find: it is of the room, of the user where one is
/// asked for, and newer than the bound.
pub open spec fn row_answers(
    row: LogRowView,
    room_id: &str,
    user_id: Option<&str>,
    oldest: Option<i32>,
) -> bool {
    &&& row.roomid == Some(room_id@)
    &&& user_id matches Some(id) ==> row.userid == Some(id@)
    &&& row.timestamp > search_bound(oldest)
}

/// Rows that can be the answer to a search: each of them may be found, they
/// come newest first, and there are no more of them than the limit, where the
/// limit is not negative (the store takes a negative limit for none).
pub open spec fn answers_search(
    rows: Seq<LogRowView>,
    room_id: &str,
    user_id: Option<&str>,
    oldest: Option<i32>,
    max_messages: Option<i32>,
) -> bool {
    &&& search_limit(max_messages) >= 0 ==> rows.len() <= search_limit(max_messages)
    &&& forall|i: int|
        0 <= i < rows.len() ==> row_answers(#[trigger] rows[i], room_id, user_id, oldest)
    &&& forall|i: int, j: int|
        0 <= i <= j < rows.len() ==> (#[trigger] rows[i]).timestamp >= (
        #[trigger] rows[j]).timestamp
}

/// The rendering of the rows that a search found, newest first.
pub open spec fn search_markup(rows: Seq<LogRowView>) -> Seq<char> {
    log_markup(displayed_rows(rows))
}

/// Writes out the timestamp of every row as a calendar day and a time of day.
pub fn display_rows(rows: &Vec<LogRow>) -> (shown: Vec<DisplayRow>)
    ensures
        row_views(shown@) == displayed_rows(log_row_views(rows@)),
{
    let mut shown: Vec<DisplayRow> = Vec::new();
    let mut i: usize = 0;
    assert(row_views(shown@) =~= displayed_rows(log_row_views(rows@).take(0)));
    while i < rows.len()
        invariant
            i <= rows.len(),
            row_views(shown@) == displayed_rows(log_row_views(rows@).take(i as int)),
        decreases rows.len() - i,
    {
        let row = &rows[i];
        let ghost before = row_views(shown@);
        let next = DisplayRow {
            day: day_label(row.timestamp),
            clock: clock_label(row.timestamp),
            username: row.username.clone(),
            body: row.body.clone(),
        };
        assert(next@ == displayed(rows@[i as int]@));
        shown.push(next);
        assert(row_views(shown@) =~= before.push(displayed(rows@[i as int]@)));
        assert(displayed_rows(log_row_views(rows@).take(i + 1)) =~= before.push(
            displayed(rows@[i as int]@),
        ));
        i += 1;
    }
    assert(log_row_views(rows@).take(rows.len() as int) =~= log_row_views(rows@));
    shown
}

/// Tells whether a text that may be absent is there and equal to `wanted`.
fn is_text(text: &Option<String>, wanted: &String) -> (r: bool)
    ensures
        r == (text_view(*text) == Some(wanted@)),
{
    match text {
        Some(t) => *t == *wanted,
        None => false,
    }
}

/// Tells whether a row may be found by a search of this room, for this user
/// and with this bound.
pub fn check_row(row: &LogRow, room_id: &str, user_id: Option<&str>, oldest: Option<i32>) -> (r:
    bool)
    ensures
        r == row_answers(row@, room_id, user_id, oldest),
{
    let bound: i32 = match oldest {
        Some(t) => t,
        None => 0,
    };
    let room = String::from_str(room_id);
    let of_user = match user_id {
        Some(id) => {
            let wanted = String::from_str(id);
            is_text(&row.userid, &wanted)
        },
        None => true,
    };
    is_text(&row.roomid, &room) && of_user && row.timestamp > bound
}

/// Tells whether rows that the store returned can be the answer to a search
/// with these filters.
pub fn check_answer(
    rows: &Vec<LogRow>,
    room_id: &str,
    user_id: Option<&str>,
    oldest: Option<i32>,
    max_messages: Option<i32>,
) -> (r: bool)
    ensures
        r == answers_search(log_row_views(rows@), room_id, user_id, oldest, max_messages),
{
    let ghost views = log_row_views(rows@);
    let limit: i32 = match max_messages {
        Some(n) => n,
        None => DEFAULT_MAX_MESSAGES,
    };
    if limit >= 0 && rows.len() > limit as usize {
        assert(views.len() > search_limit(max_messages));
        return false;
    }
    let mut i: usize = 0;
    while i < rows.len()
        invariant
            i <= rows.len(),
            views == log_row_views(rows@),
            forall|a: int|
                0 <= a < i ==> row_answers(#[trigger] views[a], room_id, user_id, oldest),
            forall|a: int, b: int|
                0 <= a <= b < i ==> (#[trigger] views[a]).timestamp >= (
                #[trigger] views[b]).timestamp,
        decreases rows.len() - i,
    {
        assert(views[i as int] == rows@[i as int]@);
        if !check_row(&rows[i], room_id, user_id, oldest) {
            return false;
        }
        if i > 0 {
            assert(views[i - 1] == rows@[i - 1]@);
            if rows[i - 1].timestamp < rows[i].timestamp {
                return false;
            }
        }
        i += 1;
    }
    true
}

} // verus!
