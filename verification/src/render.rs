//! Markup for search results and for the ranking of the most active users.

use crate::escape::{escape_text, escaped};
use crate::ranking::{user_views, UserCount, UserCountView};
use vstd::prelude::*;

verus! {

/// One message, ready to be shown: the calendar day and the time of day are
/// already text.
#[derive(Debug, Clone, PartialEq, Eq)]
pub struct DisplayRow {
    pub day: String,
    pub clock: String,
    pub username: String,
    pub body: String,
}

/// A message ready to be shown, as a mathematical value.
pub struct DisplayRowView {
    pub day: Seq<char>,
    pub clock: Seq<char>,
    pub username: Seq<char>,
    pub body: Seq<char>,
}

impl View for DisplayRow {
    type V = DisplayRowView;

    open spec fn view(&self) -> DisplayRowView {
        DisplayRowView {
            day: self.day@,
            clock: self.clock@,
            username: self.username@,
            body: self.body@,
        }
    }
}

/// The values of a list of rows.
pub open spec fn row_views(rows: Seq<DisplayRow>) -> Seq<DisplayRowView> {
    rows.map_values(|row: DisplayRow| row@)
}

/// The characters that mark a permission level at the start of a display name.
pub open spec fn is_rank_symbol(c: char) -> bool {
    c == '+' || c == '^' || c == '%' || c == '@' || c == '*' || c == '#' || c == '&' || c == '~'
}

/// Whether a display name starts with a rank symbol.
pub open spec fn has_rank(name: Seq<char>) -> bool {
    name.len() > 0 && is_rank_symbol(name[0])
}

/// A display name as markup: a leading rank symbol stands alone in a small
/// span, escaped, and the escaped remainder is bold; a name without a rank
/// symbol is bold as a whole.
pub open spec fn username_markup(name: Seq<char>) -> Seq<char> {
    if has_rank(name) {
        "<small>"@ + escaped(name.subrange(0, 1)) + "</small><b>"@ + escaped(
            name.subrange(1, name.len() as int),
        ) + "</b>"@
    } else {
        "<b>"@ + name + "</b>"@
    }
}

/// One message line: the time of day in a small span, the name, a colon and
/// the escaped body.
pub open spec fn message_markup(clock: Seq<char>, username: Seq<char>, body: Seq<char>) -> Seq<
    char,
> {
    "<small>["@ + escaped(clock) + "] </small>"@ + username_markup(username) + ": "@ + escaped(body)
}

/// The opening of a collapsible block titled with a calendar day.
pub open spec fn bucket_open(day: Seq<char>) -> Seq<char> {
    "<details style=\"margin-left: 5px;\"><summary><b>"@ + day
        + "</b></summary><div style=\"margin-left: 10px;\">"@
}

/// The closing of a collapsible day block.
pub open spec fn bucket_close() -> Seq<char> {
    "</div></details>"@
}

/// A row opens a new day block when it is the first row or its day differs
/// from the day of the row before it.
pub open spec fn opens_bucket(rows: Seq<DisplayRowView>, i: int) -> bool {
    i == 0 || rows[i].day != rows[i - 1].day
}

/// What row `i` contributes: where it opens a block, the closing of the block
/// before it (if there is one) and the new opening; then its message line.
pub open spec fn row_markup(rows: Seq<DisplayRowView>, i: int) -> Seq<char> {
    let line = message_markup(rows[i].clock, rows[i].username, rows[i].body);
    if !opens_bucket(rows, i) {
        line
    } else if i == 0 {
        bucket_open(rows[i].day) + line
    } else {
        bucket_close() + bucket_open(rows[i].day) + line
    }
}

/// The markup of the first `n` rows, the last block still open.
pub open spec fn rows_markup(rows: Seq<DisplayRowView>, n: int) -> Seq<char>
    decreases n,
{
    if n <= 0 {
        Seq::empty()
    } else {
        rows_markup(rows, n - 1) + row_markup(rows, n - 1)
    }
}

/// The whole rendering: nothing for no rows, else all rows and the closing of
/// the last block.
pub open spec fn log_markup(rows: Seq<DisplayRowView>) -> Seq<char> {
    if rows.len() == 0 {
        Seq::empty()
    } else {
        rows_markup(rows, rows.len() as int) + bucket_close()
    }
}

/// Tells whether `c` is a rank symbol.
pub fn rank_symbol(c: char) -> (r: bool)
    ensures
        r == is_rank_symbol(c),
{
    c == '+' || c == '^' || c == '%' || c == '@' || c == '*' || c == '#' || c == '&' || c == '~'
}

/// Formats a display name for a message line.
pub fn format_username(name: &str) -> (r: String)
    ensures
        r@ == username_markup(name@),
{
    let n = name.unicode_len();
    if n > 0 && rank_symbol(name.get_char(0)) {
        let symbol = escape_text(name.substring_char(0, 1));
        let rest = escape_text(name.substring_char(1, n));
        let mut out = String::from_str("<small>");
        out.append(symbol.as_str());
        out.append("</small><b>");
        out.append(rest.as_str());
        out.append("</b>");
        out
    } else {
        let mut out = String::from_str("<b>");
        out.append(name);
        out.append("</b>");
        out
    }
}

/// Formats one message line.
pub fn format_message(clock: &str, username: &str, body: &str) -> (r: String)
    ensures
        r@ == message_markup(clock@, username@, body@),
{
    let stamp = escape_text(clock);
    let name = format_username(username);
    let text = escape_text(body);
    let mut out = String::from_str("<small>[");
    out.append(stamp.as_str());
    out.append("] </small>");
    out.append(name.as_str());
    out.append(": ");
    out.append(text.as_str());
    out
}

/// Renders rows, given newest first, as one collapsible block per run of rows
/// that share a calendar day.
pub fn render_rows(rows: &Vec<DisplayRow>) -> (html: String)
    ensures
        html@ == log_markup(row_views(rows@)),
{
    let ghost views = row_views(rows@);
    let mut html = String::new();
    let mut i: usize = 0;
    while i < rows.len()
        invariant
            i <= rows.len(),
            views == row_views(rows@),
            html@ == rows_markup(views, i as int),
        decreases rows.len() - i,
    {
        let ghost before = html@;
        let line = format_message(rows[i].clock.as_str(), rows[i].username.as_str(), rows[i].body.as_str());
        if i == 0 {
            html.append("<details style=\"margin-left: 5px;\"><summary><b>");
            html.append(rows[i].day.as_str());
            html.append("</b></summary><div style=\"margin-left: 10px;\">");
        } else if rows[i].day != rows[i - 1].day {
            html.append("</div></details>");
            html.append("<details style=\"margin-left: 5px;\"><summary><b>");
            html.append(rows[i].day.as_str());
            html.append("</b></summary><div style=\"margin-left: 10px;\">");
        }
        html.append(line.as_str());
        assert(views[i as int] == rows@[i as int]@);
        assert(i > 0 ==> views[i - 1] == rows@[i - 1]@);
        assert(html@ =~= before + row_markup(views, i as int));
        i += 1;
    }
    if rows.len() > 0 {
        html.append("</div></details>");
    }
    html
}

/// The decimal digits of a natural number.
pub open spec fn decimal(n: nat) -> Seq<char>
    decreases n,
{
    if n < 10 {
        seq![digit_char(n)]
    } else {
        decimal(n / 10) + seq![digit_char(n % 10)]
    }
}

/// The character of a single decimal digit.
pub open spec fn digit_char(d: nat) -> char {
    if d == 0 {
        '0'
    } else if d == 1 {
        '1'
    } else if d == 2 {
        '2'
    } else if d == 3 {
        '3'
    } else if d == 4 {
        '4'
    } else if d == 5 {
        '5'
    } else if d == 6 {
        '6'
    } else if d == 7 {
        '7'
    } else if d == 8 {
        '8'
    } else {
        '9'
    }
}

/// A line count as text: decimal, with a minus sign where it is negative.
pub open spec fn count_text(n: int) -> Seq<char> {
    if n < 0 {
        seq!['-'] + decimal((-n) as nat)
    } else {
        decimal(n as nat)
    }
}

/// One entry of the ranking: the user in bold, a dash, the count, and
/// "line" for exactly one line, "lines" otherwise.
pub open spec fn user_entry_markup(userid: Seq<char>, lines: int) -> Seq<char> {
    "<li><strong>"@ + userid + "</strong> — "@ + count_text(lines) + (if lines == 1 {
        " line</li>"@
    } else {
        " lines</li>"@
    })
}

/// The entries of the first `n` users, in order.
pub open spec fn user_entries_markup(users: Seq<UserCountView>, n: int) -> Seq<char>
    decreases n,
{
    if n <= 0 {
        Seq::empty()
    } else {
        user_entries_markup(users, n - 1) + user_entry_markup(users[n - 1].userid, users[n - 1].lines)
    }
}

/// The ranking as a collapsible block titled with the room.
pub open spec fn top_users_markup(room_id: Seq<char>, users: Seq<UserCountView>) -> Seq<char> {
    "<details><summary>Top users in the room "@ + room_id + "</summary><ul>"@
        + user_entries_markup(users, users.len() as int) + "</ul></details>"@
}

fn digit_text(d: u64) -> (r: &'static str)
    requires
        d < 10,
    ensures
        r@ == seq![digit_char(d as nat)],
{
    proof {
        reveal_strlit("0");
        reveal_strlit("1");
        reveal_strlit("2");
        reveal_strlit("3");
        reveal_strlit("4");
        reveal_strlit("5");
        reveal_strlit("6");
        reveal_strlit("7");
        reveal_strlit("8");
        reveal_strlit("9");
    }
    let r = if d == 0 {
        "0"
    } else if d == 1 {
        "1"
    } else if d == 2 {
        "2"
    } else if d == 3 {
        "3"
    } else if d == 4 {
        "4"
    } else if d == 5 {
        "5"
    } else if d == 6 {
        "6"
    } else if d == 7 {
        "7"
    } else if d == 8 {
        "8"
    } else {
        "9"
    };
    assert(r@ =~= seq![digit_char(d as nat)]);
    r
}

fn format_decimal(n: u64) -> (r: String)
    ensures
        r@ == decimal(n as nat),
    decreases n,
{
    if n < 10 {
        String::from_str(digit_text(n))
    } else {
        let mut out = format_decimal(n / 10);
        out.append(digit_text(n % 10));
        out
    }
}

/// Formats a line count as decimal text.
pub fn format_count(n: i32) -> (r: String)
    ensures
        r@ == count_text(n as int),
{
    if n < 0 {
        let magnitude: u64 = (-(n as i64)) as u64;
        let digits = format_decimal(magnitude);
        let mut out = String::from_str("-");
        out.append(digits.as_str());
        proof {
            reveal_strlit("-");
            assert("-"@ =~= seq!['-']);
        }
        out
    } else {
        format_decimal(n as u64)
    }
}

/// Renders the ranking of a room's users, in the order given.
pub fn render_top_users(room_id: &str, users: &Vec<UserCount>) -> (html: String)
    ensures
        html@ == top_users_markup(room_id@, user_views(users@)),
{
    let ghost views = user_views(users@);
    let mut html = String::from_str("<details><summary>Top users in the room ");
    html.append(room_id);
    html.append("</summary><ul>");
    let ghost head = html@;
    let mut i: usize = 0;
    while i < users.len()
        invariant
            i <= users.len(),
            views == user_views(users@),
            html@ == head + user_entries_markup(views, i as int),
        decreases users.len() - i,
    {
        let ghost before = html@;
        let count = format_count(users[i].lines);
        html.append("<li><strong>");
        html.append(users[i].userid.as_str());
        html.append("</strong> — ");
        html.append(count.as_str());
        if users[i].lines == 1 {
            html.append(" line</li>");
        } else {
            html.append(" lines</li>");
        }
        assert(views[i as int] == users@[i as int]@);
        assert(html@ =~= before + user_entry_markup(views[i as int].userid, views[i as int].lines));
        assert(html@ =~= head + user_entries_markup(views, i + 1));
        i += 1;
    }
    html.append("</ul></details>");
    html
}

} // verus!
