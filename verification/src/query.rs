//! The search statement and its arguments.

use vstd::prelude::*;

verus! {

/// A value bound to a placeholder of a statement.
#[derive(Debug, Clone, PartialEq, Eq)]
pub enum SqlParameter {
    Number(i64),
    Text(String),
    Null,
}

/// What a bound value is.
pub enum ParamValue {
    Number(int),
    Text(Seq<char>),
    Null,
}

impl View for SqlParameter {
    type V = ParamValue;

    open spec fn view(&self) -> ParamValue {
        match self {
            SqlParameter::Number(n) => ParamValue::Number(*n as int),
            SqlParameter::Text(s) => ParamValue::Text(s@),
            SqlParameter::Null => ParamValue::Null,
        }
    }
}

/// A statement with the values for its placeholders, in order.
#[derive(Debug, Clone, PartialEq, Eq)]
pub struct SearchQuery {
    pub sql: String,
    pub args: Vec<SqlParameter>,
}

/// The most rows a search returns where the caller names no limit.
pub const DEFAULT_MAX_MESSAGES: i32 = 1000;

/// The lower-case form of a text, as `str::to_lowercase` gives it.
pub uninterp spec fn lowercase_of(text: Seq<char>) -> Seq<char>;

/// Trusted: calls `str::to_lowercase`. The contract only names the result.
#[verifier::external_body]
fn lowercase(text: &str) -> (r: String)
    ensures
        r@ == lowercase_of(text@),
{
    text.to_lowercase()
}

/// The values of a list of arguments.
pub open spec fn param_values(args: Seq<SqlParameter>) -> Seq<ParamValue> {
    args.map_values(|p: SqlParameter| p@)
}

/// The keywords to match: none where no list is given.
pub open spec fn keyword_list(keywords: Option<Vec<&str>>) -> Seq<&str> {
    match keywords {
        Some(words) => words@,
        None => Seq::empty(),
    }
}

/// One substring condition per keyword.
pub open spec fn keyword_clauses(n: int) -> Seq<char>
    decreases n,
{
    if n <= 0 {
        Seq::empty()
    } else {
        keyword_clauses(n - 1) + " AND lower(body) LIKE '%' || ? || '%'"@
    }
}

/// The first `n` keywords as arguments, each in lower case.
pub open spec fn keyword_args(keywords: Seq<&str>, n: int) -> Seq<ParamValue>
    decreases n,
{
    if n <= 0 {
        Seq::empty()
    } else {
        keyword_args(keywords, n - 1).push(ParamValue::Text(lowercase_of(keywords[n - 1]@)))
    }
}

/// The condition on the sender, where one is asked for.
pub open spec fn user_clause(user_id: Option<&str>) -> Seq<char> {
    match user_id {
        Some(_) => " AND userid = ?"@,
        None => Seq::empty(),
    }
}

/// The argument for the condition on the sender.
pub open spec fn user_args(user_id: Option<&str>) -> Seq<ParamValue> {
    match user_id {
        Some(id) => seq![ParamValue::Text(id@)],
        None => Seq::empty(),
    }
}

/// The timestamp that rows must exceed to be found: 0 where none is given.
pub open spec fn search_bound(oldest: Option<i32>) -> int {
    match oldest {
        Some(t) => t as int,
        None => 0,
    }
}

/// The number of rows asked for: 1000 where none is given.
pub open spec fn search_limit(max_messages: Option<i32>) -> int {
    match max_messages {
        Some(n) => n as int,
        None => 1000,
    }
}

/// The search statement: rows of one room, optionally of one sender, that
/// contain every keyword and are newer than a bound, newest first, up to a
/// limit. Rows of one timestamp come in the order in which they were stored.
pub open spec fn search_sql(user_id: Option<&str>, n_keywords: int) -> Seq<char> {
    "SELECT * FROM logs WHERE roomid = ?"@ + user_clause(user_id) + keyword_clauses(n_keywords)
        + " AND timestamp > ? ORDER BY timestamp DESC, log_id ASC LIMIT ?"@
}

/// The arguments of the search statement: the room, the sender if any, the
/// keywords in lower case, the bound (0 by default) and the limit (1000 by
/// default).
pub open spec fn search_args(
    room_id: &str,
    user_id: Option<&str>,
    oldest: Option<i32>,
    keywords: Seq<&str>,
    max_messages: Option<i32>,
) -> Seq<ParamValue> {
    seq![ParamValue::Text(room_id@)] + user_args(user_id) + keyword_args(
        keywords,
        keywords.len() as int,
    ) + seq![
        ParamValue::Number(search_bound(oldest)),
        ParamValue::Number(search_limit(max_messages)),
    ]
}

/// Builds the search statement and its arguments from the filters.
pub fn build_search(
    room_id: &str,
    user_id: Option<&str>,
    oldest: Option<i32>,
    keywords: Option<Vec<&str>>,
    max_messages: Option<i32>,
) -> (q: SearchQuery)
    ensures
        q.sql@ == search_sql(user_id, keyword_list(keywords).len() as int),
        param_values(q.args@) == search_args(
            room_id,
            user_id,
            oldest,
            keyword_list(keywords),
            max_messages,
        ),
{
    let ghost wanted = keyword_list(keywords);
    let words: Vec<&str> = match keywords {
        Some(words) => words,
        None => Vec::new(),
    };
    assert(words@ =~= wanted);
    let mut sql = String::from_str("SELECT * FROM logs WHERE roomid = ?");
    let mut args: Vec<SqlParameter> = Vec::new();
    args.push(SqlParameter::Text(String::from_str(room_id)));
    if let Some(id) = user_id {
        sql.append(" AND userid = ?");
        args.push(SqlParameter::Text(String::from_str(id)));
    }
    let ghost sql_head = sql@;
    let ghost args_head = param_values(args@);
    assert(sql_head =~= "SELECT * FROM logs WHERE roomid = ?"@ + user_clause(user_id));
    assert(args_head =~= seq![ParamValue::Text(room_id@)] + user_args(user_id));
    let mut i: usize = 0;
    while i < words.len()
        invariant
            i <= words.len(),
            sql@ == sql_head + keyword_clauses(i as int),
            param_values(args@) == args_head + keyword_args(words@, i as int),
        decreases words.len() - i,
    {
        let ghost sql_before = sql@;
        let ghost args_before = args@;
        sql.append(" AND lower(body) LIKE '%' || ? || '%'");
        args.push(SqlParameter::Text(lowercase(words[i])));
        assert(sql@ =~= sql_head + keyword_clauses(i + 1));
        assert(param_values(args@) =~= param_values(args_before).push(
            ParamValue::Text(lowercase_of(words@[i as int]@)),
        ));
        assert(param_values(args@) =~= args_head + keyword_args(words@, i + 1));
        i += 1;
    }
    let ghost args_mid = args@;
    sql.append(" AND timestamp > ? ORDER BY timestamp DESC, log_id ASC LIMIT ?");
    let bound: i32 = match oldest {
        Some(t) => t,
        None => 0,
    };
    let limit: i32 = match max_messages {
        Some(n) => n,
        None => DEFAULT_MAX_MESSAGES,
    };
    args.push(SqlParameter::Number(bound as i64));
    args.push(SqlParameter::Number(limit as i64));
    assert(sql@ =~= search_sql(user_id, words@.len() as int));
    assert(param_values(args@) =~= param_values(args_mid) + seq![
        ParamValue::Number(bound as int),
        ParamValue::Number(limit as int),
    ]);
    assert(param_values(args@) =~= search_args(room_id, user_id, oldest, words@, max_messages));
    SearchQuery { sql, args }
}

} // verus!
