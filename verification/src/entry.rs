//! A message as it arrives and the row that is stored for it.

use vstd::prelude::*;

verus! {

/// A single message to be logged.
#[derive(Debug, Clone, PartialEq, Eq)]
pub struct LogEntry {
    /// UNIX timestamp, in seconds.
    pub time: i32,
    /// "chat" or "pm"; an entry of any other kind is not stored.
    pub kind: String,
    /// The sender's canonical identifier.
    pub sender_id: String,
    /// The sender's display name, which may start with a rank symbol.
    pub sender_name: String,
    /// The raw text of the message.
    pub body: String,
}

/// The columns of a stored row, but for the identifier that the store assigns.
#[derive(Debug, Clone, PartialEq, Eq)]
pub struct StoredRow {
    pub timestamp: i32,
    pub userid: String,
    pub username: String,
    pub kind: String,
    pub roomid: String,
    pub body: String,
}

/// A message as a mathematical value.
pub struct LogEntryView {
    pub time: i32,
    pub kind: Seq<char>,
    pub sender_id: Seq<char>,
    pub sender_name: Seq<char>,
    pub body: Seq<char>,
}

impl View for LogEntry {
    type V = LogEntryView;

    open spec fn view(&self) -> LogEntryView {
        LogEntryView {
            time: self.time,
            kind: self.kind@,
            sender_id: self.sender_id@,
            sender_name: self.sender_name@,
            body: self.body@,
        }
    }
}

/// A stored row as a mathematical value.
pub struct StoredRowView {
    pub timestamp: i32,
    pub userid: Seq<char>,
    pub username: Seq<char>,
    pub kind: Seq<char>,
    pub roomid: Seq<char>,
    pub body: Seq<char>,
}

impl View for StoredRow {
    type V = StoredRowView;

    open spec fn view(&self) -> StoredRowView {
        StoredRowView {
            timestamp: self.timestamp,
            userid: self.userid@,
            username: self.username@,
            kind: self.kind@,
            roomid: self.roomid@,
            body: self.body@,
        }
    }
}

/// The kinds of message that are stored.
pub open spec fn is_logged_kind(kind: Seq<char>) -> bool {
    kind == "chat"@ || kind == "pm"@
}

/// What is stored for a message sent in `room`: nothing where its kind is not
/// recognised, else one row that carries its fields and the room unchanged.
pub open spec fn stored_row(room: Seq<char>, message: LogEntryView) -> Option<StoredRowView> {
    if is_logged_kind(message.kind) {
        Some(
            StoredRowView {
                timestamp: message.time,
                userid: message.sender_id,
                username: message.sender_name,
                kind: message.kind,
                roomid: room,
                body: message.body,
            },
        )
    } else {
        None
    }
}

/// Tells whether messages of this kind are stored.
pub fn logged_kind(kind: &String) -> (r: bool)
    ensures
        r == is_logged_kind(kind@),
{
    let chat = String::from_str("chat");
    let pm = String::from_str("pm");
    *kind == chat || *kind == pm
}

/// Decides what is stored for a message: nothing where its kind is not
/// recognised, else one row that carries its fields and the room unchanged.
pub fn row_for(room: &str, message: LogEntry) -> (r: Option<StoredRow>)
    ensures
        match r {
            Some(row) => stored_row(room@, message@) == Some(row@),
            None => stored_row(room@, message@) is None,
        },
{
    if !logged_kind(&message.kind) {
        return None;
    }
    Some(
        StoredRow {
            timestamp: message.time,
            userid: message.sender_id,
            username: message.sender_name,
            kind: message.kind,
            roomid: String::from_str(room),
            body: message.body,
        },
    )
}

} // verus!
