//! The statements that the store sends to the database: the requests that
//! carry them, and what each statement means for the settings table.
//!
//! The requests are made by verified functions, so what the store sends is
//! fixed here. The meaning is a model: it follows what SQLite documents of
//! these statements on a table made by `CREATE_TABLE`, for text without an
//! embedded NUL character, in a database that nothing else writes to. It
//! is what the laws of the store are proved from; no function of the store
//! claims it of a database file.

use vstd::prelude::*;
use crate::table::{lists_exactly, Pair, Table, Text};

verus! {

/// Creates the settings table unless it exists.
pub const CREATE_TABLE: &'static str =
    "CREATE TABLE IF NOT EXISTS settings (key TEXT PRIMARY KEY, value TEXT)";

/// Sets a key to a value, replacing the row that the key may have.
pub const UPSERT: &'static str = "INSERT OR REPLACE INTO settings (key, value) VALUES (?1, ?2)";

/// Adds a row for a key that has none.
pub const INSERT: &'static str = "INSERT INTO settings (key, value) VALUES (?1, ?2)";

/// Reads the value of one key.
pub const SELECT_ONE: &'static str = "SELECT value FROM settings WHERE key = ?1";

/// Reads every row.
pub const SELECT_ALL: &'static str = "SELECT key, value FROM settings";

/// Replaces the value of a key that has a row. The value is the first
/// argument, the key the second.
pub const UPDATE: &'static str = "UPDATE settings SET value = ?1 WHERE key = ?2";

/// Removes the row of one key.
pub const DELETE_ONE: &'static str = "DELETE FROM settings WHERE key = ?1";

/// Removes every row.
pub const DELETE_ALL: &'static str = "DELETE FROM settings";

/// A request that was sent, as it is recorded: the text of the statement,
/// then its arguments.
pub type Sent = (Text, Seq<Text>);

/// One statement as it is sent: its text, and the arguments for its
/// parameters in their order.
#[derive(Debug, PartialEq, Eq)]
pub struct Request {
    /// The text of the statement.
    pub sql: &'static str,
    /// The arguments, the first for `?1`.
    pub args: Vec<String>,
}

impl Request {
    /// The text of the statement.
    pub open spec fn text(self) -> Text {
        self.sql@
    }

    /// The arguments, each as text.
    pub open spec fn arguments(self) -> Seq<Text> {
        self.args.deep_view()
    }

    /// The request as it is recorded once sent: its text and its arguments.
    pub open spec fn as_sent(self) -> Sent {
        (self.text(), self.arguments())
    }

    /// The request that creates the table.
    pub fn create_table() -> (request: Request)
        ensures
            request.text() == CREATE_TABLE@,
            request.arguments() == Seq::<Text>::empty(),
    {
        Request { sql: CREATE_TABLE, args: Vec::new() }
    }

    /// The request that sets `key` to `value`.
    pub fn upsert(key: String, value: String) -> (request: Request)
        ensures
            request.text() == UPSERT@,
            request.arguments() == seq![key@, value@],
    {
        let mut args: Vec<String> = Vec::new();
        args.push(key);
        args.push(value);
        Request { sql: UPSERT, args }
    }

    /// The request that adds a row for `key`.
    pub fn insert(key: String, value: String) -> (request: Request)
        ensures
            request.text() == INSERT@,
            request.arguments() == seq![key@, value@],
    {
        let mut args: Vec<String> = Vec::new();
        args.push(key);
        args.push(value);
        Request { sql: INSERT, args }
    }

    /// The request that reads the value of `key`.
    pub fn select_one(key: String) -> (request: Request)
        ensures
            request.text() == SELECT_ONE@,
            request.arguments() == seq![key@],
    {
        let mut args: Vec<String> = Vec::new();
        args.push(key);
        Request { sql: SELECT_ONE, args }
    }

    /// The request that reads every row.
    pub fn select_all() -> (request: Request)
        ensures
            request.text() == SELECT_ALL@,
            request.arguments() == Seq::<Text>::empty(),
    {
        Request { sql: SELECT_ALL, args: Vec::new() }
    }

    /// The request that replaces the value of `key`. The value goes first.
    pub fn update(key: String, value: String) -> (request: Request)
        ensures
            request.text() == UPDATE@,
            request.arguments() == seq![value@, key@],
    {
        let mut args: Vec<String> = Vec::new();
        args.push(value);
        args.push(key);
        Request { sql: UPDATE, args }
    }

    /// The request that removes the row of `key`.
    pub fn delete_one(key: String) -> (request: Request)
        ensures
            request.text() == DELETE_ONE@,
            request.arguments() == seq![key@],
    {
        let mut args: Vec<String> = Vec::new();
        args.push(key);
        Request { sql: DELETE_ONE, args }
    }

    /// The request that removes every row.
    pub fn delete_all() -> (request: Request)
        ensures
            request.text() == DELETE_ALL@,
            request.arguments() == Seq::<Text>::empty(),
    {
        Request { sql: DELETE_ALL, args: Vec::new() }
    }
}

/// How a statement that writes may end.
pub enum Outcome {
    /// It took effect.
    Done,
    /// The table refused it: it would have broken the uniqueness of the key.
    Refused,
    /// The database could not run it: the table is missing, the file cannot
    /// be read or written, or the like.
    Fault,
}

/// Creating the table: it exists afterwards; a table that was there keeps
/// its rows, a table just made has none. Creating is never refused. A fault
/// changes nothing.
pub open spec fn created(before: Table, outcome: Outcome, after: Table) -> bool {
    match outcome {
        Outcome::Done => after == before.once_created(),
        Outcome::Refused => false,
        Outcome::Fault => after == before,
    }
}

/// Saving `key` with `value`: needs the table; the key then has exactly this
/// value and the other rows are untouched. Saving is never refused. A fault
/// changes nothing.
pub open spec fn saved(before: Table, key: Text, value: Text, outcome: Outcome, after: Table) -> bool {
    match outcome {
        Outcome::Done => before.present && after == before.with_row(key, value),
        Outcome::Refused => false,
        Outcome::Fault => after == before,
    }
}

/// Adding `key` with `value`: needs the table; it takes effect only for a
/// key without a row, and is refused only for a key that has one. Refusal
/// and fault change nothing.
pub open spec fn added(before: Table, key: Text, value: Text, outcome: Outcome, after: Table) -> bool {
    match outcome {
        Outcome::Done => before.present && !before.rows.contains_key(key) && after
            == before.with_row(key, value),
        Outcome::Refused => before.present && before.rows.contains_key(key) && after == before,
        Outcome::Fault => after == before,
    }
}

/// Updating `key` to `value`: needs the table; a key without a row gets
/// none. Updating is never refused. A fault changes nothing.
pub open spec fn updated(before: Table, key: Text, value: Text, outcome: Outcome, after: Table) -> bool {
    match outcome {
        Outcome::Done => before.present && after == before.with_value(key, value),
        Outcome::Refused => false,
        Outcome::Fault => after == before,
    }
}

/// Removing `key`: needs the table; the other rows are untouched. Removing
/// is never refused. A fault changes nothing.
pub open spec fn removed(before: Table, key: Text, outcome: Outcome, after: Table) -> bool {
    match outcome {
        Outcome::Done => before.present && after == before.without_row(key),
        Outcome::Refused => false,
        Outcome::Fault => after == before,
    }
}

/// Removing every row: needs the table. It is never refused. A fault changes
/// nothing.
pub open spec fn cleared(before: Table, outcome: Outcome, after: Table) -> bool {
    match outcome {
        Outcome::Done => before.present && after == before.without_rows(),
        Outcome::Refused => false,
        Outcome::Fault => after == before,
    }
}

/// What looking up `key` answers where no fault comes between: the value
/// that the key has, or nothing where the key has no row. Either answer
/// needs the table.
pub open spec fn looked_up(table: Table, key: Text, answer: Option<Text>) -> bool {
    match answer {
        Some(value) => table.present && table.rows.contains_pair(key, value),
        None => table.present && !table.rows.contains_key(key),
    }
}

/// What listing the rows answers where no fault comes between: each row
/// once, in an open order. It needs the table.
pub open spec fn listed(table: Table, listing: Seq<Pair>) -> bool {
    table.present && lists_exactly(listing, table.rows)
}

/// What a request that writes means for the table, by its text and
/// arguments. Of any other text it says nothing.
pub open spec fn write_meaning(
    text: Text,
    arguments: Seq<Text>,
    before: Table,
    outcome: Outcome,
    after: Table,
) -> bool {
    &&& text == CREATE_TABLE@ && arguments.len() == 0 ==> created(before, outcome, after)
    &&& text == UPSERT@ && arguments.len() == 2 ==> saved(
        before,
        arguments[0],
        arguments[1],
        outcome,
        after,
    )
    &&& text == INSERT@ && arguments.len() == 2 ==> added(
        before,
        arguments[0],
        arguments[1],
        outcome,
        after,
    )
    &&& text == UPDATE@ && arguments.len() == 2 ==> updated(
        before,
        arguments[1],
        arguments[0],
        outcome,
        after,
    )
    &&& text == DELETE_ONE@ && arguments.len() == 1 ==> removed(
        before,
        arguments[0],
        outcome,
        after,
    )
    &&& text == DELETE_ALL@ && arguments.len() == 0 ==> cleared(before, outcome, after)
}

/// What a request that reads one value means, by its text and arguments.
pub open spec fn lookup_meaning(
    text: Text,
    arguments: Seq<Text>,
    table: Table,
    answer: Option<Text>,
) -> bool {
    text == SELECT_ONE@ && arguments.len() == 1 ==> looked_up(table, arguments[0], answer)
}

/// What a request that reads every row means, by its text and arguments.
pub open spec fn listing_meaning(
    text: Text,
    arguments: Seq<Text>,
    table: Table,
    listing: Seq<Pair>,
) -> bool {
    text == SELECT_ALL@ && arguments.len() == 0 ==> listed(table, listing)
}

} // verus!
