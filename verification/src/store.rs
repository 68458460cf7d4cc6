//! The settings store: one open database and the operations on its
//! settings table.
//!
//! Each operation makes one request, sends it, and reports what came back.
//! Which request it is, and how an answer becomes a result, is verified
//! here: an operation that writes records what it sends, and its contract
//! says what that is. Whether a request succeeds, and what the database then
//! holds, is decided by the database; what SQLite documents of it is the
//! model in [`crate::statements`], and [`crate::laws`] holds what follows
//! from that.

use vstd::prelude::*;
use rusqlite::Connection;
use std::path::PathBuf;
use crate::engine::{execute, failure_of, open_connection, query_pairs, query_value};
use crate::error::{ErrorKind, StoreError, NOT_FOUND_MESSAGE};
use crate::statements::{
    Outcome,
    Request,
    Sent,
    CREATE_TABLE,
    DELETE_ALL,
    DELETE_ONE,
    INSERT,
    UPDATE,
    UPSERT,
};
use crate::table::Text;

verus! {

/// A handle on the settings in one database. Beside the connection it
/// keeps, for proofs only, the path it was opened with and the requests it
/// has sent for writing.
pub struct SettingsStore {
    conn: Connection,
    location: Ghost<PathBuf>,
    sent: Ghost<Seq<Sent>>,
}

/// How the result of an operation that writes reads in the model: success is
/// a statement that took effect, a constraint violation one that the table
/// refused, any other failure a fault.
pub open spec fn write_outcome(r: Result<(), StoreError>) -> Outcome {
    match r {
        Ok(_) => Outcome::Done,
        Err(error) => if error.kind == ErrorKind::ConstraintViolation {
            Outcome::Refused
        } else {
            Outcome::Fault
        },
    }
}

/// What a lookup that reached the database returns: the value that was
/// found, or the not-found failure where no row answered.
pub open spec fn lookup_result(answer: Option<String>, r: Result<String, StoreError>) -> bool {
    match answer {
        Some(value) => r == Ok::<String, StoreError>(value),
        None => r matches Err(error) && error.kind == ErrorKind::NotFound && error.message@
            == NOT_FOUND_MESSAGE@,
    }
}

/// Turns the answer of a lookup into its result.
pub fn found_or_missing(answer: Option<String>) -> (r: Result<String, StoreError>)
    ensures
        lookup_result(answer, r),
{
    match answer {
        Some(value) => Ok(value),
        None => Err(StoreError::not_found()),
    }
}

/// Reports a failure of the database layer as a failure of the store.
fn database_error(error: rusqlite::Error) -> (reported: StoreError)
    ensures
        reported.kind != ErrorKind::NotFound,
{
    let shape = failure_of(&error);
    StoreError::from_failure(shape, error.to_string())
}

impl SettingsStore {
    /// Opens the database that `path` names, creating the file if there is
    /// none. The store that comes back was opened with `path` and has sent
    /// nothing yet.
    pub fn open(path: &PathBuf) -> (r: Result<SettingsStore, StoreError>)
        ensures
            r matches Ok(store) ==> store.location() == *path && store.sent() == Seq::<
                Sent,
            >::empty(),
            r matches Err(error) ==> error.kind != ErrorKind::NotFound,
    {
        match open_connection(path) {
            Ok(conn) => Ok(
                SettingsStore { conn, location: Ghost(*path), sent: Ghost(Seq::empty()) },
            ),
            Err(error) => Err(database_error(error)),
        }
    }

    /// The path that the store was opened with. No operation changes it.
    pub closed spec fn location(&self) -> PathBuf {
        self.location@
    }

    /// The requests that the store has sent for writing, the oldest first,
    /// whatever became of them.
    pub closed spec fn sent(&self) -> Seq<Sent> {
        self.sent@
    }

    /// Records a request that writes, sends it, and reports success or the
    /// failure.
    fn write(&mut self, request: Request) -> (r: Result<(), StoreError>)
        ensures
            final(self).location() == old(self).location(),
            final(self).sent() == old(self).sent().push(request.as_sent()),
            r matches Err(error) ==> error.kind != ErrorKind::NotFound,
    {
        self.sent = Ghost(self.sent@.push(request.as_sent()));
        match execute(&self.conn, request.sql, &request.args) {
            Ok(_) => Ok(()),
            Err(error) => Err(database_error(error)),
        }
    }

    /// Creates the settings table unless it exists: sends
    /// [`Request::create_table`]. In the model this is
    /// [`crate::statements::created`].
    pub fn init_db(&mut self) -> (r: Result<(), StoreError>)
        ensures
            final(self).location() == old(self).location(),
            final(self).sent() == old(self).sent().push((CREATE_TABLE@, Seq::<Text>::empty())),
            r matches Err(error) ==> error.kind != ErrorKind::NotFound,
    {
        self.write(Request::create_table())
    }

    /// Sets `key` to `value`, whether or not `key` had a row: sends
    /// [`Request::upsert`]. In the model this is
    /// [`crate::statements::saved`].
    pub fn save_settings(&mut self, key: String, value: String) -> (r: Result<(), StoreError>)
        ensures
            final(self).location() == old(self).location(),
            final(self).sent() == old(self).sent().push((UPSERT@, seq![key@, value@])),
            r matches Err(error) ==> error.kind != ErrorKind::NotFound,
    {
        self.write(Request::upsert(key, value))
    }

    /// Adds a row for `key`, which the table refuses if `key` has one: sends
    /// [`Request::insert`]. In the model this is
    /// [`crate::statements::added`].
    pub fn create_new_setting(&mut self, key: String, value: String) -> (r: Result<
        (),
        StoreError,
    >)
        ensures
            final(self).location() == old(self).location(),
            final(self).sent() == old(self).sent().push((INSERT@, seq![key@, value@])),
            r matches Err(error) ==> error.kind != ErrorKind::NotFound,
    {
        self.write(Request::insert(key, value))
    }

    /// The value of `key`: sends [`Request::select_one`] and reports an
    /// answer without a row as the not-found failure. In the model this is
    /// [`crate::statements::looked_up`].
    pub fn get_setting(&self, key: String) -> (r: Result<String, StoreError>)
        ensures
            r matches Err(error) ==> (error.kind == ErrorKind::NotFound ==> error.message@
                == NOT_FOUND_MESSAGE@),
    {
        let request = Request::select_one(key);
        match query_value(&self.conn, request.sql, &request.args) {
            Ok(answer) => found_or_missing(answer),
            Err(error) => Err(database_error(error)),
        }
    }

    /// Every row as a pair of key and value, in the order in which the
    /// database hands them out: sends [`Request::select_all`]. In the model
    /// this is [`crate::statements::listed`].
    pub fn get_all_settings(&self) -> (r: Result<Vec<(String, String)>, StoreError>)
        ensures
            r matches Err(error) ==> error.kind != ErrorKind::NotFound,
    {
        let request = Request::select_all();
        match query_pairs(&self.conn, request.sql, &request.args) {
            Ok(pairs) => Ok(pairs),
            Err(error) => Err(database_error(error)),
        }
    }

    /// Replaces the value of `key` if it has a row: sends
    /// [`Request::update`]. Where `key` has no row the database changes
    /// nothing and reports success all the same. In the model this is
    /// [`crate::statements::updated`].
    pub fn update_settings(&mut self, key: String, value: String) -> (r: Result<(), StoreError>)
        ensures
            final(self).location() == old(self).location(),
            final(self).sent() == old(self).sent().push((UPDATE@, seq![value@, key@])),
            r matches Err(error) ==> error.kind != ErrorKind::NotFound,
    {
        self.write(Request::update(key, value))
    }

    /// Removes the row of `key`, if it has one: sends
    /// [`Request::delete_one`]. In the model this is
    /// [`crate::statements::removed`].
    pub fn delete_setting(&mut self, key: String) -> (r: Result<(), StoreError>)
        ensures
            final(self).location() == old(self).location(),
            final(self).sent() == old(self).sent().push((DELETE_ONE@, seq![key@])),
            r matches Err(error) ==> error.kind != ErrorKind::NotFound,
    {
        self.write(Request::delete_one(key))
    }

    /// Removes every row: sends [`Request::delete_all`]. In the model this
    /// is [`crate::statements::cleared`].
    pub fn delete_all_settings(&mut self) -> (r: Result<(), StoreError>)
        ensures
            final(self).location() == old(self).location(),
            final(self).sent() == old(self).sent().push((DELETE_ALL@, Seq::<Text>::empty())),
            r matches Err(error) ==> error.kind != ErrorKind::NotFound,
    {
        self.write(Request::delete_all())
    }
}

} // verus!
