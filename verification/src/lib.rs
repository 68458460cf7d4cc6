//! Application settings kept as key-value pairs in one table of an embedded
//! SQLite database.
//!
//! [`store::SettingsStore`] is a handle on one database and offers the
//! operations on its settings table. [`statements`] fixes what each
//! operation sends and gives the meaning of each statement over a model of
//! the table ([`table::Table`]); [`laws`] proves what follows for operations
//! in sequence. [`engine`] holds the calls into the database layer,
//! [`location`] says where the database file belongs, and [`error`] names
//! the kinds of failure.

pub mod engine;
pub mod error;
pub mod laws;
pub mod location;
pub mod statements;
pub mod store;
pub mod table;

pub use crate::error::{ErrorKind, StoreError};
pub use crate::store::SettingsStore;
