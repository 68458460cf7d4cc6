//! What can go wrong with the settings store, as a closed set of kinds.

use vstd::prelude::*;

verus! {

/// The result code that SQLite gives to every constraint violation.
pub const SQLITE_CONSTRAINT: i32 = 19;

/// The kinds of failure that the store reports.
#[derive(Clone, Copy, Debug, PartialEq, Eq, Structural)]
pub enum ErrorKind {
    /// No row has the key that was asked for.
    NotFound,
    /// A row with the key exists already.
    ConstraintViolation,
    /// The data directory, the database file or the engine could not be used.
    StorageUnavailable,
    /// A stored row could not be read back as text.
    DecodeError,
}

/// The shape of an error of the database layer, as far as the store tells
/// errors apart.
#[derive(Clone, Copy, Debug, PartialEq, Eq, Structural)]
pub enum Failure {
    /// The engine refused a call; `code` is its extended result code.
    Engine { code: i32 },
    /// A column held a value of another type than the one asked for.
    ColumnType,
    /// A column's value could not be converted.
    Conversion,
    /// An integer column's value did not fit.
    OutOfRange,
    /// A text column did not hold UTF-8.
    Utf8,
    /// Anything else.
    Other,
}

/// The primary result code inside an extended one: its low eight bits.
pub open spec fn primary_code(code: i32) -> i32 {
    code & 0xff
}

impl Failure {
    /// The kind under which the store reports a failure of this shape.
    pub open spec fn kind(self) -> ErrorKind {
        match self {
            Failure::Engine { code } => if primary_code(code) == SQLITE_CONSTRAINT {
                ErrorKind::ConstraintViolation
            } else {
                ErrorKind::StorageUnavailable
            },
            Failure::ColumnType | Failure::Conversion | Failure::OutOfRange | Failure::Utf8 =>
                ErrorKind::DecodeError,
            Failure::Other => ErrorKind::StorageUnavailable,
        }
    }

    /// Computes [`Failure::kind`].
    pub fn classify(self) -> (kind: ErrorKind)
        ensures
            kind == self.kind(),
            kind != ErrorKind::NotFound,
    {
        match self {
            Failure::Engine { code } => {
                if code & 0xff == SQLITE_CONSTRAINT {
                    ErrorKind::ConstraintViolation
                } else {
                    ErrorKind::StorageUnavailable
                }
            },
            Failure::ColumnType => ErrorKind::DecodeError,
            Failure::Conversion => ErrorKind::DecodeError,
            Failure::OutOfRange => ErrorKind::DecodeError,
            Failure::Utf8 => ErrorKind::DecodeError,
            Failure::Other => ErrorKind::StorageUnavailable,
        }
    }
}

/// What the store says when a key has no row.
pub const NOT_FOUND_MESSAGE: &'static str = "Query returned no rows";

/// What the store says when the platform names no data directory.
pub const NO_DATA_DIR_MESSAGE: &'static str = "Failed to get app data directory";

/// A failure of the store: its kind, and a message for the user.
#[derive(Clone, Debug, PartialEq, Eq)]
pub struct StoreError {
    /// Which kind of failure this is.
    pub kind: ErrorKind,
    /// The message to show.
    pub message: String,
}

impl StoreError {
    /// The failure of a lookup whose key has no row.
    pub fn not_found() -> (error: StoreError)
        ensures
            error.kind == ErrorKind::NotFound,
            error.message@ == NOT_FOUND_MESSAGE@,
    {
        StoreError { kind: ErrorKind::NotFound, message: NOT_FOUND_MESSAGE.to_owned() }
    }

    /// The failure of finding where the database file belongs.
    pub fn no_data_dir() -> (error: StoreError)
        ensures
            error.kind == ErrorKind::StorageUnavailable,
            error.message@ == NO_DATA_DIR_MESSAGE@,
    {
        StoreError {
            kind: ErrorKind::StorageUnavailable,
            message: NO_DATA_DIR_MESSAGE.to_owned(),
        }
    }

    /// A failure of the database layer: the kind follows from its shape, the
    /// message is kept as it is.
    pub fn from_failure(shape: Failure, message: String) -> (error: StoreError)
        ensures
            error.kind == shape.kind(),
            error.kind != ErrorKind::NotFound,
            error.message == message,
    {
        StoreError { kind: shape.classify(), message }
    }

    /// The kind of this failure.
    pub fn kind(&self) -> (kind: ErrorKind)
        ensures
            kind == self.kind,
    {
        self.kind
    }

    /// The message of this failure.
    pub fn message(&self) -> (message: String)
        ensures
            message == self.message,
    {
        self.message.clone()
    }
}

} // verus!
