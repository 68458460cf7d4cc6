//! The settings table as a mathematical object: whether it exists, and the
//! rows it holds as a map from key to value. This is a model: it says what
//! the table is taken to be, and the laws of the store are theorems about
//! it. Nothing here is claimed of a database file.

use vstd::prelude::*;

verus! {

/// A piece of text, as the sequence of its characters.
pub type Text = Seq<char>;

/// The rows of the table: each key with its value.
pub type Rows = Map<Text, Text>;

/// One row as it is listed: key first, then value.
pub type Pair = (Text, Text);

/// The state of the settings table at one moment.
pub struct Table {
    /// Whether the table has been created.
    pub present: bool,
    /// The rows, each key with its value. The key is the primary key, so a
    /// map holds what the table can hold.
    pub rows: Rows,
}

impl Table {
    /// A table holds finitely many rows, and none before it is created.
    pub open spec fn wf(self) -> bool {
        &&& self.rows.dom().finite()
        &&& !self.present ==> self.rows == Map::<Text, Text>::empty()
    }

    /// The table once it has been created: a table that was there keeps its
    /// rows, a table just made has none.
    pub open spec fn once_created(self) -> Table {
        Table {
            present: true,
            rows: if self.present {
                self.rows
            } else {
                Map::empty()
            },
        }
    }

    /// The table with `key` set to `value`, whether or not `key` had a row.
    pub open spec fn with_row(self, key: Text, value: Text) -> Table {
        Table { present: self.present, rows: self.rows.insert(key, value) }
    }

    /// The table with the value of `key` replaced, if `key` has a row; the
    /// same table otherwise.
    pub open spec fn with_value(self, key: Text, value: Text) -> Table {
        if self.rows.contains_key(key) {
            self.with_row(key, value)
        } else {
            self
        }
    }

    /// The table without the row of `key`.
    pub open spec fn without_row(self, key: Text) -> Table {
        Table { present: self.present, rows: self.rows.remove(key) }
    }

    /// The table without any row.
    pub open spec fn without_rows(self) -> Table {
        Table { present: self.present, rows: Map::empty() }
    }
}

/// The keys of a listing, in its order.
pub open spec fn keys_of(listing: Seq<Pair>) -> Seq<Text> {
    listing.map_values(|pair: Pair| pair.0)
}

/// Whether `listing` holds each row of `rows` exactly once, and nothing else.
/// The order is left open.
pub open spec fn lists_exactly(listing: Seq<Pair>, rows: Rows) -> bool {
    &&& forall|i: int|
        0 <= i < listing.len() ==> rows.contains_pair(
            (#[trigger] listing[i]).0,
            listing[i].1,
        )
    &&& forall|key: Text| #[trigger]
        rows.contains_key(key) ==> exists|i: int|
            0 <= i < listing.len() && (#[trigger] listing[i]).0 == key
    &&& forall|i: int, j: int|
        0 <= i < j < listing.len() ==> (#[trigger] listing[i]).0 != (#[trigger] listing[j]).0
}

} // verus!
