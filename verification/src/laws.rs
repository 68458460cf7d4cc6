//! What follows from the meaning of the statements for operations taken
//! together. Each operation of the store sends the request that
//! [`crate::statements::Request`] makes for it, and those that write say so
//! in their contracts; the first law below reads each request as the
//! relation of its operation, and the others speak of the table before and
//! after by those relations. The outcome `Done` is an
//! operation that returned `Ok`. The laws are theorems about the model of
//! the table: they hold of a database as far as the database does what the
//! model says.

use vstd::prelude::*;
use crate::error::{ErrorKind, StoreError};
use crate::statements::{
    added,
    cleared,
    created,
    listed,
    listing_meaning,
    looked_up,
    lookup_meaning,
    removed,
    saved,
    updated,
    write_meaning,
    Outcome,
    CREATE_TABLE,
    DELETE_ALL,
    DELETE_ONE,
    INSERT,
    SELECT_ALL,
    SELECT_ONE,
    UPDATE,
    UPSERT,
};
use crate::store::{lookup_result, write_outcome};
use crate::table::{keys_of, Pair, Table, Text};

verus! {

/// The requests of the store mean what the operations are named for: each
/// text with its arguments is the relation of its operation. The update
/// takes the value first and the key second.
pub proof fn requests_mean_their_operations(
    key: Text,
    value: Text,
    before: Table,
    outcome: Outcome,
    after: Table,
    answer: Option<Text>,
    listing: Seq<Pair>,
)
    ensures
        write_meaning(CREATE_TABLE@, seq![], before, outcome, after) ==> created(
            before,
            outcome,
            after,
        ),
        write_meaning(UPSERT@, seq![key, value], before, outcome, after) ==> saved(
            before,
            key,
            value,
            outcome,
            after,
        ),
        write_meaning(INSERT@, seq![key, value], before, outcome, after) ==> added(
            before,
            key,
            value,
            outcome,
            after,
        ),
        write_meaning(UPDATE@, seq![value, key], before, outcome, after) ==> updated(
            before,
            key,
            value,
            outcome,
            after,
        ),
        write_meaning(DELETE_ONE@, seq![key], before, outcome, after) ==> removed(
            before,
            key,
            outcome,
            after,
        ),
        write_meaning(DELETE_ALL@, seq![], before, outcome, after) ==> cleared(
            before,
            outcome,
            after,
        ),
        lookup_meaning(SELECT_ONE@, seq![key], before, answer) ==> looked_up(before, key, answer),
        listing_meaning(SELECT_ALL@, seq![], before, listing) ==> listed(before, listing),
{
}

/// Whatever is written, a table stays well formed: it holds finitely many
/// rows, and none unless it exists.
pub proof fn write_keeps_table_well_formed(
    before: Table,
    key: Text,
    value: Text,
    outcome: Outcome,
    after: Table,
)
    requires
        before.wf(),
        created(before, outcome, after) || saved(before, key, value, outcome, after) || added(
            before,
            key,
            value,
            outcome,
            after,
        ) || updated(before, key, value, outcome, after) || removed(before, key, outcome, after)
            || cleared(before, outcome, after),
    ensures
        after.wf(),
{
}

/// Only adding a row can be refused, and a constraint violation is what a
/// refusal is reported as: where an operation that adds fails with that
/// kind, the key had a row.
pub proof fn constraint_violation_is_a_duplicate_key(
    before: Table,
    key: Text,
    value: Text,
    r: Result<(), StoreError>,
    after: Table,
)
    requires
        added(before, key, value, write_outcome(r), after),
        r matches Err(error) && error.kind == ErrorKind::ConstraintViolation,
    ensures
        before.present,
        before.rows.contains_key(key),
        after == before,
{
}

/// A table that is created for the first time exists and is empty: its
/// listing holds nothing and no key is found in it.
pub proof fn created_table_is_empty(
    before: Table,
    after: Table,
    listing: Seq<Pair>,
    key: Text,
    answer: Option<Text>,
)
    requires
        !before.present,
        created(before, Outcome::Done, after),
    ensures
        after.present,
        after.wf(),
        after.rows == Map::<Text, Text>::empty(),
        listed(after, listing) ==> listing.len() == 0,
        looked_up(after, key, answer) ==> answer is None,
{
    if listed(after, listing) && listing.len() > 0 {
        assert(after.rows.contains_pair(listing[0].0, listing[0].1));
    }
}

/// Creating a table that exists changes nothing, whatever the outcome: no
/// row is added, removed or changed.
pub proof fn create_keeps_existing_table(before: Table, outcome: Outcome, after: Table)
    requires
        before.present,
        created(before, outcome, after),
    ensures
        after == before,
{
    assert(before.once_created().rows == before.rows);
}

/// Creating the table twice is creating it once: once the first attempt has
/// succeeded the second changes nothing, whatever its outcome, and the rows
/// of a table that was there before are kept throughout.
pub proof fn create_is_idempotent(t0: Table, t1: Table, second: Outcome, t2: Table)
    requires
        created(t0, Outcome::Done, t1),
        created(t1, second, t2),
    ensures
        t1.present,
        t2 == t1,
        t0.present ==> t1.rows == t0.rows,
{
    create_keeps_existing_table(t1, second, t2);
}

/// A key that was saved is found with exactly the value it was saved with.
pub proof fn save_then_get(t0: Table, key: Text, value: Text, t1: Table, answer: Option<Text>)
    requires
        saved(t0, key, value, Outcome::Done, t1),
        looked_up(t1, key, answer),
    ensures
        answer == Some(value),
{
}

/// Saving touches one key: it has a row afterwards, every other key is as
/// before, and the table has one row more only if the key had none.
pub proof fn save_keeps_one_row_per_key(t0: Table, key: Text, value: Text, t1: Table, other: Text)
    requires
        t0.wf(),
        saved(t0, key, value, Outcome::Done, t1),
    ensures
        t1.rows.dom() == t0.rows.dom().insert(key),
        t1.rows[key] == value,
        t0.rows.contains_key(key) ==> t1.rows.dom().len() == t0.rows.dom().len(),
        !t0.rows.contains_key(key) ==> t1.rows.dom().len() == t0.rows.dom().len() + 1,
        other != key ==> t1.rows.contains_key(other) == t0.rows.contains_key(other),
        other != key && t0.rows.contains_key(other) ==> t1.rows[other] == t0.rows[other],
{
    assert(t1.rows.dom() =~= t0.rows.dom().insert(key));
}

/// Of two saves under one key the second wins, and the key still has one
/// row.
pub proof fn second_save_wins(
    t0: Table,
    key: Text,
    first: Text,
    t1: Table,
    second: Text,
    t2: Table,
    answer: Option<Text>,
)
    requires
        t0.wf(),
        saved(t0, key, first, Outcome::Done, t1),
        saved(t1, key, second, Outcome::Done, t2),
        looked_up(t2, key, answer),
    ensures
        answer == Some(second),
        t2.rows.dom() == t1.rows.dom(),
        t2.rows.dom().len() == t1.rows.dom().len(),
{
    write_keeps_table_well_formed(t0, key, first, Outcome::Done, t1);
    save_keeps_one_row_per_key(t1, key, second, t2, key);
    assert(t1.rows.dom().insert(key) =~= t1.rows.dom());
}

/// Where no fault comes between, adding takes effect exactly for a key
/// without a row and is refused exactly for a key that has one.
pub proof fn add_takes_effect_iff_key_is_free(
    before: Table,
    key: Text,
    value: Text,
    outcome: Outcome,
    after: Table,
)
    requires
        added(before, key, value, outcome, after),
        outcome != Outcome::Fault,
    ensures
        before.present,
        outcome == Outcome::Done <==> !before.rows.contains_key(key),
        outcome == Outcome::Refused <==> before.rows.contains_key(key),
{
}

/// Adding that took effect gives the table exactly one row more: the new
/// one.
pub proof fn add_gains_one_row(before: Table, key: Text, value: Text, after: Table)
    requires
        before.wf(),
        added(before, key, value, Outcome::Done, after),
    ensures
        after.rows == before.rows.insert(key, value),
        after.rows.dom().len() == before.rows.dom().len() + 1,
{
    assert(after.rows.dom() =~= before.rows.dom().insert(key));
}

/// A key that was added cannot be added again: the second attempt does not
/// take effect, changes nothing, and the key keeps its first value.
pub proof fn add_rejects_duplicate(
    t0: Table,
    key: Text,
    first: Text,
    t1: Table,
    second: Text,
    again: Outcome,
    t2: Table,
    answer: Option<Text>,
)
    requires
        added(t0, key, first, Outcome::Done, t1),
        added(t1, key, second, again, t2),
        looked_up(t2, key, answer),
    ensures
        again != Outcome::Done,
        t2 == t1,
        answer == Some(first),
{
}

/// A key without a row is not found.
pub proof fn absent_key_is_not_found(table: Table, key: Text, answer: Option<Text>)
    requires
        !table.rows.contains_key(key),
        looked_up(table, key, answer),
    ensures
        answer is None,
{
}

/// A key that has a row is found with its value, never reported missing.
pub proof fn present_key_is_found(table: Table, key: Text, answer: Option<Text>)
    requires
        table.rows.contains_key(key),
        looked_up(table, key, answer),
    ensures
        answer == Some(table.rows[key]),
{
}

/// What a lookup reports follows the table: for a key without a row it is
/// the not-found failure, never a value, not even an empty one; for a key
/// with a row it is that row's value.
pub proof fn lookup_reports_what_the_table_holds(
    table: Table,
    key: Text,
    answer: Option<String>,
    r: Result<String, StoreError>,
)
    requires
        looked_up(table, key, answer.deep_view()),
        lookup_result(answer, r),
    ensures
        !table.rows.contains_key(key) ==> (r matches Err(error) && error.kind
            == ErrorKind::NotFound),
        table.rows.contains_key(key) ==> (r matches Ok(value) && value@ == table.rows[key]),
{
}

/// A key that was removed is not found, and the other keys are found as
/// before.
pub proof fn removed_key_is_not_found(
    t0: Table,
    key: Text,
    t1: Table,
    answer: Option<Text>,
    other: Text,
)
    requires
        removed(t0, key, Outcome::Done, t1),
        looked_up(t1, key, answer),
    ensures
        answer is None,
        other != key ==> t1.rows.contains_key(other) == t0.rows.contains_key(other),
        other != key && t0.rows.contains_key(other) ==> t1.rows[other] == t0.rows[other],
{
}

/// Updating a key without a row adds none, whether or not the update reports
/// success: the table is as before and the key is still not found.
pub proof fn update_of_absent_key_adds_nothing(
    t0: Table,
    key: Text,
    value: Text,
    outcome: Outcome,
    t1: Table,
    answer: Option<Text>,
)
    requires
        !t0.rows.contains_key(key),
        updated(t0, key, value, outcome, t1),
        looked_up(t1, key, answer),
    ensures
        t1 == t0,
        answer is None,
{
}

/// Updating a key that has a row gives it the new value and leaves the keys
/// of the table as they are.
pub proof fn update_of_present_key_sets_value(
    t0: Table,
    key: Text,
    value: Text,
    t1: Table,
    answer: Option<Text>,
)
    requires
        t0.rows.contains_key(key),
        updated(t0, key, value, Outcome::Done, t1),
        looked_up(t1, key, answer),
    ensures
        answer == Some(value),
        t1.rows.dom() == t0.rows.dom(),
{
    assert(t1.rows.dom() =~= t0.rows.dom());
}

/// After every row was removed the listing is empty, whatever the table held.
pub proof fn clear_empties(t0: Table, t1: Table, listing: Seq<Pair>)
    requires
        cleared(t0, Outcome::Done, t1),
        listed(t1, listing),
    ensures
        listing.len() == 0,
{
    if listing.len() > 0 {
        assert(t1.rows.contains_pair(listing[0].0, listing[0].1));
    }
}

/// A listing is complete: it has as many pairs as the table has rows, its
/// keys are the keys of the table, and its pairs are the rows of the table.
pub proof fn listing_is_complete(table: Table, listing: Seq<Pair>)
    requires
        listed(table, listing),
    ensures
        table.rows.dom().finite(),
        listing.len() == table.rows.dom().len(),
        listing.no_duplicates(),
        keys_of(listing).to_set() == table.rows.dom(),
        forall|i: int| 0 <= i < listing.len() ==> table.rows[listing[i].0] == listing[i].1,
        forall|pair: Pair|
            listing.contains(pair) <==> table.rows.contains_pair(pair.0, pair.1),
{
    let keys = keys_of(listing);
    assert(keys.no_duplicates()) by {
        assert forall|i: int, j: int|
            0 <= i < keys.len() && 0 <= j < keys.len() && i != j implies keys[i] != keys[j] by {
            if i < j {
                assert(listing[i].0 != listing[j].0);
            } else {
                assert(listing[j].0 != listing[i].0);
            }
        }
    }
    assert(listing.no_duplicates()) by {
        assert forall|i: int, j: int|
            0 <= i < listing.len() && 0 <= j < listing.len() && i != j implies listing[i]
            != listing[j] by {
            assert(keys[i] != keys[j]);
        }
    }
    assert(keys.to_set() =~= table.rows.dom()) by {
        assert forall|key: Text| keys.to_set().contains(key) implies table.rows.dom().contains(
            key,
        ) by {
            let i = choose|i: int| 0 <= i < keys.len() && keys[i] == key;
            assert(table.rows.contains_pair(listing[i].0, listing[i].1));
        }
        assert forall|key: Text| table.rows.dom().contains(key) implies keys.to_set().contains(
            key,
        ) by {
            assert(table.rows.contains_key(key));
            let i = choose|i: int| 0 <= i < listing.len() && (#[trigger] listing[i]).0 == key;
            assert(keys[i] == key);
        }
    }
    keys.unique_seq_to_set();
    assert forall|i: int| 0 <= i < listing.len() implies table.rows[listing[i].0]
        == listing[i].1 by {
        assert(table.rows.contains_pair(listing[i].0, listing[i].1));
    }
    assert forall|pair: Pair| listing.contains(pair) <==> table.rows.contains_pair(
        pair.0,
        pair.1,
    ) by {
        if listing.contains(pair) {
            let i = choose|i: int| 0 <= i < listing.len() && listing[i] == pair;
            assert(table.rows.contains_pair(listing[i].0, listing[i].1));
        }
        if table.rows.contains_pair(pair.0, pair.1) {
            assert(table.rows.contains_key(pair.0));
            let i = choose|i: int| 0 <= i < listing.len() && (#[trigger] listing[i]).0 == pair.0;
            assert(table.rows.contains_pair(listing[i].0, listing[i].1));
            assert(listing[i] == pair);
        }
    }
}

/// The listing of a table with one row is that row and nothing else.
pub proof fn listing_of_one_row(table: Table, key: Text, value: Text, listing: Seq<Pair>)
    requires
        table.rows == Map::<Text, Text>::empty().insert(key, value),
        listed(table, listing),
    ensures
        listing == seq![(key, value)],
{
    listing_is_complete(table, listing);
    assert(table.rows.dom() =~= Set::<Text>::empty().insert(key));
    assert(listing.len() == 1);
    assert(table.rows.contains_pair(listing[0].0, listing[0].1));
    assert(listing =~= seq![(key, value)]);
}

/// Two listings of one table hold the same pairs, in whatever order.
pub proof fn listings_agree(table: Table, first: Seq<Pair>, second: Seq<Pair>)
    requires
        listed(table, first),
        listed(table, second),
    ensures
        first.len() == second.len(),
        first.to_set() == second.to_set(),
{
    listing_is_complete(table, first);
    listing_is_complete(table, second);
    assert(first.to_set() =~= second.to_set());
}

/// Whether each table of `tables` comes from the one before it by saving or
/// adding the pair of `pairs` at that place, with success.
pub open spec fn stored_in_turn(tables: Seq<Table>, pairs: Seq<Pair>) -> bool {
    &&& tables.len() == pairs.len() + 1
    &&& forall|i: int|
        0 <= i < pairs.len() ==> {
            ||| saved(tables[i], pairs[i].0, pairs[i].1, Outcome::Done, #[trigger] tables[i + 1])
            ||| added(tables[i], pairs[i].0, pairs[i].1, Outcome::Done, tables[i + 1])
        }
}

/// The rows after the first `n` pairs were stored in an empty table: the
/// keys of those pairs, each with its value.
proof fn rows_after_storing(tables: Seq<Table>, pairs: Seq<Pair>, n: int)
    requires
        stored_in_turn(tables, pairs),
        tables[0].rows == Map::<Text, Text>::empty(),
        keys_of(pairs).no_duplicates(),
        0 <= n <= pairs.len(),
    ensures
        forall|key: Text| #[trigger]
            tables[n].rows.contains_key(key) <==> exists|j: int|
                0 <= j < n && (#[trigger] pairs[j]).0 == key,
        forall|j: int| 0 <= j < n ==> tables[n].rows[(#[trigger] pairs[j]).0] == pairs[j].1,
    decreases n,
{
    if n > 0 {
        rows_after_storing(tables, pairs, n - 1);
        let before = tables[n - 1];
        let after = tables[n - 1 + 1];
        let last = pairs[n - 1];
        assert(after.rows == before.rows.insert(last.0, last.1));
        assert forall|key: Text| #[trigger] tables[n].rows.contains_key(key) implies exists|j: int|
            0 <= j < n && (#[trigger] pairs[j]).0 == key by {
            if key == last.0 {
                assert(pairs[n - 1].0 == key);
            } else {
                assert(before.rows.contains_key(key));
                let j = choose|j: int| 0 <= j < n - 1 && (#[trigger] pairs[j]).0 == key;
                assert(0 <= j < n && pairs[j].0 == key);
            }
        }
        assert forall|key: Text|
            (exists|j: int| 0 <= j < n && (#[trigger] pairs[j]).0 == key) implies #[trigger]
            tables[n].rows.contains_key(key) by {
            let j = choose|j: int| 0 <= j < n && (#[trigger] pairs[j]).0 == key;
            if j < n - 1 {
                assert(before.rows.contains_key(key));
            }
        }
        assert forall|j: int| 0 <= j < n implies tables[n].rows[(#[trigger] pairs[j]).0]
            == pairs[j].1 by {
            if j < n - 1 {
                assert(keys_of(pairs)[j] != keys_of(pairs)[n - 1]);
                assert(before.rows[pairs[j].0] == pairs[j].1);
            }
        }
    }
}

/// After pairs with distinct keys were stored one by one in an empty table,
/// be it by saving or by adding, the listing holds exactly those pairs: as
/// many as were stored, the same keys, each with the value stored for it.
/// A table is empty when it was just created or cleared.
pub proof fn listing_after_storing(tables: Seq<Table>, pairs: Seq<Pair>, listing: Seq<Pair>)
    requires
        stored_in_turn(tables, pairs),
        tables[0].rows == Map::<Text, Text>::empty(),
        keys_of(pairs).no_duplicates(),
        listed(tables.last(), listing),
    ensures
        listing.len() == pairs.len(),
        listing.to_set() == pairs.to_set(),
        keys_of(listing).to_set() == keys_of(pairs).to_set(),
{
    let n = pairs.len() as int;
    let rows = tables.last().rows;
    rows_after_storing(tables, pairs, n);
    assert(tables[n] == tables.last());
    listing_is_complete(tables.last(), listing);
    assert(listing.to_set() =~= pairs.to_set()) by {
        assert forall|pair: Pair| listing.to_set().contains(pair) implies pairs.to_set().contains(
            pair,
        ) by {
            assert(rows.contains_pair(pair.0, pair.1));
            assert(rows.contains_key(pair.0));
            let j = choose|j: int| 0 <= j < n && (#[trigger] pairs[j]).0 == pair.0;
            assert(rows[pairs[j].0] == pairs[j].1);
            assert(pairs[j] == pair);
        }
        assert forall|pair: Pair| pairs.to_set().contains(pair) implies listing.to_set().contains(
            pair,
        ) by {
            let j = choose|j: int| 0 <= j < pairs.len() && pairs[j] == pair;
            assert(rows[pairs[j].0] == pairs[j].1);
            assert(rows.contains_key(pair.0));
            assert(rows.contains_pair(pair.0, pair.1));
        }
    }
    assert(pairs.no_duplicates()) by {
        assert forall|i: int, j: int|
            0 <= i < pairs.len() && 0 <= j < pairs.len() && i != j implies pairs[i]
            != pairs[j] by {
            assert(keys_of(pairs)[i] != keys_of(pairs)[j]);
        }
    }
    listing.unique_seq_to_set();
    pairs.unique_seq_to_set();
    assert(keys_of(listing).to_set() =~= keys_of(pairs).to_set()) by {
        assert forall|key: Text| keys_of(pairs).to_set().contains(key) implies rows.dom().contains(
            key,
        ) by {
            let j = choose|j: int| 0 <= j < keys_of(pairs).len() && keys_of(pairs)[j] == key;
            assert(pairs[j].0 == key);
            assert(rows.contains_key(key));
        }
        assert forall|key: Text| rows.dom().contains(key) implies keys_of(pairs).to_set().contains(
            key,
        ) by {
            assert(rows.contains_key(key));
            let j = choose|j: int| 0 <= j < n && (#[trigger] pairs[j]).0 == key;
            assert(keys_of(pairs)[j] == key);
        }
    }
}

} // verus!
