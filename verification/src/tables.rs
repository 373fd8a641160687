//! The insertion-ordered hash tables that hold the restrictions.
//!
//! The tables are `indexmap::IndexMap` values. Verus does not read that crate,
//! so what each kind of table holds is given a name here, and each method that
//! the library calls is given a contract over those names. No contract in this
//! module is proved: each restates the documentation of `indexmap`, for keys
//! whose `Hash` and `Eq` are those that std gives `String`, `bool`, `u16` and
//! tuples of them, under which two keys are equal exactly when their
//! characters and numbers are. A table has an order, that in which its keys
//! were first inserted, so a table is named twice: by what it holds under each
//! key, and by its keys in order. The spec functions that have a body are the
//! words in which the contracts are stated.

use vstd::prelude::*;
use indexmap::IndexMap;
use crate::block_range::BlockRange;

verus! {

/// Declares `indexmap::IndexMap` to Verus as a type it cannot look inside.
#[verifier::external_type_specification]
#[verifier::external_body]
#[verifier::reject_recursive_types(K)]
#[verifier::reject_recursive_types(V)]
#[verifier::reject_recursive_types(S)]
pub struct ExIndexMap<K, V, S>(IndexMap<K, V, S>);

/// What one restricted argument slot holds: the slot, as direction (`true` for
/// an input) and position, the windows declared for it by literal, and those
/// literals in the order in which they were declared.
pub type SlotEntry = ((bool, u16), Map<Seq<char>, BlockRange>, Seq<Seq<char>>);

/// The order of a table once `key` is inserted in it: `order` as it is if the
/// table holds the key, which keeps its place, else with the key last.
pub open spec fn order_with<K, V>(entries: Map<K, V>, order: Seq<K>, key: K) -> Seq<K> {
    if entries.contains_key(key) {
        order
    } else {
        order.push(key)
    }
}

/// Says that `slot` is listed among `entries`.
pub open spec fn lists_slot(entries: Seq<SlotEntry>, slot: (bool, u16)) -> bool {
    exists|i: int| 0 <= i < entries.len() && (#[trigger] entries[i]).0 == slot
}

/// The position at which `slot` is listed among `entries`, if it is listed.
/// The slots of a table are distinct, so there it is listed once at most.
pub open spec fn slot_position(entries: Seq<SlotEntry>, slot: (bool, u16)) -> int {
    choose|i: int| 0 <= i < entries.len() && (#[trigger] entries[i]).0 == slot
}

/// The windows that `entries` declare for `slot`, by literal: none if the slot
/// is not listed.
pub open spec fn slot_windows(entries: Seq<SlotEntry>, slot: (bool, u16)) -> Map<
    Seq<char>,
    BlockRange,
> {
    if lists_slot(entries, slot) {
        entries[slot_position(entries, slot)].1
    } else {
        Map::empty()
    }
}

/// The literals for which `entries` declare a window at `slot`, in the order
/// in which they were declared: none if the slot is not listed.
pub open spec fn slot_literals(entries: Seq<SlotEntry>, slot: (bool, u16)) -> Seq<Seq<char>> {
    if lists_slot(entries, slot) {
        entries[slot_position(entries, slot)].2
    } else {
        Seq::empty()
    }
}

/// `entries` with `windows`, for the literals in the order `literals`,
/// declared for `slot`: in the place of the slot if it is listed, else as a
/// new last entry.
pub open spec fn with_slot_windows(
    entries: Seq<SlotEntry>,
    slot: (bool, u16),
    windows: Map<Seq<char>, BlockRange>,
    literals: Seq<Seq<char>>,
) -> Seq<SlotEntry> {
    if lists_slot(entries, slot) {
        entries.update(slot_position(entries, slot), (slot, windows, literals))
    } else {
        entries.push((slot, windows, literals))
    }
}

/// The association held by a table from text keys to windows: each key of the
/// table, by its characters, with the window stored under it.
pub uninterp spec fn range_entries(
    table: IndexMap<String, BlockRange>,
) -> Map<Seq<char>, BlockRange>;

/// The keys of a table from text keys to windows, each by its characters, in
/// the table's own order: that in which they were first inserted.
pub uninterp spec fn range_order(table: IndexMap<String, BlockRange>) -> Seq<Seq<char>>;

/// The association held by a table from pairs of text keys to windows.
pub uninterp spec fn function_entries(
    table: IndexMap<(String, String), BlockRange>,
) -> Map<(Seq<char>, Seq<char>), BlockRange>;

/// The keys of a table from pairs of text keys to windows, in the table's own
/// order: that in which they were first inserted.
pub uninterp spec fn function_order(
    table: IndexMap<(String, String), BlockRange>,
) -> Seq<(Seq<char>, Seq<char>)>;

/// The entries of a table of argument slots, in the table's own order (that of
/// first insertion): each slot with what `range_entries` and `range_order`
/// give for the table of literals stored under it.
pub uninterp spec fn slot_entries(
    table: IndexMap<(bool, u16), IndexMap<String, BlockRange>>,
) -> Seq<((bool, u16), Map<Seq<char>, BlockRange>, Seq<Seq<char>>)>;

/// The association held by a table from pairs of text keys to tables of
/// argument slots: each key with what `slot_entries` gives for the table
/// stored under it.
pub uninterp spec fn argument_entries(
    table: IndexMap<(String, String), IndexMap<(bool, u16), IndexMap<String, BlockRange>>>,
) -> Map<(Seq<char>, Seq<char>), Seq<((bool, u16), Map<Seq<char>, BlockRange>, Seq<Seq<char>>)>>;

/// The keys of a table from pairs of text keys to tables of argument slots, in
/// the table's own order: that in which they were first inserted.
pub uninterp spec fn argument_order(
    table: IndexMap<(String, String), IndexMap<(bool, u16), IndexMap<String, BlockRange>>>,
) -> Seq<(Seq<char>, Seq<char>)>;

/// `IndexMap::new` at text keys: the new table holds no entry.
#[verifier::external_body]
pub(crate) fn empty_ranges() -> (table: IndexMap<String, BlockRange>)
    ensures
        range_entries(table) =~= Map::empty(),
        range_order(table) =~= Seq::empty(),
{
    IndexMap::new()
}

/// `IndexMap::get` at text keys: the window stored under `key`, if the table
/// has that key, else `None`.
#[verifier::external_body]
pub(crate) fn range_of<'a>(
    table: &'a IndexMap<String, BlockRange>,
    key: &str,
) -> (found: Option<&'a BlockRange>)
    ensures
        match found {
            Some(range) => range_entries(*table).contains_key(key@)
                && *range == range_entries(*table)[key@],
            None => !range_entries(*table).contains_key(key@),
        },
{
    table.get(key)
}

/// `IndexMap::insert` at text keys: afterwards the table holds `range` under
/// `key` and is otherwise unchanged; a key that the table held keeps its place
/// in the order and a new one goes last; the result is the window that `key`
/// had before, if it had one.
#[verifier::external_body]
pub(crate) fn put_range(
    table: &mut IndexMap<String, BlockRange>,
    key: String,
    range: BlockRange,
) -> (previous: Option<BlockRange>)
    ensures
        range_entries(*final(table)) == range_entries(*old(table)).insert(key@, range),
        range_order(*final(table))
            == order_with(range_entries(*old(table)), range_order(*old(table)), key@),
        previous == range_entries(*old(table)).get(key@),
{
    table.insert(key, range)
}

/// `Clone::clone` of `IndexMap` at text keys: the copy holds what the table
/// holds, in the same order.
#[verifier::external_body]
pub(crate) fn copy_ranges(
    table: &IndexMap<String, BlockRange>,
) -> (copy: IndexMap<String, BlockRange>)
    ensures
        range_entries(copy) == range_entries(*table),
        range_order(copy) == range_order(*table),
{
    table.clone()
}

/// `IndexMap::new` at pairs of text keys: the new table holds no entry.
#[verifier::external_body]
pub(crate) fn empty_functions() -> (table: IndexMap<(String, String), BlockRange>)
    ensures
        function_entries(table) =~= Map::empty(),
        function_order(table) =~= Seq::empty(),
{
    IndexMap::new()
}

/// `IndexMap::get` at pairs of text keys: the window stored under `key`, if
/// the table has that key, else `None`.
#[verifier::external_body]
pub(crate) fn function_range_of<'a>(
    table: &'a IndexMap<(String, String), BlockRange>,
    key: &(String, String),
) -> (found: Option<&'a BlockRange>)
    ensures
        match found {
            Some(range) => function_entries(*table).contains_key((key.0@, key.1@))
                && *range == function_entries(*table)[(key.0@, key.1@)],
            None => !function_entries(*table).contains_key((key.0@, key.1@)),
        },
{
    table.get(key)
}

/// `IndexMap::insert` at pairs of text keys: afterwards the table holds
/// `range` under `key` and is otherwise unchanged; a key that the table held
/// keeps its place in the order and a new one goes last; the result is the
/// window that `key` had before, if it had one.
#[verifier::external_body]
pub(crate) fn put_function_range(
    table: &mut IndexMap<(String, String), BlockRange>,
    key: (String, String),
    range: BlockRange,
) -> (previous: Option<BlockRange>)
    ensures
        function_entries(*final(table))
            == function_entries(*old(table)).insert((key.0@, key.1@), range),
        function_order(*final(table)) == order_with(
            function_entries(*old(table)),
            function_order(*old(table)),
            (key.0@, key.1@),
        ),
        previous == function_entries(*old(table)).get((key.0@, key.1@)),
{
    table.insert(key, range)
}

/// `Clone::clone` of `IndexMap` at pairs of text keys: the copy holds what the
/// table holds, in the same order.
#[verifier::external_body]
pub(crate) fn copy_functions(
    table: &IndexMap<(String, String), BlockRange>,
) -> (copy: IndexMap<(String, String), BlockRange>)
    ensures
        function_entries(copy) == function_entries(*table),
        function_order(copy) == function_order(*table),
{
    table.clone()
}

/// `IndexMap::len` on a table of argument slots: the number of its entries.
#[verifier::external_body]
pub(crate) fn slot_count(
    table: &IndexMap<(bool, u16), IndexMap<String, BlockRange>>,
) -> (count: usize)
    ensures
        count == slot_entries(*table).len(),
{
    table.len()
}

/// `IndexMap::get_index` on a table of argument slots: the slot at `position`
/// in the table's order with the table of literals stored under it, or `None`
/// when the table has no more than `position` entries.
#[verifier::external_body]
pub(crate) fn slot_at<'a>(
    table: &'a IndexMap<(bool, u16), IndexMap<String, BlockRange>>,
    position: usize,
) -> (found: Option<(&'a (bool, u16), &'a IndexMap<String, BlockRange>)>)
    ensures
        match found {
            Some((slot, literals)) => position < slot_entries(*table).len()
                && *slot == slot_entries(*table)[position as int].0
                && range_entries(*literals) == slot_entries(*table)[position as int].1
                && range_order(*literals) == slot_entries(*table)[position as int].2,
            None => position >= slot_entries(*table).len(),
        },
{
    table.get_index(position)
}

/// `IndexMap::entry` and then `Entry::or_default`, on a table of argument
/// slots: a reference to the table of literals stored under `slot`, after an
/// empty one was stored there, last in order, if the slot was new. Whatever
/// the caller leaves in it is what the table then holds under `slot`, which
/// keeps its place; the other entries are unchanged.
#[verifier::external_body]
pub(crate) fn literals_entry<'a>(
    table: &'a mut IndexMap<(bool, u16), IndexMap<String, BlockRange>>,
    slot: (bool, u16),
) -> (literals: &'a mut IndexMap<String, BlockRange>)
    ensures
        range_entries(*literals) == slot_windows(slot_entries(*old(table)), slot),
        range_order(*literals) == slot_literals(slot_entries(*old(table)), slot),
        slot_entries(*final(table)) == with_slot_windows(
            slot_entries(*old(table)),
            slot,
            range_entries(*final(literals)),
            range_order(*final(literals)),
        ),
{
    table.entry(slot).or_default()
}

/// `IndexMap::new` at pairs of text keys with tables of argument slots: the
/// new table holds no entry.
#[verifier::external_body]
pub(crate) fn empty_arguments(
) -> (table: IndexMap<(String, String), IndexMap<(bool, u16), IndexMap<String, BlockRange>>>)
    ensures
        argument_entries(table) =~= Map::empty(),
        argument_order(table) =~= Seq::empty(),
{
    IndexMap::new()
}

/// `IndexMap::get` at pairs of text keys with tables of argument slots: the
/// table of slots stored under `key`, if there is one, else `None`.
#[verifier::external_body]
pub(crate) fn slots_of<'a>(
    table: &'a IndexMap<(String, String), IndexMap<(bool, u16), IndexMap<String, BlockRange>>>,
    key: &(String, String),
) -> (found: Option<&'a IndexMap<(bool, u16), IndexMap<String, BlockRange>>>)
    ensures
        match found {
            Some(slots) => argument_entries(*table).contains_key((key.0@, key.1@))
                && slot_entries(*slots) == argument_entries(*table)[(key.0@, key.1@)],
            None => !argument_entries(*table).contains_key((key.0@, key.1@)),
        },
{
    table.get(key)
}

/// `IndexMap::insert` at pairs of text keys with tables of argument slots:
/// afterwards the table holds `slots` under `key` and is otherwise unchanged;
/// a key that the table held keeps its place in the order and a new one goes
/// last; the result is the table of slots that `key` had before, if it had
/// one.
#[verifier::external_body]
pub(crate) fn put_slots(
    table: &mut IndexMap<(String, String), IndexMap<(bool, u16), IndexMap<String, BlockRange>>>,
    key: (String, String),
    slots: IndexMap<(bool, u16), IndexMap<String, BlockRange>>,
) -> (previous: Option<IndexMap<(bool, u16), IndexMap<String, BlockRange>>>)
    ensures
        argument_entries(*final(table))
            == argument_entries(*old(table)).insert((key.0@, key.1@), slot_entries(slots)),
        argument_order(*final(table)) == order_with(
            argument_entries(*old(table)),
            argument_order(*old(table)),
            (key.0@, key.1@),
        ),
        match previous {
            Some(prior) => argument_entries(*old(table)).contains_key((key.0@, key.1@))
                && slot_entries(prior) == argument_entries(*old(table))[(key.0@, key.1@)],
            None => !argument_entries(*old(table)).contains_key((key.0@, key.1@)),
        },
{
    table.insert(key, slots)
}

/// `IndexMap::entry` and then `Entry::or_default`, at pairs of text keys with
/// tables of argument slots: a reference to the table of slots stored under
/// `key`, after an empty one was stored there, last in order, if the key was
/// new. Whatever the caller leaves in it is what the table then holds under
/// `key`, which keeps its place; the other entries are unchanged.
#[verifier::external_body]
pub(crate) fn slots_entry<'a>(
    table: &'a mut IndexMap<(String, String), IndexMap<(bool, u16), IndexMap<String, BlockRange>>>,
    key: (String, String),
) -> (slots: &'a mut IndexMap<(bool, u16), IndexMap<String, BlockRange>>)
    ensures
        slot_entries(*slots) == (match argument_entries(*old(table)).get((key.0@, key.1@)) {
            Some(entries) => entries,
            None => Seq::empty(),
        }),
        argument_entries(*final(table))
            == argument_entries(*old(table)).insert((key.0@, key.1@), slot_entries(*final(slots))),
        argument_order(*final(table)) == order_with(
            argument_entries(*old(table)),
            argument_order(*old(table)),
            (key.0@, key.1@),
        ),
{
    table.entry(key).or_default()
}

/// `Clone::clone` of `IndexMap` at pairs of text keys with tables of argument
/// slots: the copy holds what the table holds, in the same order.
#[verifier::external_body]
pub(crate) fn copy_arguments(
    table: &IndexMap<(String, String), IndexMap<(bool, u16), IndexMap<String, BlockRange>>>,
) -> (copy: IndexMap<(String, String), IndexMap<(bool, u16), IndexMap<String, BlockRange>>>)
    ensures
        argument_entries(copy) == argument_entries(*table),
        argument_order(copy) == argument_order(*table),
{
    table.clone()
}

} // verus!
