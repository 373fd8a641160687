//! What holds of every snapshot, every transition and every height.
//!
//! Each law is stated over the same spec functions as the contracts of the
//! queries, so it holds of what the queries return.

use vstd::prelude::*;
use crate::block_range::BlockRange;
use crate::restrictions::{slot_restricts, RestrictionsView};
use crate::tables::{
    lists_slot, order_with, slot_literals, slot_position, slot_windows, with_slot_windows,
    SlotEntry,
};
use crate::transition::{Input, Output, Plaintext, Transition};

verus! {

/// A bounded window is half open: it holds its start and the height before its
/// end, and neither the height before its start nor its end.
pub proof fn lemma_bounded_window_is_half_open(start: u32, end: u32)
    requires
        start < end,
    ensures
        BlockRange::Range(start, end).spec_contains(start),
        BlockRange::Range(start, end).spec_contains((end - 1) as u32),
        !BlockRange::Range(start, end).spec_contains(end),
        start > 0 ==> !BlockRange::Range(start, end).spec_contains((start - 1) as u32),
{
}

/// A bounded window whose start is not below its end holds no height.
pub proof fn lemma_degenerate_window_is_empty(start: u32, end: u32, height: u32)
    requires
        start >= end,
    ensures
        !BlockRange::Range(start, end).spec_contains(height),
{
}

/// A window open at the start holds every height below its end, one open at
/// the end every height from its start, and the full window every height.
pub proof fn lemma_open_windows(bound: u32, height: u32)
    ensures
        BlockRange::RangeFrom(bound).spec_contains(height) <==> bound <= height,
        BlockRange::RangeTo(bound).spec_contains(height) <==> height < bound,
        BlockRange::RangeFull.spec_contains(height),
{
}

/// Says that `order` lists the keys of `entries`, each of them once.
pub open spec fn lists_keys_once<K, V>(entries: Map<K, V>, order: Seq<K>) -> bool {
    order.no_duplicates() && forall|key: K| entries.contains_key(key) <==> order.contains(key)
}

/// Where nothing is declared, the order lists nothing.
pub proof fn lemma_nothing_declared_lists_nothing<K, V>()
    ensures
        lists_keys_once(Map::<K, V>::empty(), Seq::<K>::empty()),
{
}

/// The order of declaration is kept: once a key is declared, the keys listed
/// before keep their places, a key that was listed is not listed again, a new
/// one is listed last, and the order still lists each declared key once.
pub proof fn lemma_declaration_keeps_the_order<K, V>(
    entries: Map<K, V>,
    order: Seq<K>,
    key: K,
    value: V,
)
    requires
        lists_keys_once(entries, order),
    ensures
        lists_keys_once(entries.insert(key, value), order_with(entries, order, key)),
        order.is_prefix_of(order_with(entries, order, key)),
        entries.contains_key(key) ==> order_with(entries, order, key) == order,
        !entries.contains_key(key) ==> order_with(entries, order, key).last() == key,
{
    let after = order_with(entries, order, key);
    if entries.contains_key(key) {
        assert forall|other: K| entries.insert(key, value).contains_key(other) implies after.contains(
            other,
        ) by {
            assert(entries.contains_key(other));
        }
    } else {
        assert(!order.contains(key));
        assert forall|i: int, j: int| 0 <= i < after.len() && 0 <= j < after.len() && i != j implies after[i]
            != after[j] by {
            if i < order.len() {
                assert(order.contains(order[i]));
            }
            if j < order.len() {
                assert(order.contains(order[j]));
            }
        }
        assert forall|other: K| entries.insert(key, value).contains_key(other) <==> after.contains(
            other,
        ) by {
            if other == key {
                assert(after[order.len() as int] == key);
            } else if entries.contains_key(other) {
                assert(order.contains(other));
                let i = choose|i: int| 0 <= i < order.len() && order[i] == other;
                assert(after[i] == other);
            } else if after.contains(other) {
                let i = choose|i: int| 0 <= i < after.len() && after[i] == other;
                assert(order[i] == other);
                assert(order.contains(other));
            }
        }
        assert(after.subrange(0, order.len() as int) =~= order);
    }
}

/// A program for which no window is declared is restricted at no height.
pub proof fn lemma_undeclared_program_is_unrestricted(
    snapshot: RestrictionsView,
    program_id: Seq<char>,
    height: u32,
)
    requires
        !snapshot.programs.contains_key(program_id),
    ensures
        !snapshot.program_restricted(program_id, height),
{
}

/// A function for which no window is declared is restricted at no height.
pub proof fn lemma_undeclared_function_is_unrestricted(
    snapshot: RestrictionsView,
    program_id: Seq<char>,
    function_name: Seq<char>,
    height: u32,
)
    requires
        !snapshot.functions.contains_key((program_id, function_name)),
    ensures
        !snapshot.function_restricted(program_id, function_name, height),
{
}

/// Once a window is declared for a program, that program is restricted at
/// exactly the heights of the window, and every other program as before.
pub proof fn lemma_declared_program(
    before: RestrictionsView,
    after: RestrictionsView,
    program_id: Seq<char>,
    range: BlockRange,
    other: Seq<char>,
    height: u32,
)
    requires
        after.programs == before.programs.insert(program_id, range),
    ensures
        after.program_restricted(program_id, height) == range.spec_contains(height),
        other != program_id ==> after.program_restricted(other, height)
            == before.program_restricted(other, height),
{
}

/// Once a window is declared for a function, that function is restricted at
/// exactly the heights of the window, and every other function as before.
pub proof fn lemma_declared_function(
    before: RestrictionsView,
    after: RestrictionsView,
    function: (Seq<char>, Seq<char>),
    range: BlockRange,
    other: (Seq<char>, Seq<char>),
    height: u32,
)
    requires
        after.functions == before.functions.insert(function, range),
    ensures
        after.function_restricted(function.0, function.1, height) == range.spec_contains(height),
        other != function ==> after.function_restricted(other.0, other.1, height)
            == before.function_restricted(other.0, other.1, height),
{
}

/// Once a window is declared for a literal at an argument slot of a function,
/// a transition of that function that shows the literal at the slot is
/// restricted by its arguments at every height of the window, whatever was
/// declared before.
pub proof fn lemma_declared_argument_restricts(
    before: RestrictionsView,
    slot: (bool, u16),
    literal: Seq<char>,
    range: BlockRange,
    transition: Transition,
    height: u32,
)
    requires
        transition.spec_literal_at(slot.0, slot.1) == Some(literal),
        range.spec_contains(height),
    ensures
        before.with_argument(
            (transition.program_id@, transition.function_name@),
            slot,
            literal,
            range,
        ).argument_restricted(transition, height),
{
    let function = (transition.program_id@, transition.function_name@);
    let entries = before.slots_of(function);
    let windows = slot_windows(entries, slot).insert(literal, range);
    let literals = order_with(slot_windows(entries, slot), slot_literals(entries, slot), literal);
    let declared = with_slot_windows(entries, slot, windows, literals);
    let position = if lists_slot(entries, slot) {
        slot_position(entries, slot)
    } else {
        entries.len() as int
    };
    assert(declared[position] == (slot, windows, literals));
    let after = before.with_argument(function, slot, literal, range);
    assert(after.arguments[function] == declared);
    assert(slot_restricts(after.arguments[function][position], transition, height));
}

/// Where nothing was declared for the arguments of a function, and a window is
/// then declared for one literal at one slot, a transition of that function is
/// restricted by its arguments exactly if it shows that literal at that slot
/// and the window holds the height.
pub proof fn lemma_first_declared_argument(
    before: RestrictionsView,
    slot: (bool, u16),
    literal: Seq<char>,
    range: BlockRange,
    transition: Transition,
    height: u32,
)
    requires
        before.slots_of((transition.program_id@, transition.function_name@)).len() == 0,
    ensures
        before.with_argument(
            (transition.program_id@, transition.function_name@),
            slot,
            literal,
            range,
        ).argument_restricted(transition, height) <==> transition.spec_literal_at(slot.0, slot.1)
            == Some(literal) && range.spec_contains(height),
{
    let function = (transition.program_id@, transition.function_name@);
    let entries = before.slots_of(function);
    let windows = slot_windows(entries, slot).insert(literal, range);
    let literals = order_with(slot_windows(entries, slot), slot_literals(entries, slot), literal);
    let declared = with_slot_windows(entries, slot, windows, literals);
    assert(!lists_slot(entries, slot));
    assert(declared.len() == 1);
    assert(declared[0] == (slot, windows, literals));
    let after = before.with_argument(function, slot, literal, range);
    assert(after.arguments[function] == declared);
    assert(slot_restricts(after.arguments[function][0], transition, height)
        <==> transition.spec_literal_at(slot.0, slot.1) == Some(literal) && range.spec_contains(
        height,
    ));
}

/// A window declared for an argument of one function leaves the programs, the
/// functions, and the arguments of every other function as they were.
pub proof fn lemma_declared_argument_is_local(
    before: RestrictionsView,
    function: (Seq<char>, Seq<char>),
    slot: (bool, u16),
    literal: Seq<char>,
    range: BlockRange,
    transition: Transition,
    height: u32,
)
    requires
        (transition.program_id@, transition.function_name@) != function,
    ensures
        before.with_argument(function, slot, literal, range).argument_restricted(
            transition,
            height,
        ) == before.argument_restricted(transition, height),
        before.with_argument(function, slot, literal, range).programs == before.programs,
        before.with_argument(function, slot, literal, range).functions == before.functions,
{
}

/// A transition of a function for which no argument slot is declared is not
/// restricted by its arguments.
pub proof fn lemma_undeclared_arguments_are_unrestricted(
    snapshot: RestrictionsView,
    transition: Transition,
    height: u32,
)
    requires
        !snapshot.arguments.contains_key((transition.program_id@, transition.function_name@)),
    ensures
        !snapshot.argument_restricted(transition, height),
{
}

/// A private input, a record, and a constant or public input that carries no
/// plaintext, a struct or an array show no literal.
pub proof fn lemma_hidden_input_shows_no_literal(input: Input)
    requires
        !(input matches Input::Constant(Some(Plaintext::Literal(_)))),
        !(input matches Input::Public(Some(Plaintext::Literal(_)))),
    ensures
        input.spec_literal() is None,
{
}

/// A private output, a record, a future, and a constant or public output that
/// carries no plaintext, a struct or an array show no literal.
pub proof fn lemma_hidden_output_shows_no_literal(output: Output)
    requires
        !(output matches Output::Constant(Some(Plaintext::Literal(_)))),
        !(output matches Output::Public(Some(Plaintext::Literal(_)))),
    ensures
        output.spec_literal() is None,
{
}

/// Says that `slot` declares no window for what `transition` shows at it:
/// the transition shows no literal there, or one that the slot does not list.
pub open spec fn slot_is_silent(slot: SlotEntry, transition: Transition) -> bool {
    match transition.spec_literal_at(slot.0.0, slot.0.1) {
        Some(literal) => !slot.1.contains_key(literal),
        None => true,
    }
}

/// A transition that, at each argument slot declared for its function, shows
/// another literal than those listed, or no literal at all, is restricted by
/// its arguments at no height.
pub proof fn lemma_silent_slots_restrict_nothing(
    snapshot: RestrictionsView,
    transition: Transition,
    height: u32,
)
    requires
        snapshot.arguments.contains_key((transition.program_id@, transition.function_name@))
            ==> forall|i: int|
            0 <= i < snapshot.arguments[(
                transition.program_id@,
                transition.function_name@,
            )].len() ==> #[trigger] slot_is_silent(
                snapshot.arguments[(transition.program_id@, transition.function_name@)][i],
                transition,
            ),
    ensures
        !snapshot.argument_restricted(transition, height),
{
    let key = (transition.program_id@, transition.function_name@);
    if snapshot.arguments.contains_key(key) {
        assert forall|i: int| 0 <= i < snapshot.arguments[key].len() implies !#[trigger] slot_restricts(
            snapshot.arguments[key][i],
            transition,
            height,
        ) by {
            assert(slot_is_silent(snapshot.arguments[key][i], transition));
        }
    }
}

/// An execution without transitions is not restricted.
pub proof fn lemma_empty_execution_is_unrestricted(snapshot: RestrictionsView, height: u32)
    ensures
        !snapshot.execution_restricted(Seq::empty(), height),
{
}

/// An execution is restricted as soon as one of its transitions is, on any
/// tier and wherever the transition stands.
pub proof fn lemma_restricted_transition_restricts_execution(
    snapshot: RestrictionsView,
    transitions: Seq<Transition>,
    position: int,
    height: u32,
)
    requires
        0 <= position < transitions.len(),
        snapshot.transition_restricted(transitions[position], height),
    ensures
        snapshot.execution_restricted(transitions, height),
{
}

/// An execution none of whose transitions is restricted is not restricted.
pub proof fn lemma_unrestricted_transitions_make_unrestricted_execution(
    snapshot: RestrictionsView,
    transitions: Seq<Transition>,
    height: u32,
)
    requires
        forall|i: int|
            0 <= i < transitions.len() ==> !#[trigger] snapshot.transition_restricted(
                transitions[i],
                height,
            ),
    ensures
        !snapshot.execution_restricted(transitions, height),
{
}

/// An execution with one more transition is restricted exactly if it was
/// before or the new transition is.
pub proof fn lemma_execution_with_one_more_transition(
    snapshot: RestrictionsView,
    transitions: Seq<Transition>,
    transition: Transition,
    height: u32,
)
    ensures
        snapshot.execution_restricted(transitions.push(transition), height) == (
        snapshot.execution_restricted(transitions, height) || snapshot.transition_restricted(
            transition,
            height,
        )),
{
    let longer = transitions.push(transition);
    if snapshot.execution_restricted(transitions, height) {
        let i = choose|i: int|
            0 <= i < transitions.len() && #[trigger] snapshot.transition_restricted(
                transitions[i],
                height,
            );
        assert(longer[i] == transitions[i]);
        assert(snapshot.transition_restricted(longer[i], height));
    }
    if snapshot.transition_restricted(transition, height) {
        assert(longer[transitions.len() as int] == transition);
        assert(snapshot.transition_restricted(longer[transitions.len() as int], height));
    }
    if snapshot.execution_restricted(longer, height) {
        let i = choose|i: int|
            0 <= i < longer.len() && #[trigger] snapshot.transition_restricted(longer[i], height);
        if i < transitions.len() {
            assert(longer[i] == transitions[i]);
            assert(snapshot.transition_restricted(transitions[i], height));
        } else {
            assert(longer[i] == transition);
        }
    }
}

/// What a query answers depends on what the snapshot declares and on nothing
/// else, not even on the order of the declarations: two snapshots that
/// declare the same give the same answers, and so does one snapshot that is
/// asked twice.
pub proof fn lemma_answers_depend_on_declarations_only(
    first: RestrictionsView,
    second: RestrictionsView,
    transition: Transition,
    transitions: Seq<Transition>,
    height: u32,
)
    requires
        first.programs == second.programs,
        first.functions == second.functions,
        first.arguments == second.arguments,
    ensures
        first.program_restricted(transition.program_id@, height) == second.program_restricted(
            transition.program_id@,
            height,
        ),
        first.function_restricted(transition.program_id@, transition.function_name@, height)
            == second.function_restricted(
            transition.program_id@,
            transition.function_name@,
            height,
        ),
        first.argument_restricted(transition, height) == second.argument_restricted(
            transition,
            height,
        ),
        first.transition_restricted(transition, height) == second.transition_restricted(
            transition,
            height,
        ),
        first.execution_restricted(transitions, height) == second.execution_restricted(
            transitions,
            height,
        ),
{
    assert forall|other: Transition|
        first.transition_restricted(other, height) == second.transition_restricted(
            other,
            height,
        ) by {}
}

} // verus!
