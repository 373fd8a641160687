//! The restriction snapshot and its queries.

use vstd::prelude::*;
use indexmap::IndexMap;
use crate::block_range::BlockRange;
use crate::tables::{
    argument_entries, argument_order, copy_arguments, copy_functions, copy_ranges,
    empty_arguments, empty_functions, empty_ranges, function_entries, function_order,
    function_range_of, literals_entry, order_with, put_function_range, put_range, put_slots,
    range_entries, range_of, range_order, slot_at, slot_count, slot_entries, slot_literals,
    slot_windows, slots_entry, slots_of, with_slot_windows, SlotEntry,
};
use crate::transition::{Execution, Identifier, Literal, ProgramID, Transition};

verus! {

/// What a snapshot of restrictions declares, tier by tier.
#[verifier::ext_equal]
pub struct RestrictionsView {
    /// The window declared for each restricted program.
    pub programs: Map<Seq<char>, BlockRange>,
    /// The window declared for each restricted function, by program and
    /// function name.
    pub functions: Map<(Seq<char>, Seq<char>), BlockRange>,
    /// The restricted argument slots of each function, by program and function
    /// name, in the order in which they were declared.
    pub arguments: Map<(Seq<char>, Seq<char>), Seq<SlotEntry>>,
    /// The restricted programs, in the order in which they were declared.
    pub program_order: Seq<Seq<char>>,
    /// The restricted functions, in the order in which they were declared.
    pub function_order: Seq<(Seq<char>, Seq<char>)>,
    /// The functions with restricted arguments, in the order in which they were
    /// declared.
    pub argument_order: Seq<(Seq<char>, Seq<char>)>,
}

/// Says that the restriction declared for one argument slot applies to
/// `transition` at `height`: the transition shows a literal at that slot, the
/// slot has a window for that literal, and the window holds `height`.
pub open spec fn slot_restricts(slot: SlotEntry, transition: Transition, height: u32) -> bool {
    match transition.spec_literal_at(slot.0.0, slot.0.1) {
        Some(literal) => slot.1.contains_key(literal) && slot.1[literal].spec_contains(height),
        None => false,
    }
}

/// Says that some slot among `entries` restricts `transition` at `height`,
/// entry by entry from the last.
pub open spec fn some_slot_restricts(
    entries: Seq<SlotEntry>,
    transition: Transition,
    height: u32,
) -> bool
    decreases entries.len(),
{
    entries.len() > 0 && (slot_restricts(entries.last(), transition, height)
        || some_slot_restricts(entries.drop_last(), transition, height))
}

/// `some_slot_restricts` holds exactly if a slot at some position restricts.
pub proof fn lemma_some_slot_restricts(entries: Seq<SlotEntry>, transition: Transition, height: u32)
    ensures
        some_slot_restricts(entries, transition, height) <==> exists|i: int|
            0 <= i < entries.len() && #[trigger] slot_restricts(entries[i], transition, height),
    decreases entries.len(),
{
    if entries.len() > 0 {
        let shorter = entries.drop_last();
        lemma_some_slot_restricts(shorter, transition, height);
        if some_slot_restricts(entries, transition, height) {
            if slot_restricts(entries.last(), transition, height) {
                assert(slot_restricts(entries[entries.len() - 1], transition, height));
            } else {
                let i = choose|i: int|
                    0 <= i < shorter.len() && #[trigger] slot_restricts(
                        shorter[i],
                        transition,
                        height,
                    );
                assert(shorter[i] == entries[i]);
                assert(slot_restricts(entries[i], transition, height));
            }
        }
        if exists|i: int|
            0 <= i < entries.len() && #[trigger] slot_restricts(entries[i], transition, height) {
            let i = choose|i: int|
                0 <= i < entries.len() && #[trigger] slot_restricts(entries[i], transition, height);
            if i < entries.len() - 1 {
                assert(shorter[i] == entries[i]);
                assert(slot_restricts(shorter[i], transition, height));
            }
        }
    }
}

impl RestrictionsView {
    /// The snapshot that declares nothing.
    pub open spec fn empty() -> RestrictionsView {
        RestrictionsView {
            programs: Map::empty(),
            functions: Map::empty(),
            arguments: Map::empty(),
            program_order: Seq::empty(),
            function_order: Seq::empty(),
            argument_order: Seq::empty(),
        }
    }

    /// The argument slots declared for a function, in the order in which they
    /// were declared: none if nothing is declared for it.
    pub open spec fn slots_of(self, function: (Seq<char>, Seq<char>)) -> Seq<SlotEntry> {
        match self.arguments.get(function) {
            Some(entries) => entries,
            None => Seq::empty(),
        }
    }

    /// This snapshot with `range` declared for `literal` at `slot` of
    /// `function`, in place of the window that the literal had there. What was
    /// listed keeps its place; a function, a slot or a literal that is new is
    /// listed last among the functions, the slots of the function or the
    /// literals of the slot.
    pub open spec fn with_argument(
        self,
        function: (Seq<char>, Seq<char>),
        slot: (bool, u16),
        literal: Seq<char>,
        range: BlockRange,
    ) -> RestrictionsView {
        let entries = self.slots_of(function);
        let windows = slot_windows(entries, slot);
        let literals = slot_literals(entries, slot);
        RestrictionsView {
            arguments: self.arguments.insert(
                function,
                with_slot_windows(
                    entries,
                    slot,
                    windows.insert(literal, range),
                    order_with(windows, literals, literal),
                ),
            ),
            argument_order: order_with(self.arguments, self.argument_order, function),
            ..self
        }
    }

    /// A window is declared for the program and holds `height`.
    pub open spec fn program_restricted(self, program_id: Seq<char>, height: u32) -> bool {
        self.programs.contains_key(program_id) && self.programs[program_id].spec_contains(height)
    }

    /// A window is declared for the function and holds `height`.
    pub open spec fn function_restricted(
        self,
        program_id: Seq<char>,
        function_name: Seq<char>,
        height: u32,
    ) -> bool {
        self.functions.contains_key((program_id, function_name))
            && self.functions[(program_id, function_name)].spec_contains(height)
    }

    /// Some argument slot declared for the function that `transition` calls
    /// restricts it at `height`.
    pub open spec fn argument_restricted(self, transition: Transition, height: u32) -> bool {
        let key = (transition.program_id@, transition.function_name@);
        self.arguments.contains_key(key) && exists|i: int|
            0 <= i < self.arguments[key].len()
                && #[trigger] slot_restricts(self.arguments[key][i], transition, height)
    }

    /// The transition is restricted at `height` on some tier: by its program,
    /// by its function, or by one of its arguments.
    pub open spec fn transition_restricted(self, transition: Transition, height: u32) -> bool {
        ||| self.program_restricted(transition.program_id@, height)
        ||| self.function_restricted(transition.program_id@, transition.function_name@, height)
        ||| self.argument_restricted(transition, height)
    }

    /// Some transition of the sequence is restricted at `height`.
    pub open spec fn execution_restricted(self, transitions: Seq<Transition>, height: u32) -> bool {
        exists|i: int|
            0 <= i < transitions.len()
                && #[trigger] self.transition_restricted(transitions[i], height)
    }

    /// Some transition of the sequence is restricted at `height`, transition
    /// by transition from the last.
    pub open spec fn some_transition_restricted(
        self,
        transitions: Seq<Transition>,
        height: u32,
    ) -> bool
        decreases transitions.len(),
    {
        transitions.len() > 0 && (self.transition_restricted(transitions.last(), height)
            || self.some_transition_restricted(transitions.drop_last(), height))
    }

    /// `some_transition_restricted` holds exactly if the transition at some
    /// position is restricted.
    pub proof fn lemma_some_transition_restricted(self, transitions: Seq<Transition>, height: u32)
        ensures
            self.some_transition_restricted(transitions, height) <==> self.execution_restricted(
                transitions,
                height,
            ),
        decreases transitions.len(),
    {
        if transitions.len() > 0 {
            let shorter = transitions.drop_last();
            self.lemma_some_transition_restricted(shorter, height);
            if self.some_transition_restricted(transitions, height) {
                if self.transition_restricted(transitions.last(), height) {
                    assert(self.transition_restricted(transitions[transitions.len() - 1], height));
                } else {
                    let i = choose|i: int|
                        0 <= i < shorter.len() && #[trigger] self.transition_restricted(
                            shorter[i],
                            height,
                        );
                    assert(shorter[i] == transitions[i]);
                    assert(self.transition_restricted(transitions[i], height));
                }
            }
            if self.execution_restricted(transitions, height) {
                let i = choose|i: int|
                    0 <= i < transitions.len() && #[trigger] self.transition_restricted(
                        transitions[i],
                        height,
                    );
                if i < transitions.len() - 1 {
                    assert(shorter[i] == transitions[i]);
                    assert(self.transition_restricted(shorter[i], height));
                }
            }
        }
    }
}

/// A snapshot of the restrictions in force: which programs, which functions
/// and which argument values may not be executed, each during a window of
/// block heights.
#[derive(Debug)]
pub struct Restrictions {
    /// The programs that may not be executed,
    /// e.g. `restricted.aleo` during `10..20`.
    programs: IndexMap<ProgramID, BlockRange>,
    /// The functions that may not be executed,
    /// e.g. `restricted.aleo`, `foo` during `10..`.
    functions: IndexMap<(ProgramID, Identifier), BlockRange>,
    /// The argument values with which a function may not be executed: by
    /// function, then by argument slot, then by literal. A transition of
    /// another function costs one failed lookup; one of a listed function
    /// costs one lookup per slot listed for it.
    arguments: IndexMap<(ProgramID, Identifier), IndexMap<(bool, u16), IndexMap<Literal, BlockRange>>>,
}

impl View for Restrictions {
    type V = RestrictionsView;

    closed spec fn view(&self) -> RestrictionsView {
        RestrictionsView {
            programs: range_entries(self.programs),
            functions: function_entries(self.functions),
            arguments: argument_entries(self.arguments),
            program_order: range_order(self.programs),
            function_order: function_order(self.functions),
            argument_order: argument_order(self.arguments),
        }
    }
}

impl Restrictions {
    /// The table of restricted programs that this snapshot holds.
    pub closed spec fn programs_table(&self) -> IndexMap<ProgramID, BlockRange> {
        self.programs
    }

    /// The table of restricted functions that this snapshot holds.
    pub closed spec fn functions_table(&self) -> IndexMap<(ProgramID, Identifier), BlockRange> {
        self.functions
    }

    /// The table of restricted argument values that this snapshot holds.
    pub closed spec fn arguments_table(
        &self,
    ) -> IndexMap<(ProgramID, Identifier), IndexMap<(bool, u16), IndexMap<Literal, BlockRange>>> {
        self.arguments
    }

    /// A snapshot that declares no restriction.
    pub fn new() -> (restrictions: Self)
        ensures
            restrictions@ == RestrictionsView::empty(),
    {
        Restrictions {
            programs: empty_ranges(),
            functions: empty_functions(),
            arguments: empty_arguments(),
        }
    }

    /// The restricted programs: the table that the snapshot holds, as it is.
    pub fn programs(&self) -> (table: &IndexMap<ProgramID, BlockRange>)
        ensures
            *table == self.programs_table(),
            range_entries(*table) == self@.programs,
            range_order(*table) == self@.program_order,
    {
        &self.programs
    }

    /// The restricted functions: the table that the snapshot holds, as it is.
    pub fn functions(&self) -> (table: &IndexMap<(ProgramID, Identifier), BlockRange>)
        ensures
            *table == self.functions_table(),
            function_entries(*table) == self@.functions,
            function_order(*table) == self@.function_order,
    {
        &self.functions
    }

    /// The restricted argument values: the table that the snapshot holds, as it
    /// is, by function, then by slot, then by literal.
    pub fn arguments(
        &self,
    ) -> (table: &IndexMap<(ProgramID, Identifier), IndexMap<(bool, u16), IndexMap<Literal, BlockRange>>>)
        ensures
            *table == self.arguments_table(),
            argument_entries(*table) == self@.arguments,
            argument_order(*table) == self@.argument_order,
    {
        &self.arguments
    }

    /// Declares `range` for a program, in place of the window it had, if it
    /// had one, which is returned. A program that was listed keeps its place
    /// among the programs; a new one is listed last.
    pub fn insert_program(
        &mut self,
        program_id: ProgramID,
        range: BlockRange,
    ) -> (previous: Option<BlockRange>)
        ensures
            final(self)@ == (RestrictionsView {
                programs: old(self)@.programs.insert(program_id@, range),
                program_order: order_with(
                    old(self)@.programs,
                    old(self)@.program_order,
                    program_id@,
                ),
                ..old(self)@
            }),
            previous == old(self)@.programs.get(program_id@),
    {
        put_range(&mut self.programs, program_id, range)
    }

    /// Declares `range` for a function of a program, in place of the window it
    /// had, if it had one, which is returned. A function that was listed keeps
    /// its place among the functions; a new one is listed last.
    pub fn insert_function(
        &mut self,
        program_id: ProgramID,
        function_name: Identifier,
        range: BlockRange,
    ) -> (previous: Option<BlockRange>)
        ensures
            final(self)@ == (RestrictionsView {
                functions: old(self)@.functions.insert((program_id@, function_name@), range),
                function_order: order_with(
                    old(self)@.functions,
                    old(self)@.function_order,
                    (program_id@, function_name@),
                ),
                ..old(self)@
            }),
            previous == old(self)@.functions.get((program_id@, function_name@)),
    {
        put_function_range(&mut self.functions, (program_id, function_name), range)
    }

    /// Declares the restricted argument slots of a function of a program, in
    /// place of those it had, if it had any, which are returned. A function
    /// that was listed keeps its place among the functions with restricted
    /// arguments; a new one is listed last.
    pub fn insert_arguments(
        &mut self,
        program_id: ProgramID,
        function_name: Identifier,
        slots: IndexMap<(bool, u16), IndexMap<Literal, BlockRange>>,
    ) -> (previous: Option<IndexMap<(bool, u16), IndexMap<Literal, BlockRange>>>)
        ensures
            final(self)@ == (RestrictionsView {
                arguments: old(self)@.arguments.insert(
                    (program_id@, function_name@),
                    slot_entries(slots),
                ),
                argument_order: order_with(
                    old(self)@.arguments,
                    old(self)@.argument_order,
                    (program_id@, function_name@),
                ),
                ..old(self)@
            }),
            match previous {
                Some(prior) => old(self)@.arguments.get((program_id@, function_name@))
                    == Some(slot_entries(prior)),
                None => !old(self)@.arguments.contains_key((program_id@, function_name@)),
            },
    {
        put_slots(&mut self.arguments, (program_id, function_name), slots)
    }

    /// Declares `range` for one literal at one argument slot of a function of a
    /// program, in place of the window that the literal had at that slot, if it
    /// had one, which is returned. The slot is the input (`is_input`) or output
    /// at position `index`. A slot that is new to the function is listed after
    /// those declared before; the other slots and literals are unchanged.
    pub fn insert_argument(
        &mut self,
        program_id: ProgramID,
        function_name: Identifier,
        is_input: bool,
        index: u16,
        literal: Literal,
        range: BlockRange,
    ) -> (previous: Option<BlockRange>)
        ensures
            final(self)@ == old(self)@.with_argument(
                (program_id@, function_name@),
                (is_input, index),
                literal@,
                range,
            ),
            previous == slot_windows(
                old(self)@.slots_of((program_id@, function_name@)),
                (is_input, index),
            ).get(literal@),
    {
        let slots = slots_entry(&mut self.arguments, (program_id, function_name));
        let literals = literals_entry(slots, (is_input, index));
        put_range(literals, literal, range)
    }

    /// Returns `true` if the program may not be executed at `block_height`.
    pub fn is_program_restricted(
        &self,
        program_id: &ProgramID,
        block_height: u32,
    ) -> (restricted: bool)
        ensures
            restricted == self@.program_restricted(program_id@, block_height),
    {
        match range_of(&self.programs, program_id.as_str()) {
            Some(range) => range.contains(block_height),
            None => false,
        }
    }

    /// Returns `true` if the function of the program may not be executed at
    /// `block_height`.
    pub fn is_function_restricted(
        &self,
        program_id: &ProgramID,
        function_name: &Identifier,
        block_height: u32,
    ) -> (restricted: bool)
        ensures
            restricted == self@.function_restricted(program_id@, function_name@, block_height),
    {
        let key = (program_id.clone(), function_name.clone());
        match function_range_of(&self.functions, &key) {
            Some(range) => range.contains(block_height),
            None => false,
        }
    }

    /// Returns `true` if the transition carries, at an argument slot that is
    /// restricted for its function, a literal that may not be used at
    /// `block_height`.
    ///
    /// Every slot declared for the function is examined, and only those. A
    /// slot that the transition does not have, or where it shows no literal
    /// (a private value, a record, a struct or an array), restricts nothing.
    pub fn is_argument_restricted(
        &self,
        transition: &Transition,
        block_height: u32,
    ) -> (restricted: bool)
        ensures
            restricted == self@.argument_restricted(*transition, block_height),
            restricted == some_slot_restricts(
                self@.slots_of((transition.program_id@, transition.function_name@)),
                *transition,
                block_height,
            ),
    {
        let key = (transition.program_id.clone(), transition.function_name.clone());
        proof {
            lemma_some_slot_restricts(self@.slots_of((key.0@, key.1@)), *transition, block_height);
        }
        match slots_of(&self.arguments, &key) {
            None => false,
            Some(slots) => {
                let count = slot_count(slots);
                let mut position: usize = 0;
                while position < count
                    invariant
                        position <= count,
                        count == slot_entries(*slots).len(),
                        self@.arguments.get((transition.program_id@, transition.function_name@))
                            == Some(slot_entries(*slots)),
                        some_slot_restricts(slot_entries(*slots), *transition, block_height)
                            <==> self@.argument_restricted(*transition, block_height),
                        forall|i: int|
                            0 <= i < position ==> !#[trigger] slot_restricts(
                                slot_entries(*slots)[i],
                                *transition,
                                block_height,
                            ),
                    decreases count - position,
                {
                    if let Some((slot, literals)) = slot_at(slots, position) {
                        if let Some(literal) = transition.literal_at(slot.0, slot.1) {
                            if let Some(range) = range_of(literals, literal.as_str()) {
                                if range.contains(block_height) {
                                    assert(slot_restricts(
                                        slot_entries(*slots)[position as int],
                                        *transition,
                                        block_height,
                                    ));
                                    return true;
                                }
                            }
                        }
                    }
                    position = position + 1;
                }
                false
            },
        }
    }

    /// Returns `true` if the transition may not be executed at `block_height`:
    /// its program is restricted, or its function, or one of its arguments.
    pub fn is_transition_restricted(
        &self,
        transition: &Transition,
        block_height: u32,
    ) -> (restricted: bool)
        ensures
            restricted == self@.transition_restricted(*transition, block_height),
    {
        if self.is_program_restricted(&transition.program_id, block_height) {
            return true;
        }
        if self.is_function_restricted(
            &transition.program_id,
            &transition.function_name,
            block_height,
        ) {
            return true;
        }
        self.is_argument_restricted(transition, block_height)
    }

    /// Returns `true` if some transition of the execution may not be executed
    /// at `block_height`.
    pub fn contains_restricted_transitions(
        &self,
        execution: &Execution,
        block_height: u32,
    ) -> (restricted: bool)
        ensures
            restricted == self@.execution_restricted(execution.transitions@, block_height),
            restricted == self@.some_transition_restricted(execution.transitions@, block_height),
    {
        proof {
            self@.lemma_some_transition_restricted(execution.transitions@, block_height);
        }
        let count = execution.transitions.len();
        let mut position: usize = 0;
        while position < count
            invariant
                position <= count,
                count == execution.transitions@.len(),
                self@.some_transition_restricted(execution.transitions@, block_height)
                    <==> self@.execution_restricted(execution.transitions@, block_height),
                forall|i: int|
                    0 <= i < position ==> !#[trigger] self@.transition_restricted(
                        execution.transitions@[i],
                        block_height,
                    ),
            decreases count - position,
        {
            if self.is_transition_restricted(&execution.transitions[position], block_height) {
                return true;
            }
            position = position + 1;
        }
        false
    }
}

impl Clone for Restrictions {
    /// A snapshot that declares what this one declares, in the same order.
    fn clone(&self) -> (copy: Self)
        ensures
            copy@ == self@,
    {
        Restrictions {
            programs: copy_ranges(&self.programs),
            functions: copy_functions(&self.functions),
            arguments: copy_arguments(&self.arguments),
        }
    }
}

impl Default for Restrictions {
    /// A snapshot that declares no restriction.
    fn default() -> (restrictions: Self)
        ensures
            restrictions@ == RestrictionsView::empty(),
    {
        Self::new()
    }
}

} // verus!
