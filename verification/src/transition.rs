//! The part of an execution record that restrictions are checked against.
//!
//! A transition is one call of a function of a program, with its ordered
//! inputs and outputs. Identifiers and literals are held by their canonical
//! text, which is what they are compared by.

use vstd::prelude::*;

verus! {

/// A program identifier, in its canonical text (for example `credits.aleo`).
pub type ProgramID = String;

/// The name of a function within a program, in its canonical text.
pub type Identifier = String;

/// A literal value, in its canonical text (for example `42i8`).
pub type Literal = String;

/// A value in the clear.
#[derive(Clone, Debug, PartialEq, Eq)]
pub enum Plaintext {
    /// A single literal.
    Literal(Literal),
    /// A struct of plaintexts. Its members are not examined.
    Struct,
    /// An array of plaintexts. Its elements are not examined.
    Array,
}

/// An input of a transition, by how its value is disclosed.
#[derive(Clone, Debug, PartialEq, Eq)]
pub enum Input {
    /// A constant, with its value if the record carries it.
    Constant(Option<Plaintext>),
    /// A public value, with its value if the record carries it.
    Public(Option<Plaintext>),
    /// A private value: only its ciphertext is on record.
    Private,
    /// A record consumed by the transition.
    Record,
    /// A record of another program.
    ExternalRecord,
}

/// An output of a transition, by how its value is disclosed.
#[derive(Clone, Debug, PartialEq, Eq)]
pub enum Output {
    /// A constant, with its value if the record carries it.
    Constant(Option<Plaintext>),
    /// A public value, with its value if the record carries it.
    Public(Option<Plaintext>),
    /// A private value: only its ciphertext is on record.
    Private,
    /// A record produced by the transition.
    Record,
    /// A record of another program.
    ExternalRecord,
    /// A future to be run on chain.
    Future,
}

/// One call of a function of a program.
#[derive(Clone, Debug, PartialEq, Eq)]
pub struct Transition {
    /// The program that was called.
    pub program_id: ProgramID,
    /// The function of the program that was called.
    pub function_name: Identifier,
    /// The inputs of the call, in order.
    pub inputs: Vec<Input>,
    /// The outputs of the call, in order.
    pub outputs: Vec<Output>,
}

/// An ordered sequence of transitions.
#[derive(Clone, Debug, PartialEq, Eq)]
pub struct Execution {
    /// The transitions, in the order in which they ran.
    pub transitions: Vec<Transition>,
}

/// The literal that an optional plaintext shows: the text of the literal if
/// the plaintext is present and is a literal, else nothing.
pub open spec fn shown_literal(plaintext: Option<Plaintext>) -> Option<Seq<char>> {
    match plaintext {
        Some(Plaintext::Literal(literal)) => Some(literal@),
        Some(Plaintext::Struct) => None,
        Some(Plaintext::Array) => None,
        None => None,
    }
}

/// Says that `found` is the literal whose text is `shown`, or that neither is
/// there.
pub open spec fn is_literal(found: Option<&Literal>, shown: Option<Seq<char>>) -> bool {
    match found {
        Some(literal) => shown == Some(literal@),
        None => shown is None,
    }
}

impl Plaintext {
    /// The literal of this plaintext, if it is one. A struct or an array is
    /// opaque: it shows no literal.
    pub fn literal(&self) -> (found: Option<&Literal>)
        ensures
            is_literal(found, shown_literal(Some(*self))),
    {
        match self {
            Plaintext::Literal(literal) => Some(literal),
            Plaintext::Struct => None,
            Plaintext::Array => None,
        }
    }
}

impl Input {
    /// The text of the literal that can be observed in this input: that of a
    /// constant or public input that carries a literal plaintext.
    pub open spec fn spec_literal(&self) -> Option<Seq<char>> {
        match *self {
            Input::Constant(plaintext) => shown_literal(plaintext),
            Input::Public(plaintext) => shown_literal(plaintext),
            Input::Private => None,
            Input::Record => None,
            Input::ExternalRecord => None,
        }
    }

    /// The literal that can be observed in this input, if any.
    pub fn literal(&self) -> (found: Option<&Literal>)
        ensures
            is_literal(found, self.spec_literal()),
    {
        match self {
            Input::Constant(Some(plaintext)) => plaintext.literal(),
            Input::Public(Some(plaintext)) => plaintext.literal(),
            Input::Constant(None) => None,
            Input::Public(None) => None,
            Input::Private => None,
            Input::Record => None,
            Input::ExternalRecord => None,
        }
    }
}

impl Output {
    /// The text of the literal that can be observed in this output: that of a
    /// constant or public output that carries a literal plaintext.
    pub open spec fn spec_literal(&self) -> Option<Seq<char>> {
        match *self {
            Output::Constant(plaintext) => shown_literal(plaintext),
            Output::Public(plaintext) => shown_literal(plaintext),
            Output::Private => None,
            Output::Record => None,
            Output::ExternalRecord => None,
            Output::Future => None,
        }
    }

    /// The literal that can be observed in this output, if any.
    pub fn literal(&self) -> (found: Option<&Literal>)
        ensures
            is_literal(found, self.spec_literal()),
    {
        match self {
            Output::Constant(Some(plaintext)) => plaintext.literal(),
            Output::Public(Some(plaintext)) => plaintext.literal(),
            Output::Constant(None) => None,
            Output::Public(None) => None,
            Output::Private => None,
            Output::Record => None,
            Output::ExternalRecord => None,
            Output::Future => None,
        }
    }
}

impl Transition {
    /// A transition of `function_name` in `program_id` with the given inputs
    /// and outputs.
    pub fn new(
        program_id: ProgramID,
        function_name: Identifier,
        inputs: Vec<Input>,
        outputs: Vec<Output>,
    ) -> (transition: Self)
        ensures
            transition == (Transition { program_id, function_name, inputs, outputs }),
    {
        Transition { program_id, function_name, inputs, outputs }
    }

    /// The text of the literal that can be observed at an argument slot of
    /// this transition. The slot is the input (`is_input`) or output at
    /// position `index`; a position past the end shows nothing.
    pub open spec fn spec_literal_at(&self, is_input: bool, index: u16) -> Option<Seq<char>> {
        if is_input {
            if index < self.inputs@.len() {
                self.inputs@[index as int].spec_literal()
            } else {
                None
            }
        } else {
            if index < self.outputs@.len() {
                self.outputs@[index as int].spec_literal()
            } else {
                None
            }
        }
    }

    /// The literal that can be observed at an argument slot of this
    /// transition, if any.
    pub fn literal_at(&self, is_input: bool, index: u16) -> (found: Option<&Literal>)
        ensures
            is_literal(found, self.spec_literal_at(is_input, index)),
    {
        let position = index as usize;
        if is_input {
            if position < self.inputs.len() {
                self.inputs[position].literal()
            } else {
                None
            }
        } else {
            if position < self.outputs.len() {
                self.outputs[position].literal()
            } else {
                None
            }
        }
    }
}

impl Execution {
    /// An execution without transitions.
    pub fn new() -> (execution: Self)
        ensures
            execution.transitions@ =~= Seq::empty(),
    {
        Execution { transitions: Vec::new() }
    }

    /// Appends a transition.
    pub fn push(&mut self, transition: Transition)
        ensures
            final(self).transitions@ == old(self).transitions@.push(transition),
    {
        self.transitions.push(transition);
    }

    /// The number of transitions.
    pub fn len(&self) -> (count: usize)
        ensures
            count == self.transitions@.len(),
    {
        self.transitions.len()
    }
}

} // verus!
