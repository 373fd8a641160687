//! A time-windowed restriction table for ledger executions.
//!
//! A [`Restrictions`] snapshot declares, per program, per function and per
//! argument value, the block heights during which execution is disallowed, and
//! answers whether a transition or a whole execution is restricted at a height.

pub mod block_range;
pub mod laws;
pub mod restrictions;
pub mod tables;
pub mod transition;

pub use block_range::BlockRange;
pub use restrictions::{Restrictions, RestrictionsView};
pub use transition::{Execution, Identifier, Input, Literal, Output, Plaintext, ProgramID, Transition};
