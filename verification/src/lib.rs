//! A one-button electronic dice, written as a verified state machine.
//!
//! The dice has a single button. The first press switches it on and starts
//! the shake, the second stops it and fixes the number that was rolled, the
//! third switches it off again, and the cycle starts over.
//!
//! * [`dice`] holds the identities of the three states and the context that
//!   a press works on.
//! * [`handlers`] holds the behaviour of each state.
//! * [`table`] holds the lookup table from an identity to its handler.
//! * [`laws`] proves what holds of every run of the machine.

pub mod dice;
pub mod handlers;
pub mod laws;
pub mod table;

pub use dice::{StateContext, StateDice, ROLLED_NUMBER};
pub use handlers::{Handler, State, StatePowerOff, StatePowerOn, StateStop};
pub use table::StateTable;
