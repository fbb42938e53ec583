//! The identities of the dice's states and the context a press works on.

use vstd::prelude::*;
use crate::handlers::{Handler, State};
use crate::table::StateTable;

verus! {

/// The number that the dice shows once it has been stopped.
pub const ROLLED_NUMBER: u8 = 4;

/// The identity of a state of the dice. It carries no data: it only says
/// which handler is in charge of the next press.
#[derive(Debug, Clone, Copy, PartialEq, Eq, Hash, Structural)]
pub enum StateDice {
    /// Switched on and shaking.
    PowerOn,
    /// Stopped, the rolled number showing.
    StopDice,
    /// Switched off.
    PowerOff,
}

/// What a press of the button works on: the rolled number, if the dice has
/// been stopped at least once, and the identity of the current state.
#[derive(Debug, Clone, Copy, PartialEq, Eq, Structural)]
pub struct StateContext {
    /// The number rolled at the last stop; `None` until the first stop.
    pub number: Option<u8>,
    /// The identity whose handler takes the next press.
    pub current_state: StateDice,
}

/// The context that one press leaves behind when it finds `context` and the
/// handlers are registered as in `handlers`: the handler registered under the
/// current state decides.
pub open spec fn pressed(handlers: Map<StateDice, Handler>, context: StateContext) -> StateContext
    recommends
        handlers.contains_key(context.current_state),
{
    handlers[context.current_state].after_press(context)
}

/// The line that the dice announces on a press that finds `context`, with
/// the handlers registered as in `handlers`.
pub open spec fn announced(handlers: Map<StateDice, Handler>, context: StateContext) -> Seq<char>
    recommends
        handlers.contains_key(context.current_state),
{
    handlers[context.current_state].announcement()
}

impl StateContext {
    /// The context of a dice that has never been pressed.
    pub open spec fn fresh() -> StateContext {
        StateContext { number: None, current_state: StateDice::PowerOn }
    }

    /// A context in the state `PowerOn` with no number rolled yet.
    pub fn new() -> (context: StateContext)
        ensures
            context == StateContext::fresh(),
    {
        StateContext { number: None, current_state: StateDice::PowerOn }
    }

    /// Makes `s` the current state and leaves the number as it is.
    pub fn set_state(&mut self, s: StateDice)
        ensures
            final(self).current_state == s,
            final(self).number == old(self).number,
    {
        self.current_state = s;
    }

    /// Records `n` as the rolled number and leaves the state as it is.
    pub fn set_dice_number(&mut self, n: u8)
        ensures
            final(self).number == Some(n),
            final(self).current_state == old(self).current_state,
    {
        self.number = Some(n)
    }

    /// Takes one press of the button: looks up the handler registered in
    /// `table` under the current state and lets it update the context.
    /// Returns the line that the handler announces.
    ///
    /// A state without a registered handler is a mistake in the table, not
    /// an input: the caller has to rule it out.
    pub fn press_button(&mut self, table: &StateTable) -> (line: &'static str)
        requires
            table@.contains_key(old(self).current_state),
        ensures
            *final(self) == pressed(table@, *old(self)),
            line@ == announced(table@, *old(self)),
    {
        let handler = table.get(&self.current_state).unwrap();
        handler.on_press_button(self)
    }
}

} // verus!
