//! The behaviour of each state: what a press does to the context while that
//! state's handler is in charge, and what the dice announces.

use vstd::prelude::*;
use crate::dice::{StateContext, StateDice, ROLLED_NUMBER};

verus! {

/// What a state does when the button is pressed.
///
/// A handler has no data of its own. It is described by two functions: the
/// context that a press leaves behind, and the line that the dice announces.
pub trait State {
    /// The context that a press leaves behind when it finds `context`.
    spec fn after_press(&self, context: StateContext) -> StateContext;

    /// The line that the dice announces on a press.
    spec fn announcement(&self) -> Seq<char>;

    /// Takes one press of the button: updates `context` and returns the
    /// line to announce.
    fn on_press_button(&self, context: &mut StateContext) -> (line: &'static str)
        ensures
            *final(context) == self.after_press(*old(context)),
            line@ == self.announcement(),
    ;
}

/// The handler of a dice that is switched on and shaking.
#[derive(Debug, Clone, Copy, PartialEq, Eq, Structural)]
pub struct StatePowerOn;

/// The handler of a dice that is being stopped.
#[derive(Debug, Clone, Copy, PartialEq, Eq, Structural)]
pub struct StateStop;

/// The handler of a dice that is being switched off.
#[derive(Debug, Clone, Copy, PartialEq, Eq, Structural)]
pub struct StatePowerOff;

impl State for StatePowerOn {
    /// The dice starts to shake: the next press stops it.
    open spec fn after_press(&self, context: StateContext) -> StateContext {
        StateContext { number: context.number, current_state: StateDice::StopDice }
    }

    open spec fn announcement(&self) -> Seq<char> {
        "Power on and Shake the dice."@
    }

    fn on_press_button(&self, context: &mut StateContext) -> (line: &'static str) {
        context.set_state(StateDice::StopDice);
        "Power on and Shake the dice."
    }
}

impl State for StateStop {
    /// The dice stops on its number: the next press switches it off.
    open spec fn after_press(&self, context: StateContext) -> StateContext {
        StateContext { number: Some(ROLLED_NUMBER), current_state: StateDice::PowerOff }
    }

    open spec fn announcement(&self) -> Seq<char> {
        "Stopping the dice."@
    }

    fn on_press_button(&self, context: &mut StateContext) -> (line: &'static str) {
        context.set_dice_number(ROLLED_NUMBER);
        context.set_state(StateDice::PowerOff);
        "Stopping the dice."
    }
}

impl State for StatePowerOff {
    /// The dice goes dark: the next press switches it on again.
    open spec fn after_press(&self, context: StateContext) -> StateContext {
        StateContext { number: context.number, current_state: StateDice::PowerOn }
    }

    open spec fn announcement(&self) -> Seq<char> {
        "Power off."@
    }

    fn on_press_button(&self, context: &mut StateContext) -> (line: &'static str) {
        context.set_state(StateDice::PowerOn);
        "Power off."
    }
}

/// Any one of the three handlers, so that one table can hold them side by
/// side. It behaves as the handler it holds.
#[derive(Debug, Clone, Copy, PartialEq, Eq, Structural)]
pub enum Handler {
    /// Starts the shake.
    PowerOn(StatePowerOn),
    /// Stops the dice on its number.
    Stop(StateStop),
    /// Switches the dice off.
    PowerOff(StatePowerOff),
}

impl State for Handler {
    open spec fn after_press(&self, context: StateContext) -> StateContext {
        match self {
            Handler::PowerOn(h) => h.after_press(context),
            Handler::Stop(h) => h.after_press(context),
            Handler::PowerOff(h) => h.after_press(context),
        }
    }

    open spec fn announcement(&self) -> Seq<char> {
        match self {
            Handler::PowerOn(h) => h.announcement(),
            Handler::Stop(h) => h.announcement(),
            Handler::PowerOff(h) => h.announcement(),
        }
    }

    fn on_press_button(&self, context: &mut StateContext) -> (line: &'static str) {
        match self {
            Handler::PowerOn(h) => h.on_press_button(context),
            Handler::Stop(h) => h.on_press_button(context),
            Handler::PowerOff(h) => h.on_press_button(context),
        }
    }
}

} // verus!
