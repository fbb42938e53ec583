//! What holds of every run of the dice: the cycle of its states, the life of
//! the rolled number, and the completeness of its table of handlers.
//!
//! The laws speak of `pressed`, of `StateContext::fresh` and of
//! `dice_handlers`, the functions in which `press_button`, `new` and
//! `StateTable::standard` state what they do.

use vstd::prelude::*;
use crate::dice::{pressed, StateContext, StateDice, ROLLED_NUMBER};
use crate::handlers::{Handler, StatePowerOff, StatePowerOn, StateStop};
use crate::table::dice_handlers;

verus! {

/// The state that follows `state` in the cycle of the dice.
pub open spec fn successor(state: StateDice) -> StateDice {
    match state {
        StateDice::PowerOn => StateDice::StopDice,
        StateDice::StopDice => StateDice::PowerOff,
        StateDice::PowerOff => StateDice::PowerOn,
    }
}

/// The handler that belongs to the identity `state`.
pub open spec fn handler_of(state: StateDice) -> Handler {
    match state {
        StateDice::PowerOn => Handler::PowerOn(StatePowerOn),
        StateDice::StopDice => Handler::Stop(StateStop),
        StateDice::PowerOff => Handler::PowerOff(StatePowerOff),
    }
}

/// The context after `n` presses that start from `context`, with the
/// handlers registered as in `handlers`.
pub open spec fn presses(handlers: Map<StateDice, Handler>, context: StateContext, n: nat)
    -> StateContext
    decreases n,
{
    if n == 0 {
        context
    } else {
        pressed(handlers, presses(handlers, context, (n - 1) as nat))
    }
}

/// The table of the dice is total and holds nothing twice: every identity
/// has a handler, it is the handler that belongs to that identity, and the
/// table holds three registrations for the three identities.
pub proof fn law_table_is_total(state: StateDice)
    ensures
        dice_handlers().contains_key(state),
        dice_handlers()[state] == handler_of(state),
        dice_handlers().dom().finite(),
        dice_handlers().dom().len() == 3,
{
    let all = set![StateDice::PowerOn, StateDice::StopDice, StateDice::PowerOff];
    assert(dice_handlers().dom() =~= all);
}

/// One press moves the dice to the next state of its cycle, whatever number
/// it shows.
pub proof fn law_press_moves_to_successor(context: StateContext)
    ensures
        pressed(dice_handlers(), context).current_state == successor(context.current_state),
{
    law_table_is_total(context.current_state);
}

/// A press changes the number only when it stops the dice, and then the
/// number is the rolled one.
pub proof fn law_press_rolls_only_on_stop(context: StateContext)
    ensures
        context.current_state == StateDice::StopDice ==> pressed(dice_handlers(), context).number
            == Some(ROLLED_NUMBER),
        context.current_state != StateDice::StopDice ==> pressed(dice_handlers(), context).number
            == context.number,
{
    law_table_is_total(context.current_state);
}

/// Three presses bring the dice back to the state it started in: a fresh
/// dice goes from `PowerOn` to `StopDice`, to `PowerOff`, and to `PowerOn`
/// again, and so on with every further press.
pub proof fn law_states_cycle(n: nat)
    ensures
        n % 3 == 0 ==> presses(dice_handlers(), StateContext::fresh(), n).current_state
            == StateDice::PowerOn,
        n % 3 == 1 ==> presses(dice_handlers(), StateContext::fresh(), n).current_state
            == StateDice::StopDice,
        n % 3 == 2 ==> presses(dice_handlers(), StateContext::fresh(), n).current_state
            == StateDice::PowerOff,
    decreases n,
{
    if n > 0 {
        let earlier = (n - 1) as nat;
        law_states_cycle(earlier);
        law_press_moves_to_successor(presses(dice_handlers(), StateContext::fresh(), earlier));
    }
}

/// From whatever context the presses start, three more presses lead to the
/// same state again.
pub proof fn law_period_is_three(context: StateContext, n: nat)
    ensures
        presses(dice_handlers(), context, n + 3).current_state == presses(
            dice_handlers(),
            context,
            n,
        ).current_state,
{
    let one = presses(dice_handlers(), context, n + 1);
    let two = presses(dice_handlers(), context, n + 2);
    law_press_moves_to_successor(presses(dice_handlers(), context, n));
    law_press_moves_to_successor(one);
    law_press_moves_to_successor(two);
}

/// A fresh dice shows no number until its second press, the one that stops
/// it; from then on it shows the rolled number.
pub proof fn law_number_appears_at_second_press(n: nat)
    ensures
        n < 2 ==> presses(dice_handlers(), StateContext::fresh(), n).number is None,
        n >= 2 ==> presses(dice_handlers(), StateContext::fresh(), n).number == Some(
            ROLLED_NUMBER,
        ),
    decreases n,
{
    if n > 0 {
        let earlier = (n - 1) as nat;
        law_number_appears_at_second_press(earlier);
        law_states_cycle(earlier);
        law_press_rolls_only_on_stop(presses(dice_handlers(), StateContext::fresh(), earlier));
    }
}

/// No press clears the number: a dice that shows a number shows one after
/// any number of further presses.
pub proof fn law_number_is_never_cleared(context: StateContext, n: nat)
    requires
        context.number is Some,
    ensures
        presses(dice_handlers(), context, n).number is Some,
    decreases n,
{
    if n > 0 {
        let earlier = (n - 1) as nat;
        law_number_is_never_cleared(context, earlier);
        law_press_rolls_only_on_stop(presses(dice_handlers(), context, earlier));
    }
}

/// Once the rolled number shows, no press takes it away or changes it.
pub proof fn law_rolled_number_stays(context: StateContext, n: nat)
    requires
        context.number == Some(ROLLED_NUMBER),
    ensures
        presses(dice_handlers(), context, n).number == Some(ROLLED_NUMBER),
    decreases n,
{
    if n > 0 {
        let earlier = (n - 1) as nat;
        law_rolled_number_stays(context, earlier);
        law_press_rolls_only_on_stop(presses(dice_handlers(), context, earlier));
    }
}

} // verus!
