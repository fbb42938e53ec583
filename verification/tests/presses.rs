use state::{Handler, State, StateContext, StateDice, StatePowerOff, StatePowerOn, StateStop, StateTable, ROLLED_NUMBER};

#[test]
fn rolled_number_is_four() {
    assert_eq!(ROLLED_NUMBER, 4);
}

#[test]
fn new_context_is_switched_on_without_a_number() {
    let context = StateContext::new();
    assert_eq!(context.current_state, StateDice::PowerOn);
    assert_eq!(context.number, None);
}

#[test]
fn one_press_reaches_stop_dice_without_a_number() {
    let table = StateTable::standard();
    let mut context = StateContext::new();
    context.press_button(&table);
    assert_eq!(context.current_state, StateDice::StopDice);
    assert_eq!(context.number, None);
}

#[test]
fn three_presses_return_to_power_on_with_number_four() {
    let table = StateTable::standard();
    let mut context = StateContext::new();
    context.press_button(&table);
    context.press_button(&table);
    context.press_button(&table);
    assert_eq!(context.current_state, StateDice::PowerOn);
    assert_eq!(context.number, Some(4));
}

#[test]
fn three_presses_go_through_the_whole_cycle() {
    let table = StateTable::standard();
    let mut context = StateContext::new();
    assert_eq!(context.current_state, StateDice::PowerOn);
    context.press_button(&table);
    assert_eq!(context.current_state, StateDice::StopDice);
    context.press_button(&table);
    assert_eq!(context.current_state, StateDice::PowerOff);
    context.press_button(&table);
    assert_eq!(context.current_state, StateDice::PowerOn);
}

#[test]
fn number_is_unset_until_the_dice_is_stopped() {
    let table = StateTable::standard();
    let mut context = StateContext::new();
    assert_eq!(context.number, None);
    context.press_button(&table);
    assert_eq!(context.number, None);
    context.press_button(&table);
    assert_eq!(context.number, Some(4));
}

#[test]
fn number_stays_four_on_every_later_press() {
    let table = StateTable::standard();
    let mut context = StateContext::new();
    context.press_button(&table);
    context.press_button(&table);
    let mut presses = 2;
    while presses < 20 {
        assert_eq!(context.number, Some(4));
        context.press_button(&table);
        presses += 1;
    }
    assert_eq!(context.number, Some(4));
}

#[test]
fn state_after_many_presses_follows_the_count_modulo_three() {
    let table = StateTable::standard();
    let mut context = StateContext::new();
    let cycle = [StateDice::PowerOn, StateDice::StopDice, StateDice::PowerOff];
    let mut presses = 0;
    while presses < 30 {
        assert_eq!(context.current_state, cycle[presses % 3]);
        context.press_button(&table);
        presses += 1;
    }
    assert_eq!(context.current_state, StateDice::PowerOn);
}

#[test]
fn three_presses_from_any_state_lead_to_the_same_state() {
    let table = StateTable::standard();
    for start in [StateDice::PowerOn, StateDice::StopDice, StateDice::PowerOff] {
        let mut context = StateContext::new();
        context.set_state(start);
        context.press_button(&table);
        context.press_button(&table);
        context.press_button(&table);
        assert_eq!(context.current_state, start);
    }
}

#[test]
fn presses_announce_the_three_lines_in_turn() {
    let table = StateTable::standard();
    let mut context = StateContext::new();
    assert_eq!(context.press_button(&table), "Power on and Shake the dice.");
    assert_eq!(context.press_button(&table), "Stopping the dice.");
    assert_eq!(context.press_button(&table), "Power off.");
    assert_eq!(context.press_button(&table), "Power on and Shake the dice.");
}

#[test]
fn context_is_shown_with_its_number_and_state() {
    let table = StateTable::standard();
    let mut context = StateContext::new();
    context.press_button(&table);
    assert_eq!(format!("{:?}", context), "StateContext { number: None, current_state: StopDice }");
    context.press_button(&table);
    assert_eq!(format!("{:?}", context), "StateContext { number: Some(4), current_state: PowerOff }");
    context.press_button(&table);
    assert_eq!(format!("{:?}", context), "StateContext { number: Some(4), current_state: PowerOn }");
}

#[test]
fn set_state_keeps_the_number() {
    let mut context = StateContext::new();
    context.set_dice_number(6);
    context.set_state(StateDice::PowerOff);
    assert_eq!(context.current_state, StateDice::PowerOff);
    assert_eq!(context.number, Some(6));
}

#[test]
fn set_dice_number_keeps_the_state() {
    let mut context = StateContext::new();
    context.set_state(StateDice::StopDice);
    context.set_dice_number(2);
    assert_eq!(context.number, Some(2));
    assert_eq!(context.current_state, StateDice::StopDice);
    context.set_dice_number(255);
    assert_eq!(context.number, Some(255));
    assert_eq!(context.current_state, StateDice::StopDice);
}

#[test]
fn power_on_handler_starts_the_shake_and_keeps_the_number() {
    for start in [StateDice::PowerOn, StateDice::StopDice, StateDice::PowerOff] {
        let mut context = StateContext::new();
        context.set_state(start);
        context.set_dice_number(1);
        let line = StatePowerOn.on_press_button(&mut context);
        assert_eq!(line, "Power on and Shake the dice.");
        assert_eq!(context.current_state, StateDice::StopDice);
        assert_eq!(context.number, Some(1));
    }
}

#[test]
fn stop_handler_rolls_four_and_moves_to_power_off() {
    for start in [StateDice::PowerOn, StateDice::StopDice, StateDice::PowerOff] {
        let mut context = StateContext::new();
        context.set_state(start);
        let line = StateStop.on_press_button(&mut context);
        assert_eq!(line, "Stopping the dice.");
        assert_eq!(context.current_state, StateDice::PowerOff);
        assert_eq!(context.number, Some(4));
    }
}

#[test]
fn stop_handler_overwrites_an_earlier_number() {
    let mut context = StateContext::new();
    context.set_dice_number(6);
    StateStop.on_press_button(&mut context);
    assert_eq!(context.number, Some(4));
}

#[test]
fn power_off_handler_returns_to_power_on_and_keeps_the_number() {
    for start in [StateDice::PowerOn, StateDice::StopDice, StateDice::PowerOff] {
        let mut context = StateContext::new();
        context.set_state(start);
        let line = StatePowerOff.on_press_button(&mut context);
        assert_eq!(line, "Power off.");
        assert_eq!(context.current_state, StateDice::PowerOn);
        assert_eq!(context.number, None);
    }
}

#[test]
fn any_handler_behaves_as_the_handler_it_holds() {
    let mut context = StateContext::new();
    assert_eq!(Handler::Stop(StateStop).on_press_button(&mut context), "Stopping the dice.");
    assert_eq!(context, StateContext { number: Some(4), current_state: StateDice::PowerOff });
    assert_eq!(Handler::PowerOff(StatePowerOff).on_press_button(&mut context), "Power off.");
    assert_eq!(context, StateContext { number: Some(4), current_state: StateDice::PowerOn });
    assert_eq!(
        Handler::PowerOn(StatePowerOn).on_press_button(&mut context),
        "Power on and Shake the dice."
    );
    assert_eq!(context, StateContext { number: Some(4), current_state: StateDice::StopDice });
}
