use secadora::database;
use secadora::dryer_machine::OffState;
use secadora::dryer_manager::{DryerManager, MsgReply, State, TickOutcome};
use secadora::pzemv3::DeviceError;
use secadora::telegram::{MsgType, UserMessage};

fn user_msg(user_id: u64, kind: MsgType) -> UserMessage {
    UserMessage { message_id: Some(42), user_id, chat_id: 900 + user_id as i64, update: kind }
}

fn db_user(name: &str, balance_centavos: u64) -> database::User {
    database::User { telegram_id: 1, name: name.to_string(), balance_centavos }
}

/// Drives a full successful turn-on for user 1 at `now_s`.
fn turned_on_manager(balance_centavos: u64, now_s: u64) -> DryerManager {
    let mut m = DryerManager::new();
    let msg = user_msg(1, MsgType::TurnOn);
    let db = db_user("Alice", balance_centavos);
    match m.handle_telegram_msg(&msg, &db, now_s, 0) {
        MsgReply::AttemptTurnOn => {}
        MsgReply::Reply(r) => panic!("expected the hardware go-ahead, got reply: {}", r.text),
    }
    let reply = m.finish_turn_on(&msg, &db, now_s, true, Ok(0));
    assert!(m.is_on());
    assert!(reply.text.starts_with("Ligada"));
    m
}

#[test]
fn typestate_transitions() {
    // a refused relay keeps the machine off with a transport error
    let off = OffState::new();
    let (off, e) = off.turn_on(false).err().expect("relay refusal must fail");
    assert_eq!(e, DeviceError::TransportIo);

    // a nonzero energy counter after reset rolls back
    let pending = off.turn_on(true).ok().expect("relay ok must proceed");
    let (off, e) = pending.confirm_reset(Ok(7)).err().expect("nonzero energy must fail");
    assert_eq!(e, DeviceError::ResetVerification);

    // a failed reset exchange rolls back with its own error
    let pending = off.turn_on(true).ok().expect("relay ok must proceed");
    let (off, e) = pending.confirm_reset(Err(DeviceError::Checksum)).err().unwrap();
    assert_eq!(e, DeviceError::Checksum);

    // a verified zero counter reaches the on state, which can turn off
    let pending = off.turn_on(true).ok().unwrap();
    let on = pending.confirm_reset(Ok(0)).ok().expect("zero energy must succeed");
    let _off = on.turn_off();
}

#[test]
fn rejection_below_minimum_balance() {
    let mut m = DryerManager::new();
    let msg = user_msg(1, MsgType::TurnOn);
    let db = db_user("Alice", 50); // R$0.50, minimum is R$1.00
    match m.handle_telegram_msg(&msg, &db, 0, 0) {
        MsgReply::Reply(r) => {
            assert_eq!(
                r.text,
                "Você precisa de ao menos 1 reais de saldo para ligar a secadora, você possui: R$0.50."
            );
            assert_eq!(r.update_message_with_id, Some(42));
        }
        MsgReply::AttemptTurnOn => panic!("a short balance must not reach the hardware"),
    }
    assert!(!m.is_on());
}

#[test]
fn hardware_failure_leaves_machine_off() {
    let mut m = DryerManager::new();
    let msg = user_msg(1, MsgType::TurnOn);
    let db = db_user("Alice", 1000);
    match m.handle_telegram_msg(&msg, &db, 0, 0) {
        MsgReply::AttemptTurnOn => {}
        MsgReply::Reply(_) => panic!("a funded request must reach the hardware"),
    }
    let reply = m.finish_turn_on(&msg, &db, 0, false, Err(DeviceError::TransportIo));
    assert_eq!(reply.text, "Problema de hardware, fale com o operador.");
    assert!(!m.is_on());

    // reset verification failure rolls back too
    match m.handle_telegram_msg(&msg, &db, 0, 0) {
        MsgReply::AttemptTurnOn => {}
        MsgReply::Reply(_) => panic!("a funded request must reach the hardware"),
    }
    let reply = m.finish_turn_on(&msg, &db, 0, true, Ok(3));
    assert_eq!(reply.text, "Problema de hardware, fale com o operador.");
    assert!(!m.is_on());
}

#[test]
fn balance_cutoff_on_same_tick() {
    let mut m = turned_on_manager(1000, 0);
    m.set_user_balance_centavos(0);
    // the cutoff fires regardless of the power reading
    match m.tick(10, Some(50_000)) {
        TickOutcome::TurnOffAndRemoveUserOutOfMoney(stats) => {
            assert_eq!(stats.user.balance_centavos, 0);
            assert_eq!(stats.start_time_s, 0);
        }
        _ => panic!("an exhausted balance must end the session on its own tick"),
    }
    assert!(!m.is_on());
}

#[test]
fn idle_auto_off_after_threshold() {
    let mut m = turned_on_manager(1000, 0);
    // zero power marks idleness at t=5 but does not yet turn off
    assert!(matches!(m.tick(5, Some(0)), TickOutcome::NotEnoughConsumptionToDiscountYet));
    assert!(m.is_on());
    assert!(matches!(m.tick(10, Some(0)), TickOutcome::NotEnoughConsumptionToDiscountYet));
    assert!(m.is_on());
    // 20 idle seconds elapsed since the marker: off
    match m.tick(25, Some(0)) {
        TickOutcome::TurnedOffDueToIdleTooLong(stats) => {
            assert_eq!(stats.start_time_s, 0);
            assert_eq!(stats.time_last_tick_update_s, 10);
            assert_eq!(stats.total_consumed_and_discounted_centavos, 0);
        }
        _ => panic!("twenty idle seconds must end the session"),
    }
    assert!(!m.is_on());
}

#[test]
fn real_power_clears_the_idle_marker() {
    let mut m = turned_on_manager(1000, 0);
    assert!(matches!(m.tick(5, Some(0)), TickOutcome::NotEnoughConsumptionToDiscountYet));
    // drawing power again clears the marker...
    assert!(matches!(m.tick(10, Some(5000)), TickOutcome::NotEnoughConsumptionToDiscountYet));
    // ...so 20 more idle seconds are needed, counted from t=15
    assert!(matches!(m.tick(15, Some(0)), TickOutcome::NotEnoughConsumptionToDiscountYet));
    assert!(m.is_on());
    assert!(matches!(m.tick(30, Some(0)), TickOutcome::NotEnoughConsumptionToDiscountYet));
    assert!(m.is_on());
    assert!(matches!(m.tick(35, Some(0)), TickOutcome::TurnedOffDueToIdleTooLong(_)));
    assert!(!m.is_on());
}

#[test]
fn worked_example_one_hour_at_1100_watts() {
    // price 1.10 R$/kWh, constant 1100 W for 3600 s => 1.1 kWh, R$1.21
    let mut m = turned_on_manager(1000, 0);
    let mut billed_centavos: u64 = 0;
    let mut billed_dj: u64 = 0;
    let mut last_total: u64 = 0;
    for i in 1..=60u64 {
        match m.tick(i * 60, Some(11_000)) {
            TickOutcome::DiscountConsumed { delta_energy_dj, delta_consumed_centavos, user } => {
                assert!(delta_consumed_centavos >= 1, "every charge is at least one centavo");
                assert_eq!(user.telegram_id, 1);
                billed_centavos += delta_consumed_centavos;
                billed_dj += delta_energy_dj;
            }
            TickOutcome::NotEnoughConsumptionToDiscountYet => {}
            other => panic!("unexpected outcome at minute {}: {:?}", i, other),
        }
        // billing monotonicity across the whole sequence
        match &m.state {
            State::On(on) => {
                assert!(on.cycle_stats.total_consumed_and_discounted_centavos >= last_total);
                last_total = on.cycle_stats.total_consumed_and_discounted_centavos;
            }
            State::OffState(_) => panic!("session must stay on"),
        }
    }
    assert_eq!(billed_centavos, 121); // R$1.21 exactly, no drift
    assert_eq!(billed_dj, 39_600_000); // 1.1 kWh in decijoules
    match &m.state {
        State::On(on) => {
            assert_eq!(on.cycle_stats.total_consumed_and_discounted_centavos, 121);
            assert_eq!(on.cycle_stats.total_consumed_centikwh(), 110); // 1.10 kWh
        }
        State::OffState(_) => panic!("session must stay on"),
    }
}

#[test]
fn single_tick_bills_exactly() {
    let mut m = turned_on_manager(1000, 0);
    match m.tick(3600, Some(11_000)) {
        TickOutcome::DiscountConsumed { delta_energy_dj, delta_consumed_centavos, .. } => {
            assert_eq!(delta_energy_dj, 39_600_000);
            assert_eq!(delta_consumed_centavos, 121);
        }
        other => panic!("one full hour must bill: {:?}", other),
    }
}

#[test]
fn clock_regression_is_fatal() {
    let mut m = turned_on_manager(1000, 100);
    match m.tick(50, Some(0)) {
        TickOutcome::LogicError(stats) => assert_eq!(stats.start_time_s, 100),
        other => panic!("a clock running backwards must be fatal: {:?}", other),
    }
    assert!(!m.is_on());
}

#[test]
fn failed_meter_read_changes_nothing() {
    let mut m = turned_on_manager(1000, 0);
    assert!(matches!(m.tick(60, None), TickOutcome::NotEnoughConsumptionToDiscountYet));
    assert!(m.is_on());
    // the elapsed time was not consumed: the next good reading
    // integrates over the whole gap
    match m.tick(3600, Some(11_000)) {
        TickOutcome::DiscountConsumed { delta_energy_dj, .. } => {
            assert_eq!(delta_energy_dj, 39_600_000)
        }
        other => panic!("the gap must be integrated: {:?}", other),
    }
}

#[test]
fn tick_while_off_does_nothing() {
    let mut m = DryerManager::new();
    assert!(matches!(m.tick(10, Some(11_000)), TickOutcome::Off));
    assert!(!m.is_on());
}

#[test]
fn emergency_turn_off_always_ends_off() {
    let mut m = turned_on_manager(1000, 0);
    m.emergency_turn_off();
    assert!(!m.is_on());
    m.emergency_turn_off();
    assert!(!m.is_on());
}

#[test]
fn debited_balance_clamps_at_zero() {
    assert_eq!(database::debited_balance(1000, 300), 700);
    assert_eq!(database::debited_balance(100, 300), 0);
    assert_eq!(database::debited_balance(300, 300), 0);
}
