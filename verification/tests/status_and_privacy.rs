use secadora::database;
use secadora::dryer_manager::{DryerManager, MsgReply, TickOutcome};
use secadora::telegram::{MsgType, UserMessage};

fn user_msg(user_id: u64, kind: MsgType) -> UserMessage {
    UserMessage { message_id: Some(7), user_id, chat_id: 900 + user_id as i64, update: kind }
}

fn db_user(name: &str, balance_centavos: u64) -> database::User {
    database::User { telegram_id: 1, name: name.to_string(), balance_centavos }
}

/// Turns the dryer on for Alice (user 1) at t=0 and bills one hour at
/// 1100 W, so the session holds cost R$1.21 and 1.10 kWh.
fn session_after_one_hour() -> DryerManager {
    let mut m = DryerManager::new();
    let msg = user_msg(1, MsgType::TurnOn);
    let db = db_user("Alice", 1000);
    assert!(matches!(m.handle_telegram_msg(&msg, &db, 0, 0), MsgReply::AttemptTurnOn));
    m.finish_turn_on(&msg, &db, 0, true, Ok(0));
    assert!(matches!(
        m.tick(3600, Some(11_000)),
        TickOutcome::DiscountConsumed { .. }
    ));
    m
}

#[test]
fn own_status_shows_cost_and_balance() {
    let m = session_after_one_hour();
    let text = m.get_status_message(1, 1000, 3600, 11_000);
    assert_eq!(
        text,
        "Secando há 1h0m0s. Custo até o momento: R$1.21 referentes a 1.10 kwh consumidos. \
         Saldo remanescente de 10.00. Potencia atual: 1100.0W"
    );
}

#[test]
fn bystander_status_never_leaks_cost_or_balance() {
    let m = session_after_one_hour();
    // user 2 asks; their own persisted balance is R$5.55
    let text = m.get_status_message(2, 555, 3600, 11_000);
    assert_eq!(
        text,
        "Alice está usando a secadora há: 1h0m0s. O seu saldo remanescente é de: 5.55."
    );
    // neither the active user's cost nor their balance appears
    assert!(!text.contains("1.21"));
    assert!(!text.contains("10.00"));
    assert!(!text.contains("1.10"));
}

#[test]
fn idle_status_reports_available() {
    let m = DryerManager::new();
    let text = m.get_status_message(2, 555, 50, 0);
    assert_eq!(text, "A secadora está livre! Saldo remanescente: 5.55.");
}

#[test]
fn status_reply_keeps_chat_and_buttons() {
    let mut m = session_after_one_hour();
    let msg = user_msg(2, MsgType::GenericMsg);
    let db = database::User { telegram_id: 2, name: "Bob".to_string(), balance_centavos: 555 };
    match m.handle_telegram_msg(&msg, &db, 3600, 11_000) {
        MsgReply::Reply(r) => {
            assert_eq!(r.update_message_with_id, None); // a plain message gets a fresh reply
            assert_eq!(r.chat_id, 902);
            assert!(r.send_buttons);
            assert!(r.text.starts_with("Alice está usando"));
        }
        MsgReply::AttemptTurnOn => panic!("a status request must not touch hardware"),
    }
    // the refresh control edits the originating message instead
    let msg = user_msg(2, MsgType::Update);
    match m.handle_telegram_msg(&msg, &db, 3600, 11_000) {
        MsgReply::Reply(r) => assert_eq!(r.update_message_with_id, Some(7)),
        MsgReply::AttemptTurnOn => panic!("a refresh must not touch hardware"),
    }
}

#[test]
fn turn_on_while_in_use_replies_in_place() {
    let mut m = session_after_one_hour();
    let db = db_user("Alice", 1000);
    // the active user pressing the control again
    match m.handle_telegram_msg(&user_msg(1, MsgType::TurnOn), &db, 3600, 11_000) {
        MsgReply::Reply(r) => assert_eq!(r.text, "Você já está usando a secadora."),
        MsgReply::AttemptTurnOn => panic!("the active user must not re-run the hardware"),
    }
    assert!(m.is_on());
    // somebody else pressing it
    let db2 = database::User { telegram_id: 2, name: "Bob".to_string(), balance_centavos: 9000 };
    match m.handle_telegram_msg(&user_msg(2, MsgType::TurnOn), &db2, 3600, 11_000) {
        MsgReply::Reply(r) => {
            assert_eq!(r.text, "Alice está usando a secadora há: 1h0m0s");
        }
        MsgReply::AttemptTurnOn => panic!("a busy dryer must not be turned on again"),
    }
    assert!(m.is_on());
}

#[test]
fn successful_turn_on_confirms_with_balance() {
    let mut m = DryerManager::new();
    let msg = user_msg(1, MsgType::TurnOn);
    let db = db_user("Alice", 1234);
    assert!(matches!(m.handle_telegram_msg(&msg, &db, 0, 0), MsgReply::AttemptTurnOn));
    let reply = m.finish_turn_on(&msg, &db, 0, true, Ok(0));
    assert_eq!(reply.text, "Ligada, você tem R$12.34");
    assert_eq!(reply.update_message_with_id, Some(7));
    assert_eq!(reply.chat_id, 901);
    assert!(reply.send_buttons);
    assert!(m.is_on());
}

#[test]
fn set_balance_feeds_the_next_cutoff() {
    let mut m = session_after_one_hour();
    // the ledger write went through with a new, positive balance
    m.set_user_balance_centavos(879);
    match m.tick(3660, Some(11_000)) {
        TickOutcome::NotEnoughConsumptionToDiscountYet
        | TickOutcome::DiscountConsumed { .. } => {}
        other => panic!("a funded session must keep running: {:?}", other),
    }
    assert!(m.is_on());
    let text = m.get_status_message(1, 879, 3660, 11_000);
    assert!(text.contains("Saldo remanescente de 8.79."));
}
