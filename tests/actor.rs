use parallel_core::actor::{ActorError, ActorMessage, PrintingActor, Reply, DEFAULT_PERIOD_MS};

fn active_after(cmds: Vec<ActorMessage>) -> bool {
    let mut actor = PrintingActor::new();
    for c in cmds {
        actor.handle_message(c).unwrap();
    }
    actor.is_active()
}

#[test]
fn fresh_actor_is_active_without_message() {
    let actor = PrintingActor::new();
    assert!(actor.is_active());
    assert_eq!(actor.message(), None);
    assert_eq!(actor.print_count(), 0);
    assert_eq!(actor.period_ms(), DEFAULT_PERIOD_MS);
    assert_eq!(DEFAULT_PERIOD_MS, 100);
}

#[test]
fn active_flag_is_net_effect_of_commands() {
    assert!(active_after(vec![ActorMessage::SetActive, ActorMessage::SetActive]));
    assert!(!active_after(vec![ActorMessage::ToggleActive]));
    assert!(active_after(vec![ActorMessage::ToggleActive, ActorMessage::ToggleActive]));
    assert!(!active_after(vec![
        ActorMessage::SetInactive,
        ActorMessage::ToggleActive,
        ActorMessage::ToggleActive,
    ]));
    assert!(active_after(vec![
        ActorMessage::SetInactive,
        ActorMessage::SetMessage("m".to_string()),
        ActorMessage::ToggleActive,
        ActorMessage::GetStatus,
    ]));
    assert!(!active_after(vec![
        ActorMessage::ToggleActive,
        ActorMessage::SetActive,
        ActorMessage::SetInactive,
    ]));
}

#[test]
fn init_message_twice_fails_and_keeps_first() {
    let mut actor = PrintingActor::new();
    assert_eq!(actor.handle_message(ActorMessage::InitMessage("first".to_string())).unwrap(), Reply::Done);
    let err = actor.handle_message(ActorMessage::InitMessage("second".to_string())).unwrap_err();
    match &err {
        ActorError::MessageAlreadySet(m) => assert_eq!(m, "first"),
    }
    assert_eq!(err.describe(), "Message already set: first");
    assert_eq!(actor.message(), Some("first".to_string()));
}

#[test]
fn set_message_replaces() {
    let mut actor = PrintingActor::new();
    actor.handle_message(ActorMessage::SetMessage("a".to_string())).unwrap();
    actor.handle_message(ActorMessage::SetMessage("b".to_string())).unwrap();
    assert_eq!(actor.message(), Some("b".to_string()));
}

#[test]
fn queries_answer_from_state() {
    let mut actor = PrintingActor::new();
    actor.handle_message(ActorMessage::SetMessage("hi".to_string())).unwrap();
    assert_eq!(actor.tick(), Some("hi".to_string()));
    assert_eq!(actor.tick(), Some("hi".to_string()));
    assert_eq!(actor.handle_message(ActorMessage::GetPrintCount).unwrap(), Reply::PrintCount(2));
    assert_eq!(actor.handle_message(ActorMessage::GetStatus).unwrap(), Reply::Status(true));
    assert_eq!(actor.handle_message(ActorMessage::SetPeriod(250)).unwrap(), Reply::Rearm(250));
    assert_eq!(actor.period_ms(), 250);
    assert_eq!(actor.print_count(), 2);
}

#[test]
fn ticks_count_only_when_active_with_message() {
    let mut actor = PrintingActor::new();
    assert_eq!(actor.tick(), None);
    assert_eq!(actor.print_count(), 0);
    actor.handle_message(ActorMessage::SetMessage("x".to_string())).unwrap();
    for expected in 1..=7u32 {
        assert_eq!(actor.tick(), Some("x".to_string()));
        assert_eq!(actor.print_count(), expected);
    }
    actor.handle_message(ActorMessage::SetInactive).unwrap();
    for _ in 0..20 {
        assert_eq!(actor.tick(), None);
    }
    assert_eq!(actor.print_count(), 7);
}

#[test]
fn round_trip_scenario() {
    // Period 50 ms; 260 ms of wall time give five timer ticks.
    let mut actor = PrintingActor::new();
    assert_eq!(actor.handle_message(ActorMessage::SetPeriod(50)).unwrap(), Reply::Rearm(50));
    actor.handle_message(ActorMessage::SetMessage("x".to_string())).unwrap();
    actor.handle_message(ActorMessage::SetActive).unwrap();
    let elapsed_ms: u64 = 260;
    for _ in 0..(elapsed_ms / actor.period_ms()) {
        actor.tick();
    }
    let count = actor.print_count();
    assert!(count == 4 || count == 5);
    actor.handle_message(ActorMessage::ToggleActive).unwrap();
    for _ in 0..(200 / actor.period_ms()) {
        actor.tick();
    }
    assert_eq!(actor.print_count(), count);
}
