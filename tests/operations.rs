use orion_store::clock::{
    clock_string, date_string, decimal_text, iso_string, long_date_string, padded_text,
    year_string, UtcInstant,
};
use orion_store::coordinator::{
    conversation_request, create_session, get_or_create_conversation, save_conversation_turn,
    session_request,
};
use orion_store::identity::{
    conversation_id_for, display_name_for, session_conversation_id, session_id_for, SessionKind,
};
use orion_store::protocol::{Protocol, StoreAction};
use orion_store::store::{StoreError, StoreWrite};
use orion_store::text::{contains, remove_all_text};
use orion_store::validation::{ConversationUpdate, MessageToSave};

fn instant() -> UtcInstant {
    UtcInstant { year: 2026, month: 1, day: 27, hour: 9, minute: 5, second: 3 }
}

fn message(id: &str, role: &str, created_at: &str) -> MessageToSave {
    MessageToSave {
        id: id.to_string(),
        role: role.to_string(),
        content: "hello".to_string(),
        tool_calls: None,
        tool_results: None,
        created_at: created_at.to_string(),
    }
}

fn turn(conversation_id: &str) -> ConversationUpdate {
    ConversationUpdate {
        conversation_id: conversation_id.to_string(),
        user_message: message("msg_u1", "user", "2026-01-27T12:00:00Z"),
        assistant_message: message("msg_a1", "assistant", "2026-01-27T12:00:01Z"),
        session_id: None,
    }
}

/// Drives a protocol with the given answers, one per action asked, and
/// returns the actions seen.
fn drive(proto: &mut Protocol, answers: &[bool]) -> Vec<StoreAction> {
    let mut seen = Vec::new();
    let mut k = 0;
    loop {
        let action = proto.action();
        seen.push(action);
        if action == StoreAction::Finish {
            return seen;
        }
        proto.advance(answers[k]);
        k += 1;
    }
}

fn unwrap_protocol(r: Result<Protocol, StoreError>) -> Protocol {
    match r {
        Ok(p) => p,
        Err(e) => panic!("unexpected error: {}", e.message()),
    }
}

#[test]
fn formats_of_an_instant() {
    let t = instant();
    assert_eq!(date_string(&t), "2026-01-27");
    assert_eq!(iso_string(&t), "2026-01-27T09:05:03Z");
    assert_eq!(long_date_string(&t), "January 27, 2026");
    assert_eq!(clock_string(&t), "09:05");
}

#[test]
fn year_forms() {
    assert_eq!(year_string(999), "0999");
    assert_eq!(year_string(12345), "+12345");
    assert_eq!(year_string(-1), "-0001");
    assert_eq!(decimal_text(0), "0");
    assert_eq!(decimal_text(4096), "4096");
    assert_eq!(padded_text(7, 2), "07");
    assert_eq!(padded_text(123, 2), "123");
}

#[test]
fn every_month_has_its_name() {
    let names = [
        "January", "February", "March", "April", "May", "June", "July", "August", "September",
        "October", "November", "December",
    ];
    for (i, name) in names.iter().enumerate() {
        let t = UtcInstant { month: i as u32 + 1, day: 5, ..instant() };
        assert_eq!(long_date_string(&t), format!("{} 05, 2026", name));
    }
}

#[test]
fn classify_session_kinds() {
    assert_eq!(SessionKind::classify(&"daily".to_string()), SessionKind::Daily);
    assert_eq!(SessionKind::classify(&"project".to_string()), SessionKind::Project);
    assert_eq!(SessionKind::classify(&"inbox".to_string()), SessionKind::Inbox);
    assert_eq!(SessionKind::classify(&"adhoc".to_string()), SessionKind::Adhoc);
    assert_eq!(SessionKind::classify(&"Daily".to_string()), SessionKind::Adhoc);
}

#[test]
fn conversation_ids_by_kind() {
    let t = instant();
    let fresh = "f00d".to_string();
    let p = Some("web".to_string());
    assert_eq!(conversation_id_for(SessionKind::Daily, &p, &t, &fresh), "conv_daily_2026-01-27");
    assert_eq!(conversation_id_for(SessionKind::Project, &p, &t, &fresh), "conv_proj_web");
    assert_eq!(conversation_id_for(SessionKind::Project, &None, &t, &fresh), "conv_proj_default");
    assert_eq!(conversation_id_for(SessionKind::Inbox, &p, &t, &fresh), "conv_inbox_2026-01-27");
    assert_eq!(conversation_id_for(SessionKind::Adhoc, &p, &t, &fresh), "conv_adhoc_f00d");
}

#[test]
fn session_ids_and_names_by_kind() {
    let t = instant();
    let fresh = "f00d".to_string();
    assert_eq!(session_id_for(SessionKind::Daily, &None, &t, &fresh), "orion-daily-2026-01-27");
    assert_eq!(session_id_for(SessionKind::Project, &None, &t, &fresh), "orion-project-default");
    assert_eq!(session_id_for(SessionKind::Inbox, &None, &t, &fresh), "orion-inbox-2026-01-27");
    assert_eq!(session_id_for(SessionKind::Adhoc, &None, &t, &fresh), "orion-adhoc-f00d");
    assert_eq!(display_name_for(SessionKind::Daily, &None, &t), "Daily - January 27, 2026");
    assert_eq!(display_name_for(SessionKind::Project, &None, &t), "Project: Untitled");
    assert_eq!(
        display_name_for(SessionKind::Project, &Some("Website".to_string()), &t),
        "Project: Website"
    );
    assert_eq!(display_name_for(SessionKind::Inbox, &None, &t), "Inbox Processing");
    assert_eq!(display_name_for(SessionKind::Adhoc, &None, &t), "Session at 09:05");
}

#[test]
fn session_conversation_strips_every_prefix() {
    assert_eq!(session_conversation_id(&"orion-daily-2026-01-27".to_string()), "conv_daily-2026-01-27");
    assert_eq!(
        session_conversation_id(&"orion-project-my-orion-site".to_string()),
        "conv_project-my-site"
    );
    assert_eq!(remove_all_text("aaaa", "aa"), "");
    assert_eq!(remove_all_text("abab", "ba"), "ab");
    assert_eq!(remove_all_text("xyz", "xyzw"), "xyz");
}

#[test]
fn contains_finds_substrings() {
    assert!(contains("/home/u/Orion/x", "Orion"));
    assert!(!contains("/home/u/orion/x", "Orion"));
    assert!(contains("a..b", ".."));
    assert!(contains("", ""));
    assert!(!contains("", "a"));
}

#[test]
fn turn_with_invalid_message_fails_before_storage() {
    let mut update = turn("conv_1");
    update.assistant_message.created_at = "2026-01-27T24:00:00Z".to_string();
    match save_conversation_turn(update) {
        Err(StoreError::Validation(m)) => assert_eq!(m, "Invalid timestamp: hour must be 0-23"),
        _ => panic!("expected a validation error"),
    }
    let mut update = turn("conv_1");
    update.user_message.id = "-x".to_string();
    update.assistant_message.id = "".to_string();
    match save_conversation_turn(update) {
        Err(StoreError::Validation(m)) => {
            assert_eq!(m, "Message ID must start with alphanumeric character")
        }
        _ => panic!("expected a validation error"),
    }
}

#[test]
fn turn_plan_writes_in_order() {
    let proto = unwrap_protocol(save_conversation_turn(turn("conv_1")));
    let plan = &proto.plan;
    assert!(plan.in_transaction);
    assert_eq!(plan.lookup.as_deref(), Some("conv_1"));
    assert_eq!(plan.writes.len(), 4);
    match &plan.writes[0].write {
        StoreWrite::InsertConversation { row, if_absent } => {
            assert!(!if_absent);
            assert_eq!(row.id, "conv_1");
            assert_eq!(row.kind, "adhoc");
            assert_eq!(row.sdk_session_id.as_deref(), Some(""));
            assert_eq!(row.started_at, "2026-01-27T12:00:00Z");
            assert_eq!(row.last_message_at.as_deref(), Some("2026-01-27T12:00:00Z"));
        }
        _ => panic!("expected the conversation insert first"),
    }
    assert!(plan.writes[0].only_if_absent);
    match &plan.writes[1].write {
        StoreWrite::InsertMessage { conversation_id, message } => {
            assert_eq!(conversation_id, "conv_1");
            assert_eq!(message.id, "msg_u1");
        }
        _ => panic!("expected the user message"),
    }
    match &plan.writes[2].write {
        StoreWrite::InsertMessage { message, .. } => assert_eq!(message.id, "msg_a1"),
        _ => panic!("expected the assistant message"),
    }
    match &plan.writes[3].write {
        StoreWrite::RecordTurn { conversation_id, last_message_at } => {
            assert_eq!(conversation_id, "conv_1");
            assert_eq!(last_message_at, "2026-01-27T12:00:01Z");
        }
        _ => panic!("expected the turn record"),
    }
}

#[test]
fn turn_on_existing_conversation_skips_creation() {
    let mut proto = unwrap_protocol(save_conversation_turn(turn("conv_1")));
    let seen = drive(&mut proto, &[true, true, true, true, true, true, true]);
    assert_eq!(
        seen,
        vec![
            StoreAction::Acquire,
            StoreAction::Begin,
            StoreAction::Lookup,
            StoreAction::Execute(1),
            StoreAction::Execute(2),
            StoreAction::Execute(3),
            StoreAction::Commit,
            StoreAction::Finish,
        ]
    );
    assert!(proto.finish().is_ok());
}

#[test]
fn turn_on_new_conversation_creates_it_first() {
    let mut proto = unwrap_protocol(save_conversation_turn(turn("conv_1")));
    let seen = drive(&mut proto, &[true, true, false, true, true, true, true, true]);
    assert_eq!(seen[3], StoreAction::Execute(0));
    assert_eq!(seen[4], StoreAction::Execute(1));
    assert_eq!(seen.len(), 9);
    assert!(proto.finish().is_ok());
}

#[test]
fn assistant_insert_failure_stops_before_commit() {
    let mut proto = unwrap_protocol(save_conversation_turn(turn("conv_1")));
    let seen = drive(&mut proto, &[true, true, true, true, false]);
    assert!(!seen.contains(&StoreAction::Commit));
    assert_eq!(seen.last(), Some(&StoreAction::Finish));
    match proto.finish() {
        Err(StoreError::WriteFailure(m)) => assert_eq!(m, "Failed to save assistant message"),
        _ => panic!("expected a write failure"),
    }
}

#[test]
fn turn_failures_report_their_step() {
    let cases: Vec<(Vec<bool>, &str)> = vec![
        (vec![false], "Database temporarily unavailable"),
        (vec![true, false], "Failed to start database operation"),
        (vec![true, true, false, false], "Failed to create conversation"),
        (vec![true, true, true, false], "Failed to save user message"),
        (vec![true, true, true, true, true, false], "Failed to update conversation"),
        (vec![true, true, true, true, true, true, false], "Failed to save conversation"),
    ];
    for (answers, text) in cases {
        let mut proto = unwrap_protocol(save_conversation_turn(turn("conv_1")));
        drive(&mut proto, &answers);
        let err = proto.finish().unwrap_err();
        assert_eq!(err.message(), text);
        match (text, err) {
            ("Database temporarily unavailable", StoreError::StorageUnavailable(_)) => {}
            ("Failed to start database operation", StoreError::StorageUnavailable(_)) => {}
            ("Failed to save conversation", StoreError::CommitFailure(_)) => {}
            (_, StoreError::WriteFailure(_)) => {}
            (t, _) => panic!("wrong kind for {}", t),
        }
    }
}

#[test]
fn conversation_request_for_daily() {
    let (id, mut proto) = conversation_request(
        "daily".to_string(),
        Some("sdk_1".to_string()),
        None,
        &instant(),
        &String::new(),
    );
    assert_eq!(id, "conv_daily_2026-01-27");
    assert!(!proto.plan.in_transaction);
    match &proto.plan.writes[0].write {
        StoreWrite::InsertConversation { row, if_absent } => {
            assert!(!if_absent);
            assert_eq!(row.kind, "daily");
            assert_eq!(row.sdk_session_id.as_deref(), Some("sdk_1"));
            assert_eq!(row.project_id.as_deref(), Some(""));
            assert_eq!(row.started_at, "2026-01-27T09:05:03Z");
            assert_eq!(row.last_message_at.as_deref(), Some("2026-01-27T09:05:03Z"));
        }
        _ => panic!("expected a conversation insert"),
    }
    let seen = drive(&mut proto, &[true, false, true]);
    assert_eq!(
        seen,
        vec![StoreAction::Acquire, StoreAction::Lookup, StoreAction::Execute(0), StoreAction::Finish]
    );
    assert!(proto.finish().is_ok());
}

#[test]
fn same_day_requests_share_one_conversation() {
    let morning = UtcInstant { hour: 0, minute: 0, second: 0, ..instant() };
    let night = UtcInstant { hour: 23, minute: 59, second: 59, ..instant() };
    let (first, _) = conversation_request("daily".to_string(), None, None, &morning, &String::new());
    let (second, mut proto) =
        conversation_request("daily".to_string(), None, None, &night, &String::new());
    assert_eq!(first, second);
    let seen = drive(&mut proto, &[true, true]);
    assert_eq!(seen, vec![StoreAction::Acquire, StoreAction::Lookup, StoreAction::Finish]);
    assert!(proto.finish().is_ok());
}

#[test]
fn conversation_insert_failure_is_reported() {
    let (_, mut proto) =
        conversation_request("inbox".to_string(), None, None, &instant(), &String::new());
    drive(&mut proto, &[true, false, false]);
    assert_eq!(proto.finish().unwrap_err().message(), "Failed to create conversation");
}

#[test]
fn get_or_create_daily_uses_today() {
    let (id, proto) = get_or_create_conversation("daily".to_string(), None, None);
    assert!(id.starts_with("conv_daily_"));
    let date = &id["conv_daily_".len()..];
    assert_eq!(date.len(), 10);
    assert_eq!(&date[4..5], "-");
    assert_eq!(&date[7..8], "-");
    assert!(date[0..4].chars().all(|c| c.is_ascii_digit()));
    assert_eq!(proto.plan.lookup.as_deref(), Some(id.as_str()));
}

#[test]
fn session_request_for_daily() {
    let (sid, mut proto) = session_request("daily".to_string(), None, &instant(), &String::new());
    assert_eq!(sid, "orion-daily-2026-01-27");
    assert!(proto.plan.in_transaction);
    assert!(proto.plan.lookup.is_none());
    match &proto.plan.writes[0].write {
        StoreWrite::InsertConversation { row, if_absent } => {
            assert!(*if_absent);
            assert_eq!(row.id, "conv_daily-2026-01-27");
            assert_eq!(row.kind, "daily");
            assert_eq!(row.project_id, None);
        }
        _ => panic!("expected a conversation insert"),
    }
    match &proto.plan.writes[1].write {
        StoreWrite::UpsertSession { session } => {
            assert_eq!(session.id, "orion-daily-2026-01-27");
            assert_eq!(session.conversation_id, "conv_daily-2026-01-27");
            assert_eq!(session.display_name, "Daily - January 27, 2026");
            assert_eq!(session.last_active, "2026-01-27T09:05:03Z");
        }
        _ => panic!("expected a session upsert"),
    }
    let seen = drive(&mut proto, &[true, true, true, true, true]);
    assert_eq!(
        seen,
        vec![
            StoreAction::Acquire,
            StoreAction::Begin,
            StoreAction::Execute(0),
            StoreAction::Execute(1),
            StoreAction::Commit,
            StoreAction::Finish,
        ]
    );
    assert!(proto.finish().is_ok());
}

#[test]
fn daily_session_then_turn_in_its_conversation() {
    let (sid, _) = session_request("daily".to_string(), None, &instant(), &String::new());
    let conv = session_conversation_id(&sid);
    assert_eq!(sid, "orion-daily-2026-01-27");
    let mut proto = unwrap_protocol(save_conversation_turn(turn(&conv)));
    match &proto.plan.writes[3].write {
        StoreWrite::RecordTurn { conversation_id, .. } => assert_eq!(conversation_id, &conv),
        _ => panic!("expected the turn record"),
    }
    drive(&mut proto, &[true, true, true, true, true, true, true]);
    assert!(proto.finish().is_ok());
}

#[test]
fn session_failures_report_their_step() {
    let cases: Vec<(Vec<bool>, &str)> = vec![
        (vec![true, false], "Transaction start failed"),
        (vec![true, true, false], "Failed to create conversation"),
        (vec![true, true, true, false], "Failed to create session index"),
        (vec![true, true, true, true, false], "Transaction commit failed"),
    ];
    for (answers, text) in cases {
        let (_, mut proto) =
            session_request("project".to_string(), None, &instant(), &String::new());
        drive(&mut proto, &answers);
        assert_eq!(proto.finish().unwrap_err().message(), text);
    }
}

#[test]
fn adhoc_sessions_get_fresh_uuid_ids() {
    let (a, _) = create_session("adhoc".to_string(), None);
    let (b, _) = create_session("something".to_string(), None);
    assert_ne!(a, b);
    for id in [&a, &b] {
        assert!(id.starts_with("orion-adhoc-"));
        let u = &id["orion-adhoc-".len()..];
        assert_eq!(u.len(), 36);
        for (i, c) in u.chars().enumerate() {
            if i == 8 || i == 13 || i == 18 || i == 23 {
                assert_eq!(c, '-');
            } else {
                assert!(c.is_ascii_digit() || ('a'..='f').contains(&c));
            }
        }
    }
}

#[test]
fn project_session_names_its_project() {
    let (sid, proto) = create_session("project".to_string(), Some("site".to_string()));
    assert_eq!(sid, "orion-project-site");
    match &proto.plan.writes[1].write {
        StoreWrite::UpsertSession { session } => {
            assert_eq!(session.display_name, "Project: site");
            assert_eq!(session.conversation_id, "conv_project-site");
        }
        _ => panic!("expected a session upsert"),
    }
}
