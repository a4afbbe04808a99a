//! The store operations: saving a turn, getting or creating a conversation,
//! creating a session. Each validates and derives what it needs before any
//! storage access, and hands back the `Protocol` that a driver runs.

use vstd::prelude::*;
use vstd::string::*;
use crate::clock::{date_text, iso_string, iso_text, utc_now, UtcInstant};
use crate::identity::{
    conversation_id_for, display_name_for, display_name_text, conversation_id_text, fresh_uuid,
    kind_of, session_conversation_id, session_conversation_text, session_id_for, session_id_text,
    text_or, uuid_shaped, SessionKind,
};
use crate::protocol::{
    lemma_transaction_all_or_nothing, next_write, run, start, Held, PlannedWrite, Plan, Protocol,
    Stage,
};
use crate::store::{
    conversation_record, message_record, messages_of, opt_text, ConversationRecord, Failure,
    MessageRecord, NewConversation, NewSession, StoreError, StoreModel, StoreWrite,
};
use crate::session::{loaded, SessionHead, StoredMessage};
use crate::validation::{message_fault_text, message_ok, ConversationUpdate};

verus! {

/// The plan that stores turn `u`: in one transaction, look the conversation
/// up; create it (ad-hoc, started and last written at the user message's
/// time) only if absent; insert the user message, then the assistant
/// message; then record the turn at the assistant message's time.
pub open spec fn is_turn_plan(p: Plan, u: ConversationUpdate) -> bool {
    &&& p.in_transaction
    &&& p.lookup == Some(u.conversation_id)
    &&& p.begin_failure == Failure::TurnBegin
    &&& p.commit_failure == Failure::TurnCommit
    &&& p.writes@.len() == 4
    &&& p.writes@[0].on_failure == Failure::ConversationInsert
    &&& p.writes@[0].only_if_absent
    &&& p.writes@[0].write matches StoreWrite::InsertConversation { row, if_absent }
        && !if_absent && row.id@ == u.conversation_id@ && conversation_record(row)
        == ConversationRecord {
        kind: "adhoc"@,
        sdk_session_id: Some(text_or(u.session_id, ""@)),
        project_id: None,
        started_at: u.user_message.created_at@,
        last_message_at: Some(u.user_message.created_at@),
        message_count: 0,
    }
    &&& p.writes@[1] == PlannedWrite {
        write: StoreWrite::InsertMessage {
            conversation_id: u.conversation_id,
            message: u.user_message,
        },
        on_failure: Failure::UserMessage,
        only_if_absent: false,
    }
    &&& p.writes@[2] == PlannedWrite {
        write: StoreWrite::InsertMessage {
            conversation_id: u.conversation_id,
            message: u.assistant_message,
        },
        on_failure: Failure::AssistantMessage,
        only_if_absent: false,
    }
    &&& p.writes@[3] == PlannedWrite {
        write: StoreWrite::RecordTurn {
            conversation_id: u.conversation_id,
            last_message_at: u.assistant_message.created_at,
        },
        on_failure: Failure::ConversationUpdate,
        only_if_absent: false,
    }
}

/// Checks both messages of a turn and, when they pass, plans storing it.
/// A message that fails validation ends the operation before any storage
/// access, with the user message checked first.
pub fn save_conversation_turn(update: ConversationUpdate) -> (r: Result<Protocol, StoreError>)
    ensures
        match r {
            Ok(proto) => message_ok(update.user_message) && message_ok(update.assistant_message)
                && is_turn_plan(proto.plan, update) && proto.progress() == start() && proto.wf(),
            Err(e) => e is Validation && if !message_ok(update.user_message) {
                e.text() == message_fault_text(update.user_message)
            } else {
                !message_ok(update.assistant_message) && e.text() == message_fault_text(
                    update.assistant_message,
                )
            },
        },
{
    match update.user_message.validate() {
        Ok(()) => {},
        Err(e) => return Err(StoreError::Validation(e)),
    }
    match update.assistant_message.validate() {
        Ok(()) => {},
        Err(e) => return Err(StoreError::Validation(e)),
    }
    let ghost u = update;
    let ConversationUpdate { conversation_id, user_message, assistant_message, session_id } =
        update;
    let sdk_session_id = match session_id {
        Some(s) => s,
        None => String::new(),
    };
    let row = NewConversation {
        id: conversation_id.clone(),
        kind: String::from_str("adhoc"),
        sdk_session_id: Some(sdk_session_id),
        project_id: None,
        started_at: user_message.created_at.clone(),
        last_message_at: Some(user_message.created_at.clone()),
    };
    let turn_time = assistant_message.created_at.clone();
    let mut writes: Vec<PlannedWrite> = Vec::new();
    writes.push(
        PlannedWrite {
            write: StoreWrite::InsertConversation { row, if_absent: false },
            on_failure: Failure::ConversationInsert,
            only_if_absent: true,
        },
    );
    writes.push(
        PlannedWrite {
            write: StoreWrite::InsertMessage {
                conversation_id: conversation_id.clone(),
                message: user_message,
            },
            on_failure: Failure::UserMessage,
            only_if_absent: false,
        },
    );
    writes.push(
        PlannedWrite {
            write: StoreWrite::InsertMessage {
                conversation_id: conversation_id.clone(),
                message: assistant_message,
            },
            on_failure: Failure::AssistantMessage,
            only_if_absent: false,
        },
    );
    writes.push(
        PlannedWrite {
            write: StoreWrite::RecordTurn {
                conversation_id: conversation_id.clone(),
                last_message_at: turn_time,
            },
            on_failure: Failure::ConversationUpdate,
            only_if_absent: false,
        },
    );
    let plan = Plan {
        in_transaction: true,
        lookup: Some(conversation_id),
        writes,
        begin_failure: Failure::TurnBegin,
        commit_failure: Failure::TurnCommit,
    };
    proof {
        reveal_strlit("");
    }
    assert(sdk_session_id@ == text_or(u.session_id, ""@));
    assert(is_turn_plan(plan, u));
    Ok(Protocol::new(plan))
}

/// The conversation row that `get_or_create_conversation` inserts: message
/// count zero, started and last written now, the correlation ids stored as
/// given (empty text where absent).
pub open spec fn fresh_conversation_row(
    session_type: Seq<char>,
    session_id: Option<String>,
    project_id: Option<String>,
    now: UtcInstant,
) -> ConversationRecord {
    ConversationRecord {
        kind: session_type,
        sdk_session_id: Some(text_or(session_id, ""@)),
        project_id: Some(text_or(project_id, ""@)),
        started_at: iso_text(now),
        last_message_at: Some(iso_text(now)),
        message_count: 0,
    }
}

/// The plan that gets or creates conversation `id`: outside a transaction,
/// look it up, and insert `row` under that id only if absent.
pub open spec fn is_conversation_plan(p: Plan, id: Seq<char>, row: ConversationRecord) -> bool {
    &&& !p.in_transaction
    &&& p.lookup matches Some(l) && l@ == id
    &&& p.writes@.len() == 1
    &&& p.writes@[0].on_failure == Failure::ConversationInsert
    &&& p.writes@[0].only_if_absent
    &&& p.writes@[0].write matches StoreWrite::InsertConversation { row: r, if_absent }
        && !if_absent && r.id@ == id && conversation_record(r) == row
}

/// Derives the conversation id for a session kind at instant `now` (`fresh`
/// serves ad-hoc sessions) and plans getting or creating it.
pub fn conversation_request(
    session_type: String,
    session_id: Option<String>,
    project_id: Option<String>,
    now: &UtcInstant,
    fresh: &String,
) -> (r: (String, Protocol))
    ensures
        r.0@ == conversation_id_text(kind_of(session_type@), project_id, *now, fresh@),
        is_conversation_plan(
            r.1.plan,
            r.0@,
            fresh_conversation_row(session_type@, session_id, project_id, *now),
        ),
        r.1.progress() == start(),
        r.1.wf(),
{
    let kind = SessionKind::classify(&session_type);
    let id = conversation_id_for(kind, &project_id, now, fresh);
    let ghost session_id_given = session_id;
    let ghost project_id_given = project_id;
    let sdk_session_id = match session_id {
        Some(s) => s,
        None => String::new(),
    };
    let project = match project_id {
        Some(s) => s,
        None => String::new(),
    };
    let row = NewConversation {
        id: id.clone(),
        kind: session_type,
        sdk_session_id: Some(sdk_session_id.clone()),
        project_id: Some(project.clone()),
        started_at: iso_string(now),
        last_message_at: Some(iso_string(now)),
    };
    let mut writes: Vec<PlannedWrite> = Vec::new();
    writes.push(
        PlannedWrite {
            write: StoreWrite::InsertConversation { row, if_absent: false },
            on_failure: Failure::ConversationInsert,
            only_if_absent: true,
        },
    );
    // Outside a transaction no begin or commit is asked for; the two
    // failures below are never reported.
    let plan = Plan {
        in_transaction: false,
        lookup: Some(id.clone()),
        writes,
        begin_failure: Failure::Unavailable,
        commit_failure: Failure::ConversationInsert,
    };
    proof {
        reveal_strlit("");
    }
    assert(sdk_session_id@ == text_or(session_id_given, ""@));
    assert(project@ == text_or(project_id_given, ""@));
    (id, Protocol::new(plan))
}

/// Gets or creates the conversation for a session kind: derives its id from
/// the current day (`daily`, `inbox`), the project key (`project`) or a
/// fresh random id (anything else), then plans the lookup and the insert if
/// absent. Nothing is known of the clock or the random id beyond their form.
pub fn get_or_create_conversation(
    session_type: String,
    session_id: Option<String>,
    project_id: Option<String>,
) -> (r: (String, Protocol))
    ensures
        exists|now: UtcInstant, fresh: Seq<char>|
            {
                &&& now.wf()
                &&& kind_of(session_type@) == SessionKind::Adhoc ==> uuid_shaped(fresh)
                &&& r.0@ == conversation_id_text(kind_of(session_type@), project_id, now, fresh)
                &&& is_conversation_plan(
                    r.1.plan,
                    r.0@,
                    fresh_conversation_row(session_type@, session_id, project_id, now),
                )
            },
        r.1.progress() == start(),
        r.1.wf(),
{
    let now = utc_now();
    let fresh = if SessionKind::classify(&session_type) == SessionKind::Adhoc {
        fresh_uuid()
    } else {
        String::new()
    };
    conversation_request(session_type, session_id, project_id, &now, &fresh)
}

/// The plan that creates session `sid` of type `session_type` at `now`: in
/// one transaction, insert its conversation unless one with that id exists,
/// then insert the session index row, or refresh its `last_active` if the
/// session exists.
pub open spec fn is_session_plan(
    p: Plan,
    sid: Seq<char>,
    session_type: Seq<char>,
    project_id: Option<String>,
    display_name: Seq<char>,
    now: UtcInstant,
) -> bool {
    &&& p.in_transaction
    &&& p.lookup is None
    &&& p.begin_failure == Failure::SessionBegin
    &&& p.commit_failure == Failure::SessionCommit
    &&& p.writes@.len() == 2
    &&& p.writes@[0].on_failure == Failure::ConversationInsert
    &&& !p.writes@[0].only_if_absent
    &&& p.writes@[0].write matches StoreWrite::InsertConversation { row, if_absent }
        && if_absent && row.id@ == session_conversation_text(sid) && conversation_record(row)
        == ConversationRecord {
        kind: session_type,
        sdk_session_id: None,
        project_id: crate::store::opt_text(project_id),
        started_at: iso_text(now),
        last_message_at: None,
        message_count: 0,
    }
    &&& p.writes@[1].on_failure == Failure::SessionIndex
    &&& !p.writes@[1].only_if_absent
    &&& p.writes@[1].write matches StoreWrite::UpsertSession { session }
        && session.id@ == sid && session.conversation_id@ == session_conversation_text(sid)
        && session.kind@ == session_type && session.display_name@ == display_name
        && session.last_active@ == iso_text(now)
}

/// Derives the session id, display name and conversation id for a session
/// kind at instant `now` (`fresh` serves ad-hoc sessions) and plans creating
/// the session.
pub fn session_request(
    session_type: String,
    project_id: Option<String>,
    now: &UtcInstant,
    fresh: &String,
) -> (r: (String, Protocol))
    ensures
        r.0@ == session_id_text(kind_of(session_type@), project_id, *now, fresh@),
        is_session_plan(
            r.1.plan,
            r.0@,
            session_type@,
            project_id,
            display_name_text(kind_of(session_type@), project_id, *now),
            *now,
        ),
        r.1.progress() == start(),
        r.1.wf(),
{
    let kind = SessionKind::classify(&session_type);
    let sid = session_id_for(kind, &project_id, now, fresh);
    let display_name = display_name_for(kind, &project_id, now);
    let conv_id = session_conversation_id(&sid);
    let stamp = iso_string(now);
    let row = NewConversation {
        id: conv_id.clone(),
        kind: session_type.clone(),
        sdk_session_id: None,
        project_id,
        started_at: stamp.clone(),
        last_message_at: None,
    };
    let session = NewSession {
        id: sid.clone(),
        conversation_id: conv_id,
        kind: session_type,
        display_name,
        last_active: stamp,
    };
    let mut writes: Vec<PlannedWrite> = Vec::new();
    writes.push(
        PlannedWrite {
            write: StoreWrite::InsertConversation { row, if_absent: true },
            on_failure: Failure::ConversationInsert,
            only_if_absent: false,
        },
    );
    writes.push(
        PlannedWrite {
            write: StoreWrite::UpsertSession { session },
            on_failure: Failure::SessionIndex,
            only_if_absent: false,
        },
    );
    let plan = Plan {
        in_transaction: true,
        lookup: None,
        writes,
        begin_failure: Failure::SessionBegin,
        commit_failure: Failure::SessionCommit,
    };
    (sid, Protocol::new(plan))
}

/// Creates a session of a kind: derives its id and display name from the
/// current instant, the project key or a fresh random id, and plans
/// inserting its conversation (if absent) and its index row (or refreshing
/// it) in one transaction.
pub fn create_session(session_type: String, project_id: Option<String>) -> (r: (
    String,
    Protocol,
))
    ensures
        exists|now: UtcInstant, fresh: Seq<char>|
            {
                &&& now.wf()
                &&& kind_of(session_type@) == SessionKind::Adhoc ==> uuid_shaped(fresh)
                &&& r.0@ == session_id_text(kind_of(session_type@), project_id, now, fresh)
                &&& is_session_plan(
                    r.1.plan,
                    r.0@,
                    session_type@,
                    project_id,
                    display_name_text(kind_of(session_type@), project_id, now),
                    now,
                )
            },
        r.1.progress() == start(),
        r.1.wf(),
{
    let now = utc_now();
    let fresh = if SessionKind::classify(&session_type) == SessionKind::Adhoc {
        fresh_uuid()
    } else {
        String::new()
    };
    session_request(session_type, project_id, &now, &fresh)
}

/// If the assistant message's insert fails, the turn ends with that failure
/// and the committed store, every conversation's message count and the
/// message relation included, is as it was before the call: the user message
/// and any conversation row written before it are rolled back. `found` is
/// what the conversation lookup answered.
pub proof fn lemma_turn_rolls_back_on_assistant_failure(
    p: Plan,
    u: ConversationUpdate,
    m: StoreModel,
    found: bool,
)
    requires
        is_turn_plan(p, u),
    ensures
        ({
            let events = if found {
                seq![true, true, true, true, false]
            } else {
                seq![true, true, false, true, true, false]
            };
            let (pr, h) = run(p, start(), Held { committed: m, staged: m }, events);
            &&& pr.stage == Stage::Done
            &&& pr.outcome == Some(Failure::AssistantMessage)
            &&& h.committed == m
        }),
{
    reveal_with_fuel(next_write, 3);
    reveal_with_fuel(run, 7);
    let events = if found {
        seq![true, true, true, true, false]
    } else {
        seq![true, true, false, true, true, false]
    };
    let h0 = Held { committed: m, staged: m };
    assert(events.skip(1).skip(1).skip(1).skip(1).skip(1) =~= events.skip(5));
    if !found {
        assert(events.skip(5).skip(1) =~= Seq::<bool>::empty());
    } else {
        assert(events.skip(5) =~= Seq::<bool>::empty());
    }
    lemma_transaction_all_or_nothing(p, start(), h0, events);
}

/// Two requests for the daily conversation on the same calendar day name
/// one conversation. Once the first has stored it (its lookup answered
/// truthfully, its insert succeeded), the store has gained that one row, and
/// the second request finds it, writes nothing and succeeds.
pub proof fn lemma_daily_conversation_idempotent(
    t1: UtcInstant,
    t2: UtcInstant,
    project1: Option<String>,
    project2: Option<String>,
    fresh1: Seq<char>,
    fresh2: Seq<char>,
    first_plan: Plan,
    second_plan: Plan,
    row1: ConversationRecord,
    row2: ConversationRecord,
    m: StoreModel,
)
    requires
        t1.same_day(t2),
        is_conversation_plan(
            first_plan,
            conversation_id_text(SessionKind::Daily, project1, t1, fresh1),
            row1,
        ),
        is_conversation_plan(
            second_plan,
            conversation_id_text(SessionKind::Daily, project2, t2, fresh2),
            row2,
        ),
    ensures
        ({
            let id = conversation_id_text(SessionKind::Daily, project1, t1, fresh1);
            let first = run(
                first_plan,
                start(),
                Held { committed: m, staged: m },
                seq![true, m.conversations.contains_key(id), true],
            );
            let m1 = first.1.committed;
            let second = run(second_plan, start(), Held { committed: m1, staged: m1 }, seq![true, true]);
            &&& conversation_id_text(SessionKind::Daily, project2, t2, fresh2) == id
            &&& first.0.stage == Stage::Done && first.0.outcome is None
            &&& m1.conversations.contains_key(id)
            &&& m1.conversations.dom() == m.conversations.dom().insert(id)
            &&& m1.messages == m.messages
            &&& second.0.stage == Stage::Done && second.0.outcome is None
            &&& second.1.committed == m1
        }),
{
    reveal_with_fuel(next_write, 3);
    reveal_with_fuel(run, 4);
    let id = conversation_id_text(SessionKind::Daily, project1, t1, fresh1);
    let e1 = seq![true, m.conversations.contains_key(id), true];
    assert(e1.skip(1).skip(1).skip(1) =~= Seq::<bool>::empty());
    assert(e1.skip(1) =~= seq![m.conversations.contains_key(id), true]);
    assert(e1.skip(1).skip(1) =~= seq![true]);
    let m1 = run(first_plan, start(), Held { committed: m, staged: m }, e1).1.committed;
    if m.conversations.contains_key(id) {
        assert(m.conversations.dom().insert(id) =~= m.conversations.dom());
    } else {
        assert(m1.conversations.dom() =~= m.conversations.dom().insert(id));
    }
    let e2 = seq![true, true];
    assert(e2.skip(1) =~= seq![true]);
    assert(e2.skip(1).skip(1) =~= Seq::<bool>::empty());
}

/// Creating the daily session, then storing a turn in its conversation, and
/// reading that conversation back: the session id is `orion-daily-` and the
/// date; the session points at its conversation; after the turn the
/// conversation counts two messages, and its messages are the user message
/// followed by the assistant message. The store starts without that
/// session, its conversation or any message of it; every step succeeds.
pub proof fn lemma_daily_session_turn_round_trip(
    t: UtcInstant,
    fresh: Seq<char>,
    session_plan: Plan,
    display_name: Seq<char>,
    u: ConversationUpdate,
    turn_plan: Plan,
    m: StoreModel,
)
    requires
        is_session_plan(
            session_plan,
            session_id_text(SessionKind::Daily, None, t, fresh),
            "daily"@,
            None,
            display_name,
            t,
        ),
        u.conversation_id@ == session_conversation_text(
            session_id_text(SessionKind::Daily, None, t, fresh),
        ),
        !m.sessions.contains_key(session_id_text(SessionKind::Daily, None, t, fresh)),
        !m.conversations.contains_key(u.conversation_id@),
        messages_of(m, u.conversation_id@) == Seq::<crate::store::MessageRecord>::empty(),
        is_turn_plan(turn_plan, u),
    ensures
        ({
            let sid = session_id_text(SessionKind::Daily, None, t, fresh);
            let conv = u.conversation_id@;
            let created = run(
                session_plan,
                start(),
                Held { committed: m, staged: m },
                seq![true, true, true, true, true],
            );
            let m1 = created.1.committed;
            let saved = run(
                turn_plan,
                start(),
                Held { committed: m1, staged: m1 },
                seq![true, true, true, true, true, true, true],
            );
            let m2 = saved.1.committed;
            &&& sid == "orion-daily-"@ + date_text(t)
            &&& created.0.stage == Stage::Done && created.0.outcome is None
            &&& m1.sessions.contains_key(sid) && m1.sessions[sid].conversation_id == conv
            &&& m1.conversations.contains_key(conv) && m1.conversations[conv].message_count == 0
            &&& saved.0.stage == Stage::Done && saved.0.outcome is None
            &&& m2.conversations[conv].message_count == 2
            &&& messages_of(m2, conv) == seq![
                message_record(conv, u.user_message),
                message_record(conv, u.assistant_message),
            ]
        }),
{
    reveal_with_fuel(next_write, 3);
    reveal_with_fuel(run, 8);
    let e1 = seq![true, true, true, true, true];
    assert(e1.skip(1) =~= seq![true, true, true, true]);
    assert(e1.skip(1).skip(1) =~= seq![true, true, true]);
    assert(e1.skip(1).skip(1).skip(1) =~= seq![true, true]);
    assert(e1.skip(1).skip(1).skip(1).skip(1) =~= seq![true]);
    assert(e1.skip(1).skip(1).skip(1).skip(1).skip(1) =~= Seq::<bool>::empty());
    let e2 = seq![true, true, true, true, true, true, true];
    assert(e2.skip(1) =~= seq![true, true, true, true, true, true]);
    assert(e2.skip(1).skip(1) =~= seq![true, true, true, true, true]);
    assert(e2.skip(1).skip(1).skip(1) =~= seq![true, true, true, true]);
    assert(e2.skip(1).skip(1).skip(1).skip(1) =~= seq![true, true, true]);
    assert(e2.skip(1).skip(1).skip(1).skip(1).skip(1) =~= seq![true, true]);
    assert(e2.skip(1).skip(1).skip(1).skip(1).skip(1).skip(1) =~= seq![true]);
    assert(e2.skip(1).skip(1).skip(1).skip(1).skip(1).skip(1).skip(1) =~= Seq::<bool>::empty());
    let conv = u.conversation_id@;
    let m1 = run(session_plan, start(), Held { committed: m, staged: m }, e1).1.committed;
    let a = message_record(conv, u.user_message);
    let b = message_record(conv, u.assistant_message);
    let m2 = run(turn_plan, start(), Held { committed: m1, staged: m1 }, e2).1.committed;
    assert(m1.messages.push(a).drop_last() =~= m1.messages);
    assert(m1.messages.push(a).push(b).drop_last() =~= m1.messages.push(a));
    reveal_with_fuel(Seq::filter, 3);
    assert(messages_of(m2, conv) =~= messages_of(m1, conv).push(a).push(b));
}

/// Text order by character code: `a` sorts strictly before `b`.
pub open spec fn precedes(a: Seq<char>, b: Seq<char>) -> bool
    decreases a.len(),
{
    if b.len() == 0 {
        false
    } else if a.len() == 0 {
        true
    } else if a[0] != b[0] {
        (a[0] as u32) < (b[0] as u32)
    } else {
        precedes(a.skip(1), b.skip(1))
    }
}

/// The message record of conversation `conv` that a row of the message read
/// stands for.
pub open spec fn record_of(conv: Seq<char>, m: StoredMessage) -> MessageRecord {
    MessageRecord {
        id: m.id@,
        conversation_id: conv,
        role: m.role@,
        content: m.content@,
        tool_calls: opt_text(m.tool_calls),
        tool_results: opt_text(m.tool_results),
        created_at: m.created_at@,
    }
}

/// The store after the daily session is created and a turn is stored in
/// its conversation, every step succeeding.
pub open spec fn after_session_and_turn(session_plan: Plan, turn_plan: Plan, m: StoreModel) -> StoreModel {
    let m1 = run(
        session_plan,
        start(),
        Held { committed: m, staged: m },
        seq![true, true, true, true, true],
    ).1.committed;
    run(
        turn_plan,
        start(),
        Held { committed: m1, staged: m1 },
        seq![true, true, true, true, true, true, true],
    ).1.committed
}

/// Loading the daily session after a turn was stored in it returns both
/// messages, the user message first, and a message count of two. `head` and
/// `rows` are what the session read and the message read of that store
/// return: the session's row, and the conversation's two messages, each
/// once, ordered by creation time. The user message was created before the
/// assistant message.
pub proof fn lemma_daily_session_loads_turn_in_order(
    t: UtcInstant,
    fresh: Seq<char>,
    session_plan: Plan,
    display_name: Seq<char>,
    u: ConversationUpdate,
    turn_plan: Plan,
    m: StoreModel,
    head: SessionHead,
    rows: Seq<Option<StoredMessage>>,
)
    requires
        is_session_plan(
            session_plan,
            session_id_text(SessionKind::Daily, None, t, fresh),
            "daily"@,
            None,
            display_name,
            t,
        ),
        u.conversation_id@ == session_conversation_text(
            session_id_text(SessionKind::Daily, None, t, fresh),
        ),
        !m.sessions.contains_key(session_id_text(SessionKind::Daily, None, t, fresh)),
        !m.conversations.contains_key(u.conversation_id@),
        messages_of(m, u.conversation_id@) == Seq::<MessageRecord>::empty(),
        is_turn_plan(turn_plan, u),
        precedes(u.user_message.created_at@, u.assistant_message.created_at@),
        ({
            let s = after_session_and_turn(session_plan, turn_plan, m);
            let conv = u.conversation_id@;
            let msgs = messages_of(s, conv);
            &&& head.conversation_id@ == conv
            &&& head.row.message_count matches Some(n) && n as int
                == s.conversations[conv].message_count
            &&& rows.len() == msgs.len()
            &&& forall|i: int| 0 <= i < rows.len() ==> #[trigger] rows[i] is Some
            &&& (rows.len() == 2 ==> ((record_of(conv, rows[0]->0) == msgs[0] && record_of(
                conv,
                rows[1]->0,
            ) == msgs[1]) || (record_of(conv, rows[0]->0) == msgs[1] && record_of(
                conv,
                rows[1]->0,
            ) == msgs[0])))
            &&& (rows.len() == 2 ==> !precedes(rows[1]->0.created_at@, rows[0]->0.created_at@))
        }),
    ensures
        ({
            let (metadata, _, messages) = loaded(head, rows);
            &&& messages.len() == 2
            &&& messages[0].id@ == u.user_message.id@
            &&& messages[1].id@ == u.assistant_message.id@
            &&& metadata.message_count == 2
        }),
{
    lemma_daily_session_turn_round_trip(t, fresh, session_plan, display_name, u, turn_plan, m);
    let conv = u.conversation_id@;
    assert(rows[0] is Some && rows[1] is Some);
    if record_of(conv, rows[0]->0) == message_record(conv, u.assistant_message) {
        assert(rows[1]->0.created_at@ == u.user_message.created_at@);
        assert(rows[0]->0.created_at@ == u.assistant_message.created_at@);
        assert(false);
    }
    reveal_with_fuel(crate::session::messages_read, 3);
    assert(rows.drop_last().drop_last() =~= Seq::<Option<StoredMessage>>::empty());
}

} // verus!
