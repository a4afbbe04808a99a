//! Rebuilds session metadata and message history from the rows that the
//! joined reads return. Rows that could not be read are dropped, not fatal:
//! a display list shows what it can.

use vstd::prelude::*;
use vstd::string::*;
use crate::store::StoreError;

verus! {

/// A session as the session list shows it.
pub struct SessionMetadata {
    pub id: String,
    pub display_name: String,
    pub session_type: String,
    pub last_active: String,
    pub message_count: i32,
    pub project_id: Option<String>,
    pub project_name: Option<String>,
    pub is_corrupted: bool,
}

/// A session with its messages, oldest first.
pub struct SessionWithMessages {
    pub metadata: SessionMetadata,
    pub sdk_session_id: Option<String>,
    pub messages: Vec<StoredMessage>,
}

/// A message as stored.
pub struct StoredMessage {
    pub id: String,
    pub role: String,
    pub content: String,
    pub created_at: String,
    pub tool_calls: Option<String>,
    pub tool_results: Option<String>,
}

/// A session index row left-joined with its conversation. The conversation
/// columns are absent where the session's conversation link is broken.
pub struct SessionRow {
    pub id: String,
    pub display_name: String,
    pub session_type: String,
    pub last_active: String,
    pub message_count: Option<i32>,
    pub project_id: Option<String>,
}

/// What the single-session read returns: the joined row, the external
/// session id of its conversation, and the conversation it points at.
pub struct SessionHead {
    pub row: SessionRow,
    pub sdk_session_id: Option<String>,
    pub conversation_id: String,
}

/// The metadata of a joined row: a missing conversation counts zero
/// messages; no project name is known.
pub open spec fn metadata_of(row: SessionRow) -> SessionMetadata {
    SessionMetadata {
        id: row.id,
        display_name: row.display_name,
        session_type: row.session_type,
        last_active: row.last_active,
        message_count: match row.message_count {
            Some(n) => n,
            None => 0,
        },
        project_id: row.project_id,
        project_name: None,
        is_corrupted: false,
    }
}

/// The metadata of every row that was read, in order; rows that were not
/// read are left out.
pub open spec fn sessions_of(rows: Seq<Option<SessionRow>>) -> Seq<SessionMetadata>
    decreases rows.len(),
{
    if rows.len() == 0 {
        Seq::empty()
    } else {
        let rest = sessions_of(rows.drop_last());
        match rows.last() {
            Some(row) => rest.push(metadata_of(row)),
            None => rest,
        }
    }
}

/// Every message that was read, in order.
pub open spec fn messages_read(rows: Seq<Option<StoredMessage>>) -> Seq<StoredMessage>
    decreases rows.len(),
{
    if rows.len() == 0 {
        Seq::empty()
    } else {
        let rest = messages_read(rows.drop_last());
        match rows.last() {
            Some(m) => rest.push(m),
            None => rest,
        }
    }
}

/// The metadata of one joined row.
pub fn session_metadata(row: SessionRow) -> (r: SessionMetadata)
    ensures
        r == metadata_of(row),
{
    let message_count = match row.message_count {
        Some(n) => n,
        None => 0,
    };
    SessionMetadata {
        id: row.id,
        display_name: row.display_name,
        session_type: row.session_type,
        last_active: row.last_active,
        message_count,
        project_id: row.project_id,
        project_name: None,
        is_corrupted: false,
    }
}

/// The recent-sessions list from the rows of the joined read (active
/// sessions, most recently active first, at most the limit asked for):
/// each row read becomes its metadata, rows not read are dropped.
pub fn get_recent_sessions(rows: Vec<Option<SessionRow>>) -> (r: Vec<SessionMetadata>)
    ensures
        r@ == sessions_of(rows@),
{
    let ghost all = rows@;
    let mut out: Vec<SessionMetadata> = Vec::new();
    let mut rest = rows;
    let n = rest.len();
    let mut i: usize = 0;
    while i < n
        invariant
            n == all.len(),
            i <= n,
            rest@ == all.subrange(i as int, n as int),
            out@ == sessions_of(all.subrange(0, i as int)),
        decreases n - i,
    {
        let item = rest.remove(0);
        assert(item == all[i as int]);
        assert(all.subrange(0, i + 1).drop_last() =~= all.subrange(0, i as int));
        match item {
            Some(row) => out.push(session_metadata(row)),
            None => {},
        }
        i = i + 1;
    }
    assert(all.subrange(0, n as int) =~= all);
    out
}

/// The messages that were read, in the order the read returned them.
pub fn keep_read_messages(rows: Vec<Option<StoredMessage>>) -> (r: Vec<StoredMessage>)
    ensures
        r@ == messages_read(rows@),
{
    let ghost all = rows@;
    let mut out: Vec<StoredMessage> = Vec::new();
    let mut rest = rows;
    let n = rest.len();
    let mut i: usize = 0;
    while i < n
        invariant
            n == all.len(),
            i <= n,
            rest@ == all.subrange(i as int, n as int),
            out@ == messages_read(all.subrange(0, i as int)),
        decreases n - i,
    {
        let item = rest.remove(0);
        assert(item == all[i as int]);
        assert(all.subrange(0, i + 1).drop_last() =~= all.subrange(0, i as int));
        match item {
            Some(m) => out.push(m),
            None => {},
        }
        i = i + 1;
    }
    assert(all.subrange(0, n as int) =~= all);
    out
}

/// The result of looking session `session_id` up: its row when the read
/// found one, else a not-found error naming the session.
pub open spec fn lookup_outcome(
    session_id: Seq<char>,
    head: Option<SessionHead>,
    r: Result<SessionHead, StoreError>,
) -> bool {
    match head {
        Some(h) => r == Ok::<SessionHead, StoreError>(h),
        None => r matches Err(e) && e is NotFound && e.text() == "Session not found: "@
            + session_id,
    }
}

/// Resolves the single-session read: the session exists exactly when the
/// read found its row.
pub fn find_session(session_id: &String, head: Option<SessionHead>) -> (r: Result<
    SessionHead,
    StoreError,
>)
    ensures
        lookup_outcome(session_id@, head, r),
{
    match head {
        Some(h) => Ok(h),
        None => Err(
            StoreError::NotFound(
                String::from_str("Session not found: ").concat(session_id.as_str()),
            ),
        ),
    }
}

/// The loaded session: metadata of the joined row, the external session id,
/// and the messages read, in the order read.
pub open spec fn loaded(head: SessionHead, rows: Seq<Option<StoredMessage>>) -> (
    SessionMetadata,
    Option<String>,
    Seq<StoredMessage>,
) {
    (metadata_of(head.row), head.sdk_session_id, messages_read(rows))
}

/// Builds a session from its resolved row and the rows of the message read
/// (the messages of its conversation, oldest first). Rows that could not be
/// read are dropped; the load itself does not fail.
pub fn load_session(head: SessionHead, rows: Vec<Option<StoredMessage>>) -> (r:
    SessionWithMessages)
    ensures
        (r.metadata, r.sdk_session_id, r.messages@) == loaded(head, rows@),
{
    let metadata = session_metadata(head.row);
    let messages = keep_read_messages(rows);
    SessionWithMessages { metadata, sdk_session_id: head.sdk_session_id, messages }
}

/// A session whose conversation holds no messages loads, with an empty
/// message list: finding it succeeds and the load has nothing to drop.
pub proof fn lemma_session_without_messages_loads(
    session_id: Seq<char>,
    head: SessionHead,
    r: Result<SessionHead, StoreError>,
)
    requires
        lookup_outcome(session_id, Some(head), r),
    ensures
        r is Ok,
        loaded(head, Seq::empty()).2 == Seq::<StoredMessage>::empty(),
{
}

} // verus!
