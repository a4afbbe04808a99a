//! The writes this library asks of the store, the errors it reports, and a
//! model of the three relations the writes act on.

use vstd::prelude::*;
use vstd::string::*;
use crate::validation::MessageToSave;

verus! {

/// A conversation row to insert, with a message count of zero.
pub struct NewConversation {
    pub id: String,
    pub kind: String,
    pub sdk_session_id: Option<String>,
    pub project_id: Option<String>,
    pub started_at: String,
    pub last_message_at: Option<String>,
}

/// A session index row to insert, or whose `last_active` to refresh.
pub struct NewSession {
    pub id: String,
    pub conversation_id: String,
    pub kind: String,
    pub display_name: String,
    pub last_active: String,
}

/// One write statement.
pub enum StoreWrite {
    /// Insert a conversation; with `if_absent`, an existing row with the
    /// same id is left as it is instead of failing the write.
    InsertConversation { row: NewConversation, if_absent: bool },
    /// Insert a message into a conversation.
    InsertMessage { conversation_id: String, message: MessageToSave },
    /// Record a stored turn: set the last message time, add two to the count.
    RecordTurn { conversation_id: String, last_message_at: String },
    /// Insert a session, or refresh `last_active` of the existing one.
    UpsertSession { session: NewSession },
}

/// Which step of an operation failed. Each has its own sanitized text.
#[derive(Clone, Copy, Debug, PartialEq, Eq, Structural)]
pub enum Failure {
    Unavailable,
    TurnBegin,
    SessionBegin,
    ConversationInsert,
    UserMessage,
    AssistantMessage,
    ConversationUpdate,
    SessionIndex,
    TurnCommit,
    SessionCommit,
}

/// An error as it leaves the library: its kind and a sanitized message.
#[derive(Debug)]
pub enum StoreError {
    Validation(String),
    StorageUnavailable(String),
    NotFound(String),
    WriteFailure(String),
    CommitFailure(String),
}

pub open spec fn failure_text(f: Failure) -> Seq<char> {
    match f {
        Failure::Unavailable => "Database temporarily unavailable"@,
        Failure::TurnBegin => "Failed to start database operation"@,
        Failure::SessionBegin => "Transaction start failed"@,
        Failure::ConversationInsert => "Failed to create conversation"@,
        Failure::UserMessage => "Failed to save user message"@,
        Failure::AssistantMessage => "Failed to save assistant message"@,
        Failure::ConversationUpdate => "Failed to update conversation"@,
        Failure::SessionIndex => "Failed to create session index"@,
        Failure::TurnCommit => "Failed to save conversation"@,
        Failure::SessionCommit => "Transaction commit failed"@,
    }
}

impl StoreError {
    /// The message that the error carries.
    pub open spec fn text(&self) -> Seq<char> {
        match self {
            StoreError::Validation(s) => s@,
            StoreError::StorageUnavailable(s) => s@,
            StoreError::NotFound(s) => s@,
            StoreError::WriteFailure(s) => s@,
            StoreError::CommitFailure(s) => s@,
        }
    }

    /// The error that a failed step reports: acquiring the connection or
    /// opening a transaction is unavailability, a failed commit is a commit
    /// failure, any other step is a write failure.
    pub open spec fn reports(&self, f: Failure) -> bool {
        &&& self.text() == failure_text(f)
        &&& match f {
            Failure::Unavailable | Failure::TurnBegin | Failure::SessionBegin => self is StorageUnavailable,
            Failure::TurnCommit | Failure::SessionCommit => self is CommitFailure,
            _ => self is WriteFailure,
        }
    }

    /// The message, as handed across the boundary.
    pub fn message(&self) -> (r: String)
        ensures
            r@ == self.text(),
    {
        match self {
            StoreError::Validation(s) => s.clone(),
            StoreError::StorageUnavailable(s) => s.clone(),
            StoreError::NotFound(s) => s.clone(),
            StoreError::WriteFailure(s) => s.clone(),
            StoreError::CommitFailure(s) => s.clone(),
        }
    }
}

impl Failure {
    /// The error that this failed step reports.
    pub fn to_error(self) -> (r: StoreError)
        ensures
            r.reports(self),
    {
        match self {
            Failure::Unavailable => StoreError::StorageUnavailable(
                String::from_str("Database temporarily unavailable"),
            ),
            Failure::TurnBegin => StoreError::StorageUnavailable(
                String::from_str("Failed to start database operation"),
            ),
            Failure::SessionBegin => StoreError::StorageUnavailable(
                String::from_str("Transaction start failed"),
            ),
            Failure::ConversationInsert => StoreError::WriteFailure(
                String::from_str("Failed to create conversation"),
            ),
            Failure::UserMessage => StoreError::WriteFailure(
                String::from_str("Failed to save user message"),
            ),
            Failure::AssistantMessage => StoreError::WriteFailure(
                String::from_str("Failed to save assistant message"),
            ),
            Failure::ConversationUpdate => StoreError::WriteFailure(
                String::from_str("Failed to update conversation"),
            ),
            Failure::SessionIndex => StoreError::WriteFailure(
                String::from_str("Failed to create session index"),
            ),
            Failure::TurnCommit => StoreError::CommitFailure(
                String::from_str("Failed to save conversation"),
            ),
            Failure::SessionCommit => StoreError::CommitFailure(
                String::from_str("Transaction commit failed"),
            ),
        }
    }
}

// ---------------------------------------------------------------------------
// The model of the store.
// ---------------------------------------------------------------------------
pub open spec fn opt_text(o: Option<String>) -> Option<Seq<char>> {
    match o {
        Some(s) => Some(s@),
        None => None,
    }
}

/// A row of the conversation relation.
pub struct ConversationRecord {
    pub kind: Seq<char>,
    pub sdk_session_id: Option<Seq<char>>,
    pub project_id: Option<Seq<char>>,
    pub started_at: Seq<char>,
    pub last_message_at: Option<Seq<char>>,
    pub message_count: nat,
}

/// A row of the message relation.
pub struct MessageRecord {
    pub id: Seq<char>,
    pub conversation_id: Seq<char>,
    pub role: Seq<char>,
    pub content: Seq<char>,
    pub tool_calls: Option<Seq<char>>,
    pub tool_results: Option<Seq<char>>,
    pub created_at: Seq<char>,
}

/// A row of the session index relation.
pub struct SessionRecord {
    pub conversation_id: Seq<char>,
    pub kind: Seq<char>,
    pub display_name: Seq<char>,
    pub last_active: Seq<char>,
    pub active: bool,
}

/// The three relations: conversations and sessions by id, messages in the
/// order they were inserted.
pub struct StoreModel {
    pub conversations: Map<Seq<char>, ConversationRecord>,
    pub messages: Seq<MessageRecord>,
    pub sessions: Map<Seq<char>, SessionRecord>,
}

pub open spec fn conversation_record(c: NewConversation) -> ConversationRecord {
    ConversationRecord {
        kind: c.kind@,
        sdk_session_id: opt_text(c.sdk_session_id),
        project_id: opt_text(c.project_id),
        started_at: c.started_at@,
        last_message_at: opt_text(c.last_message_at),
        message_count: 0,
    }
}

pub open spec fn message_record(conversation_id: Seq<char>, m: MessageToSave) -> MessageRecord {
    MessageRecord {
        id: m.id@,
        conversation_id,
        role: m.role@,
        content: m.content@,
        tool_calls: opt_text(m.tool_calls),
        tool_results: opt_text(m.tool_results),
        created_at: m.created_at@,
    }
}

/// The store after a write that succeeded.
pub open spec fn apply_write(s: StoreModel, w: StoreWrite) -> StoreModel {
    match w {
        StoreWrite::InsertConversation { row, if_absent } => {
            if if_absent && s.conversations.contains_key(row.id@) {
                s
            } else {
                StoreModel {
                    conversations: s.conversations.insert(row.id@, conversation_record(row)),
                    messages: s.messages,
                    sessions: s.sessions,
                }
            }
        },
        StoreWrite::InsertMessage { conversation_id, message } => StoreModel {
            conversations: s.conversations,
            messages: s.messages.push(message_record(conversation_id@, message)),
            sessions: s.sessions,
        },
        StoreWrite::RecordTurn { conversation_id, last_message_at } => {
            if s.conversations.contains_key(conversation_id@) {
                let c = s.conversations[conversation_id@];
                StoreModel {
                    conversations: s.conversations.insert(
                        conversation_id@,
                        ConversationRecord {
                            kind: c.kind,
                            sdk_session_id: c.sdk_session_id,
                            project_id: c.project_id,
                            started_at: c.started_at,
                            last_message_at: Some(last_message_at@),
                            message_count: c.message_count + 2,
                        },
                    ),
                    messages: s.messages,
                    sessions: s.sessions,
                }
            } else {
                s
            }
        },
        StoreWrite::UpsertSession { session } => {
            let row = session;
            let record = if s.sessions.contains_key(row.id@) {
                let old = s.sessions[row.id@];
                SessionRecord {
                    conversation_id: old.conversation_id,
                    kind: old.kind,
                    display_name: old.display_name,
                    last_active: row.last_active@,
                    active: old.active,
                }
            } else {
                SessionRecord {
                    conversation_id: row.conversation_id@,
                    kind: row.kind@,
                    display_name: row.display_name@,
                    last_active: row.last_active@,
                    active: true,
                }
            };
            StoreModel {
                conversations: s.conversations,
                messages: s.messages,
                sessions: s.sessions.insert(row.id@, record),
            }
        },
    }
}

/// The messages of one conversation, in the order they were inserted.
pub open spec fn messages_of(s: StoreModel, conversation_id: Seq<char>) -> Seq<MessageRecord> {
    s.messages.filter(|m: MessageRecord| m.conversation_id == conversation_id)
}

} // verus!
