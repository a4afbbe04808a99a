//! Derives the identifiers of conversations and sessions from the session
//! kind, so that repeated derivations for the same scope meet on one id.

use vstd::prelude::*;
use vstd::string::*;
use crate::text::{remove_all, remove_all_text};
use crate::clock::{
    clock_string, clock_text, date_string, date_text, long_date_string, long_date_text, UtcInstant,
};

verus! {

/// The closed set of session kinds. Any classifier text other than `daily`,
/// `project` and `inbox` means an ad-hoc session.
#[derive(Clone, Copy, Debug, PartialEq, Eq, Structural)]
pub enum SessionKind {
    Daily,
    Project,
    Inbox,
    Adhoc,
}

pub open spec fn kind_of(s: Seq<char>) -> SessionKind {
    if s == "daily"@ {
        SessionKind::Daily
    } else if s == "project"@ {
        SessionKind::Project
    } else if s == "inbox"@ {
        SessionKind::Inbox
    } else {
        SessionKind::Adhoc
    }
}

impl SessionKind {
    /// The kind that classifier text names.
    pub fn classify(s: &String) -> (r: SessionKind)
        ensures
            r == kind_of(s@),
    {
        if *s == String::from_str("daily") {
            SessionKind::Daily
        } else if *s == String::from_str("project") {
            SessionKind::Project
        } else if *s == String::from_str("inbox") {
            SessionKind::Inbox
        } else {
            SessionKind::Adhoc
        }
    }
}

/// A random identifier in the hyphenated form: 36 characters, `-` at
/// positions 8, 13, 18 and 23, lower-case hexadecimal digits elsewhere.
pub open spec fn uuid_shaped(s: Seq<char>) -> bool {
    &&& s.len() == 36
    &&& forall|i: int|
        0 <= i < 36 ==> if i == 8 || i == 13 || i == 18 || i == 23 {
            #[trigger] s[i] == '-'
        } else {
            ('0' <= s[i] <= '9') || ('a' <= s[i] <= 'f')
        }
}

/// Relies on `uuid::Uuid::new_v4` for a random version-4 UUID, and on the
/// `Display` of `uuid::Uuid`, which writes its hyphenated lower-case form.
/// `new_v4` panics only when the operating system cannot supply random bytes.
#[verifier::external_body]
pub(crate) fn fresh_uuid() -> (r: String)
    ensures
        uuid_shaped(r@),
{
    uuid::Uuid::new_v4().to_string()
}

/// The text of an optional value, or `default` where there is none.
pub open spec fn text_or(o: Option<String>, default: Seq<char>) -> Seq<char> {
    match o {
        Some(s) => s@,
        None => default,
    }
}

fn string_or(o: &Option<String>, default: &str) -> (r: String)
    ensures
        r@ == text_or(*o, default@),
{
    match o {
        Some(s) => s.clone(),
        None => String::from_str(default),
    }
}

/// The conversation that a kind of session writes to: one per day for
/// `daily` and `inbox`, one per project key (`default` where none is given)
/// for `project`, a fresh one each time for ad-hoc sessions.
pub open spec fn conversation_id_text(
    kind: SessionKind,
    project_id: Option<String>,
    today: UtcInstant,
    fresh: Seq<char>,
) -> Seq<char> {
    match kind {
        SessionKind::Daily => "conv_daily_"@ + date_text(today),
        SessionKind::Project => "conv_proj_"@ + text_or(project_id, "default"@),
        SessionKind::Inbox => "conv_inbox_"@ + date_text(today),
        SessionKind::Adhoc => "conv_adhoc_"@ + fresh,
    }
}

/// The session id of a kind of session, on the same scoping rule as
/// `conversation_id_text`.
pub open spec fn session_id_text(
    kind: SessionKind,
    project_id: Option<String>,
    today: UtcInstant,
    fresh: Seq<char>,
) -> Seq<char> {
    match kind {
        SessionKind::Daily => "orion-daily-"@ + date_text(today),
        SessionKind::Project => "orion-project-"@ + text_or(project_id, "default"@),
        SessionKind::Inbox => "orion-inbox-"@ + date_text(today),
        SessionKind::Adhoc => "orion-adhoc-"@ + fresh,
    }
}

/// The human-readable name of a session.
pub open spec fn display_name_text(
    kind: SessionKind,
    project_id: Option<String>,
    now: UtcInstant,
) -> Seq<char> {
    match kind {
        SessionKind::Daily => "Daily - "@ + long_date_text(now),
        SessionKind::Project => "Project: "@ + text_or(project_id, "Untitled"@),
        SessionKind::Inbox => "Inbox Processing"@,
        SessionKind::Adhoc => "Session at "@ + clock_text(now),
    }
}

/// The conversation behind a session: `conv_` before the session id with
/// every `orion-` taken out.
pub open spec fn session_conversation_text(session_id: Seq<char>) -> Seq<char> {
    "conv_"@ + remove_all(session_id, "orion-"@)
}

/// Derives the conversation id for a kind of session. `fresh` is used by
/// ad-hoc sessions only.
pub fn conversation_id_for(
    kind: SessionKind,
    project_id: &Option<String>,
    today: &UtcInstant,
    fresh: &String,
) -> (r: String)
    ensures
        r@ == conversation_id_text(kind, *project_id, *today, fresh@),
{
    match kind {
        SessionKind::Daily => String::from_str("conv_daily_").concat(date_string(today).as_str()),
        SessionKind::Project => String::from_str("conv_proj_").concat(
            string_or(project_id, "default").as_str(),
        ),
        SessionKind::Inbox => String::from_str("conv_inbox_").concat(date_string(today).as_str()),
        SessionKind::Adhoc => String::from_str("conv_adhoc_").concat(fresh.as_str()),
    }
}

/// Derives the session id for a kind of session. `fresh` is used by ad-hoc
/// sessions only.
pub fn session_id_for(
    kind: SessionKind,
    project_id: &Option<String>,
    today: &UtcInstant,
    fresh: &String,
) -> (r: String)
    ensures
        r@ == session_id_text(kind, *project_id, *today, fresh@),
{
    match kind {
        SessionKind::Daily => String::from_str("orion-daily-").concat(date_string(today).as_str()),
        SessionKind::Project => String::from_str("orion-project-").concat(
            string_or(project_id, "default").as_str(),
        ),
        SessionKind::Inbox => String::from_str("orion-inbox-").concat(date_string(today).as_str()),
        SessionKind::Adhoc => String::from_str("orion-adhoc-").concat(fresh.as_str()),
    }
}

/// The human-readable name of a session of this kind, made at `now`.
pub fn display_name_for(kind: SessionKind, project_id: &Option<String>, now: &UtcInstant) -> (r:
    String)
    ensures
        r@ == display_name_text(kind, *project_id, *now),
{
    match kind {
        SessionKind::Daily => String::from_str("Daily - ").concat(long_date_string(now).as_str()),
        SessionKind::Project => String::from_str("Project: ").concat(
            string_or(project_id, "Untitled").as_str(),
        ),
        SessionKind::Inbox => String::from_str("Inbox Processing"),
        SessionKind::Adhoc => String::from_str("Session at ").concat(clock_string(now).as_str()),
    }
}

/// Derives the conversation id behind a session id.
pub fn session_conversation_id(session_id: &String) -> (r: String)
    ensures
        r@ == session_conversation_text(session_id@),
{
    proof {
        reveal_strlit("orion-");
    }
    String::from_str("conv_").concat(remove_all_text(session_id.as_str(), "orion-").as_str())
}

} // verus!
