//! Actions, events, history entries and the status snapshot.

use vstd::prelude::*;

use crate::json::{JsonValue, JsonView};

verus! {

/// The view of an optional string.
pub open spec fn opt_str_view(o: Option<String>) -> Option<Seq<char>> {
    match o {
        Some(s) => Some(s@),
        None => None,
    }
}

/// The view of an optional structured value.
pub open spec fn opt_json_view(o: Option<JsonValue>) -> Option<JsonView> {
    match o {
        Some(v) => Some(v@),
        None => None,
    }
}

/// A copy of an optional string.
pub fn clone_opt_str(o: &Option<String>) -> (r: Option<String>)
    ensures
        r == *o,
{
    match o {
        Some(s) => Some(s.clone()),
        None => None,
    }
}

/// A copy of an optional structured value.
pub fn clone_opt_json(o: &Option<JsonValue>) -> (r: Option<JsonValue>)
    ensures
        opt_json_view(r) == opt_json_view(*o),
{
    match o {
        Some(v) => Some(v.clone()),
        None => None,
    }
}

/// A privileged action that the supervised process asks to perform.
#[derive(Debug, PartialEq)]
pub enum ApprovalType {
    BashCommand { command: String, description: Option<String> },
    FileWrite { path: String },
    FileEdit { path: String, changes: Option<String> },
    FileRead { path: String },
    WebFetch { url: String },
    McpTool { server: String, tool: String, input: Option<JsonValue> },
}

/// The mathematical value of an `ApprovalType`.
pub enum ApprovalView {
    BashCommand { command: Seq<char>, description: Option<Seq<char>> },
    FileWrite { path: Seq<char> },
    FileEdit { path: Seq<char>, changes: Option<Seq<char>> },
    FileRead { path: Seq<char> },
    WebFetch { url: Seq<char> },
    McpTool { server: Seq<char>, tool: Seq<char>, input: Option<JsonView> },
}

impl View for ApprovalType {
    type V = ApprovalView;

    open spec fn view(&self) -> ApprovalView {
        match self {
            ApprovalType::BashCommand { command, description } => ApprovalView::BashCommand {
                command: command@,
                description: opt_str_view(*description),
            },
            ApprovalType::FileWrite { path } => ApprovalView::FileWrite { path: path@ },
            ApprovalType::FileEdit { path, changes } => ApprovalView::FileEdit {
                path: path@,
                changes: opt_str_view(*changes),
            },
            ApprovalType::FileRead { path } => ApprovalView::FileRead { path: path@ },
            ApprovalType::WebFetch { url } => ApprovalView::WebFetch { url: url@ },
            ApprovalType::McpTool { server, tool, input } => ApprovalView::McpTool {
                server: server@,
                tool: tool@,
                input: opt_json_view(*input),
            },
        }
    }
}

impl Clone for ApprovalType {
    fn clone(&self) -> (r: Self)
        ensures
            r@ == self@,
    {
        match self {
            ApprovalType::BashCommand { command, description } => ApprovalType::BashCommand {
                command: command.clone(),
                description: clone_opt_str(description),
            },
            ApprovalType::FileWrite { path } => ApprovalType::FileWrite { path: path.clone() },
            ApprovalType::FileEdit { path, changes } => ApprovalType::FileEdit {
                path: path.clone(),
                changes: clone_opt_str(changes),
            },
            ApprovalType::FileRead { path } => ApprovalType::FileRead { path: path.clone() },
            ApprovalType::WebFetch { url } => ApprovalType::WebFetch { url: url.clone() },
            ApprovalType::McpTool { server, tool, input } => ApprovalType::McpTool {
                server: server.clone(),
                tool: tool.clone(),
                input: clone_opt_json(input),
            },
        }
    }
}

/// The view of an optional action.
pub open spec fn opt_action_view(o: Option<ApprovalType>) -> Option<ApprovalView> {
    match o {
        Some(a) => Some(a@),
        None => None,
    }
}

/// A copy of an optional action.
pub fn clone_opt_action(o: &Option<ApprovalType>) -> (r: Option<ApprovalType>)
    ensures
        opt_action_view(r) == opt_action_view(*o),
{
    match o {
        Some(a) => Some(a.clone()),
        None => None,
    }
}

/// The decision taken on an action.
#[derive(Debug, Clone, Copy, PartialEq, Eq, Structural)]
pub enum ApprovalAction {
    Approved,
    Denied,
}

/// Relies on uuid::Uuid::new_v4 and the hyphenated text form that its
/// `Display` writes: a fresh random identifier.
#[verifier::external_body]
pub(crate) fn fresh_id() -> (r: String)
    ensures
        r@.len() == 36,
{
    uuid::Uuid::new_v4().to_string()
}

/// Relies on chrono::Utc::now and DateTime::timestamp_millis: the current
/// time in milliseconds since the Unix epoch.
#[verifier::external_body]
pub(crate) fn now_millis() -> (r: i64) {
    chrono::Utc::now().timestamp_millis()
}

/// An event handed to the caller: `approval_type` is present exactly when
/// `requires_approval` holds.
#[derive(Debug)]
pub struct ClaudeEvent {
    pub id: String,
    pub timestamp: i64,
    pub event_type: String,
    pub data: JsonValue,
    pub requires_approval: bool,
    pub approval_type: Option<ApprovalType>,
}

/// The mathematical value of a `ClaudeEvent`.
pub struct EventView {
    pub id: Seq<char>,
    pub timestamp: i64,
    pub event_type: Seq<char>,
    pub data: JsonView,
    pub requires_approval: bool,
    pub approval_type: Option<ApprovalView>,
}

impl View for ClaudeEvent {
    type V = EventView;

    open spec fn view(&self) -> EventView {
        EventView {
            id: self.id@,
            timestamp: self.timestamp,
            event_type: self.event_type@,
            data: self.data@,
            requires_approval: self.requires_approval,
            approval_type: opt_action_view(self.approval_type),
        }
    }
}

impl Clone for ClaudeEvent {
    fn clone(&self) -> (r: Self)
        ensures
            r@ == self@,
    {
        ClaudeEvent {
            id: self.id.clone(),
            timestamp: self.timestamp,
            event_type: self.event_type.clone(),
            data: self.data.clone(),
            requires_approval: self.requires_approval,
            approval_type: clone_opt_action(&self.approval_type),
        }
    }
}

impl ClaudeEvent {
    /// An event of the given kind and payload, needing no approval, with a
    /// fresh identifier and the current time.
    pub fn new(event_type: &str, data: JsonValue) -> (r: Self)
        ensures
            r.event_type@ == event_type@,
            r.data == data,
            !r.requires_approval,
            r.approval_type is None,
    {
        ClaudeEvent {
            id: fresh_id(),
            timestamp: now_millis(),
            event_type: event_type.to_string(),
            data,
            requires_approval: false,
            approval_type: None,
        }
    }

    /// The same event, now asking for approval of `approval_type`.
    pub fn with_approval(self, approval_type: ApprovalType) -> (r: Self)
        ensures
            r.id == self.id,
            r.timestamp == self.timestamp,
            r.event_type == self.event_type,
            r.data == self.data,
            r.requires_approval,
            r.approval_type == Some(approval_type),
    {
        let mut e = self;
        e.requires_approval = true;
        e.approval_type = Some(approval_type);
        e
    }
}

/// A record of one decision.
#[derive(Debug)]
pub struct ApprovalHistoryEntry {
    pub id: String,
    pub timestamp: i64,
    pub approval_type: ApprovalType,
    pub action: ApprovalAction,
    pub auto_approved: bool,
    pub matched_rule: Option<String>,
}

/// The mathematical value of an `ApprovalHistoryEntry`.
pub struct EntryView {
    pub id: Seq<char>,
    pub timestamp: i64,
    pub approval_type: ApprovalView,
    pub action: ApprovalAction,
    pub auto_approved: bool,
    pub matched_rule: Option<Seq<char>>,
}

impl View for ApprovalHistoryEntry {
    type V = EntryView;

    open spec fn view(&self) -> EntryView {
        EntryView {
            id: self.id@,
            timestamp: self.timestamp,
            approval_type: self.approval_type@,
            action: self.action,
            auto_approved: self.auto_approved,
            matched_rule: opt_str_view(self.matched_rule),
        }
    }
}

impl Clone for ApprovalHistoryEntry {
    fn clone(&self) -> (r: Self)
        ensures
            r@ == self@,
    {
        ApprovalHistoryEntry {
            id: self.id.clone(),
            timestamp: self.timestamp,
            approval_type: self.approval_type.clone(),
            action: self.action,
            auto_approved: self.auto_approved,
            matched_rule: clone_opt_str(&self.matched_rule),
        }
    }
}

/// A read-only snapshot of the coordinator.
#[derive(Debug, Clone)]
pub struct SessionStatus {
    pub is_active: bool,
    pub session_id: Option<String>,
    pub working_dir: Option<String>,
    pub started_at: Option<i64>,
    pub pending_approval: bool,
    pub auto_approve_all: bool,
    pub approved_count: u32,
    pub denied_count: u32,
    pub auto_approved_count: u32,
}

impl Default for SessionStatus {
    fn default() -> (r: Self)
        ensures
            !r.is_active,
            r.session_id is None,
            r.working_dir is None,
            r.started_at is None,
            !r.pending_approval,
            !r.auto_approve_all,
            r.approved_count == 0,
            r.denied_count == 0,
            r.auto_approved_count == 0,
    {
        SessionStatus {
            is_active: false,
            session_id: None,
            working_dir: None,
            started_at: None,
            pending_approval: false,
            auto_approve_all: false,
            approved_count: 0,
            denied_count: 0,
            auto_approved_count: 0,
        }
    }
}

} // verus!
