//! The process bridge: session bookkeeping for the supervised process, the
//! input protocol, and the translation of output lines into events.

use vstd::prelude::*;

use crate::json::{
    JsonMember, JsonValue, JsonView, member, opt_string, opt_string_view, str_field, string_field,
};
use crate::text::{
    chars_of, decimal, decimal_text, find_seq, first_occurrence, has_prefix, str_eq,
    str_starts_with,
};
use crate::types::{
    ApprovalType, ApprovalView, ClaudeEvent, fresh_id, opt_action_view,
    opt_str_view,
};

verus! {

/// One decoded record of the process's primary output.
#[derive(Debug)]
#[allow(inconsistent_fields)]
pub enum ClaudeStreamEvent {
    System { message: String },
    Assistant { message: String, session_id: Option<String> },
    ToolUse { id: String, name: String, input: JsonValue },
    ToolResult { id: String, output: Option<String>, is_error: bool },
    PermissionRequest { tool: String, action: String, details: JsonValue },
    /// `cost_usd` is the cost as the decimal text of a JSON number.
    Result { session_id: String, cost_usd: Option<String>, duration_ms: Option<u64> },
    Error { message: String },
}

/// A JSON number from its decimal text, or null when absent.
pub open spec fn opt_number_view(s: Option<Seq<char>>) -> JsonView {
    match s {
        Some(t) => JsonView::Number(t),
        None => JsonView::Null,
    }
}

/// The event kind of a record.
pub open spec fn event_kind(e: ClaudeStreamEvent) -> Seq<char> {
    match e {
        ClaudeStreamEvent::System { .. } => "system"@,
        ClaudeStreamEvent::Assistant { .. } => "assistant"@,
        ClaudeStreamEvent::ToolUse { .. } => "tool_request"@,
        ClaudeStreamEvent::ToolResult { .. } => "tool_result"@,
        ClaudeStreamEvent::PermissionRequest { .. } => "permission_request"@,
        ClaudeStreamEvent::Result { .. } => "completion"@,
        ClaudeStreamEvent::Error { .. } => "error"@,
    }
}

/// The payload of the event made from a record.
pub open spec fn event_payload(e: ClaudeStreamEvent) -> JsonView {
    match e {
        ClaudeStreamEvent::System { message } => JsonView::Object(
            seq!["message"@],
            seq![JsonView::String(message@)],
        ),
        ClaudeStreamEvent::Assistant { message, session_id } => JsonView::Object(
            seq!["message"@, "session_id"@],
            seq![JsonView::String(message@), opt_string_view(opt_str_view(session_id))],
        ),
        ClaudeStreamEvent::ToolUse { id, name, input } => JsonView::Object(
            seq!["id"@, "name"@, "input"@],
            seq![JsonView::String(id@), JsonView::String(name@), input@],
        ),
        ClaudeStreamEvent::ToolResult { id, output, is_error } => JsonView::Object(
            seq!["id"@, "output"@, "is_error"@],
            seq![
                JsonView::String(id@),
                opt_string_view(opt_str_view(output)),
                JsonView::Bool(is_error),
            ],
        ),
        ClaudeStreamEvent::PermissionRequest { tool, action, details } => JsonView::Object(
            seq!["tool"@, "action"@, "details"@],
            seq![JsonView::String(tool@), JsonView::String(action@), details@],
        ),
        ClaudeStreamEvent::Result { session_id, cost_usd, duration_ms } => JsonView::Object(
            seq!["session_id"@, "cost_usd"@, "duration_ms"@],
            seq![
                JsonView::String(session_id@),
                opt_number_view(opt_str_view(cost_usd)),
                opt_number_view(
                    match duration_ms {
                        Some(d) => Some(decimal(d as nat)),
                        None => None,
                    },
                ),
            ],
        ),
        ClaudeStreamEvent::Error { message } => JsonView::Object(
            seq!["message"@],
            seq![JsonView::String(message@)],
        ),
    }
}

/// Server and tool of an extension tool name `mcp__<server>__<tool>`: the
/// server ends at the first `__` after the prefix.
pub open spec fn mcp_parts(name: Seq<char>) -> Option<(Seq<char>, Seq<char>)> {
    if has_prefix(name, "mcp__"@) {
        let rest = name.subrange("mcp__"@.len() as int, name.len() as int);
        match first_occurrence(rest, "__"@) {
            Some(k) => Some((rest.subrange(0, k), rest.subrange(k + 2, rest.len() as int))),
            None => None,
        }
    } else {
        None
    }
}

/// The action that a tool invocation asks for, if it needs approval.
pub open spec fn detected(name: Seq<char>, input: JsonView) -> Option<ApprovalView> {
    if name == "Bash"@ {
        match str_field(input, "command"@) {
            Some(c) => Some(
                ApprovalView::BashCommand {
                    command: c,
                    description: str_field(input, "description"@),
                },
            ),
            None => None,
        }
    } else if name == "Write"@ {
        match str_field(input, "file_path"@) {
            Some(p) => Some(ApprovalView::FileWrite { path: p }),
            None => None,
        }
    } else if name == "Edit"@ {
        match str_field(input, "file_path"@) {
            Some(p) => Some(
                ApprovalView::FileEdit { path: p, changes: str_field(input, "old_string"@) },
            ),
            None => None,
        }
    } else if name == "Read"@ {
        match str_field(input, "file_path"@) {
            Some(p) => Some(ApprovalView::FileRead { path: p }),
            None => None,
        }
    } else if name == "WebFetch"@ {
        match str_field(input, "url"@) {
            Some(u) => Some(ApprovalView::WebFetch { url: u }),
            None => None,
        }
    } else {
        match mcp_parts(name) {
            Some((server, tool)) => Some(
                ApprovalView::McpTool { server, tool, input: Some(input) },
            ),
            None => None,
        }
    }
}

/// The action that an explicit permission request asks for.
pub open spec fn permission_action(tool: Seq<char>, action: Seq<char>, details: JsonView) -> ApprovalView {
    if tool == "Bash"@ {
        ApprovalView::BashCommand { command: action, description: str_field(details, "description"@) }
    } else if tool == "Write"@ {
        ApprovalView::FileWrite { path: action }
    } else if tool == "Edit"@ {
        ApprovalView::FileEdit { path: action, changes: None }
    } else if tool == "Read"@ {
        ApprovalView::FileRead { path: action }
    } else if tool == "WebFetch"@ {
        ApprovalView::WebFetch { url: action }
    } else {
        ApprovalView::McpTool { server: tool, tool: action, input: Some(details) }
    }
}

/// The action that the event made from a record asks approval for.
pub open spec fn event_approval(e: ClaudeStreamEvent) -> Option<ApprovalView> {
    match e {
        ClaudeStreamEvent::ToolUse { name, input, .. } => detected(name@, input@),
        ClaudeStreamEvent::PermissionRequest { tool, action, details } => Some(
            permission_action(tool@, action@, details@),
        ),
        _ => None,
    }
}

/// An object with one member.
fn object1(k1: &str, v1: JsonValue) -> (r: JsonValue)
    ensures
        r@ == JsonView::Object(seq![k1@], seq![v1@]),
{
    let mut m: Vec<JsonMember> = Vec::new();
    m.push(member(k1, v1));
    let r = JsonValue::Object(m);
    assert(r@->Object_0 =~= seq![k1@]);
    assert(r@->Object_1 =~= seq![v1@]);
    r
}

/// An object with two members.
fn object2(k1: &str, v1: JsonValue, k2: &str, v2: JsonValue) -> (r: JsonValue)
    ensures
        r@ == JsonView::Object(seq![k1@, k2@], seq![v1@, v2@]),
{
    let mut m: Vec<JsonMember> = Vec::new();
    m.push(member(k1, v1));
    m.push(member(k2, v2));
    let r = JsonValue::Object(m);
    assert(r@->Object_0 =~= seq![k1@, k2@]);
    assert(r@->Object_1 =~= seq![v1@, v2@]);
    r
}

/// An object with three members.
fn object3(k1: &str, v1: JsonValue, k2: &str, v2: JsonValue, k3: &str, v3: JsonValue) -> (r:
    JsonValue)
    ensures
        r@ == JsonView::Object(seq![k1@, k2@, k3@], seq![v1@, v2@, v3@]),
{
    let mut m: Vec<JsonMember> = Vec::new();
    m.push(member(k1, v1));
    m.push(member(k2, v2));
    m.push(member(k3, v3));
    let r = JsonValue::Object(m);
    assert(r@->Object_0 =~= seq![k1@, k2@, k3@]);
    assert(r@->Object_1 =~= seq![v1@, v2@, v3@]);
    r
}

/// A JSON number from its decimal text, or null.
fn opt_number(s: Option<String>) -> (r: JsonValue)
    ensures
        r@ == opt_number_view(opt_str_view(s)),
{
    match s {
        Some(t) => JsonValue::Number(t),
        None => JsonValue::Null,
    }
}

/// Splits `mcp__<server>__<tool>` into server and tool.
fn split_mcp_name(name: &str) -> (r: Option<(String, String)>)
    ensures
        match r {
            Some((s, t)) => mcp_parts(name@) == Some((s@, t@)),
            None => mcp_parts(name@) is None,
        },
{
    let prefix = "mcp__";
    if !str_starts_with(name, prefix) {
        return None;
    }
    let n = name.unicode_len();
    let p = prefix.unicode_len();
    let rest = name.substring_char(p, n);
    let ghost rest_view = name@.subrange("mcp__"@.len() as int, name@.len() as int);
    assert(rest@ == rest_view);
    let rest_chars = chars_of(rest);
    let sep = chars_of("__");
    proof {
        reveal_strlit("__");
    }
    let found = find_seq(&rest_chars, &sep);
    match found {
        Some(k) => {
            assert(k + 2 <= rest_chars@.len());
            let server = rest.substring_char(0, k).to_string();
            let tool = rest.substring_char(k + 2, rest_chars.len()).to_string();
            Some((server, tool))
        },
        None => None,
    }
}

/// A description of how to launch the supervised process.
#[derive(Debug)]
pub struct SpawnPlan {
    pub program: String,
    pub args: Vec<String>,
    pub working_dir: String,
}

/// Session bookkeeping of the bridge: whether a process runs, the session's
/// identifier, and its working directory.
#[derive(Debug)]
pub struct ClaudeBridge {
    active: bool,
    session_id: Option<String>,
    working_dir: String,
}

impl ClaudeBridge {
    /// Whether a process runs.
    pub closed spec fn spec_active(&self) -> bool {
        self.active
    }

    /// The current session's identifier.
    pub closed spec fn spec_session_id(&self) -> Option<Seq<char>> {
        opt_str_view(self.session_id)
    }

    /// The working directory of the last spawn.
    pub closed spec fn spec_working_dir(&self) -> Seq<char> {
        self.working_dir@
    }

    /// A bridge with no process.
    pub fn new() -> (r: Self)
        ensures
            !r.spec_active(),
            r.spec_session_id() is None,
            r.spec_working_dir() == Seq::<char>::empty(),
    {
        ClaudeBridge { active: false, session_id: None, working_dir: String::new() }
    }

    /// Prepares a spawn: refused while a process runs; otherwise records the
    /// working directory and says how to launch the process.
    pub fn spawn(&mut self, working_dir: &str, cli_path: &str, initial_prompt: Option<String>) -> (r:
        Result<SpawnPlan, String>)
        ensures
            old(self).spec_active() ==> r is Err && *final(self) == *old(self),
            !old(self).spec_active() ==> {
                &&& r is Ok
                &&& !final(self).spec_active()
                &&& final(self).spec_session_id() == old(self).spec_session_id()
                &&& final(self).spec_working_dir() == working_dir@
            },
            r matches Err(e) ==> e@ == "Session already active"@,
            r matches Ok(plan) ==> spawn_plan_is(plan, working_dir@, cli_path@, opt_str_view(initial_prompt)),
    {
        if self.active {
            return Err("Session already active".to_string());
        }
        self.working_dir = working_dir.to_string();
        let mut args: Vec<String> = Vec::new();
        args.push(cli_path.to_string());
        args.push("--output-format=stream-json".to_string());
        match initial_prompt {
            Some(prompt) => {
                args.push("-p".to_string());
                args.push(prompt);
            },
            None => {},
        }
        Ok(SpawnPlan { program: "node".to_string(), args, working_dir: working_dir.to_string() })
    }

    /// Records that the process was launched, under a fresh session identifier.
    pub fn mark_spawned(&mut self) -> (r: String)
        ensures
            final(self).spec_active(),
            final(self).spec_session_id() == Some(r@),
            final(self).spec_working_dir() == old(self).spec_working_dir(),
    {
        let id = fresh_id();
        self.active = true;
        self.session_id = Some(id.clone());
        id
    }

    /// The text to enqueue on the process's input: `input` itself while a
    /// process runs.
    pub fn write(&self, input: &str) -> (r: Result<String, String>)
        ensures
            self.spec_active() ==> (r matches Ok(t) && t@ == input@),
            !self.spec_active() ==> (r matches Err(e) && e@ == "No active session"@),
    {
        if self.active {
            Ok(input.to_string())
        } else {
            Err("No active session".to_string())
        }
    }

    /// The affirmative answer to a permission prompt.
    pub fn approve(&self) -> (r: Result<String, String>)
        ensures
            self.spec_active() ==> (r matches Ok(t) && t@ == "y\n"@),
            !self.spec_active() ==> (r matches Err(e) && e@ == "No active session"@),
    {
        self.write("y\n")
    }

    /// The negative answer to a permission prompt.
    pub fn deny(&self) -> (r: Result<String, String>)
        ensures
            self.spec_active() ==> (r matches Ok(t) && t@ == "n\n"@),
            !self.spec_active() ==> (r matches Err(e) && e@ == "No active session"@),
    {
        self.write("n\n")
    }

    /// Ends the session; returns whether a process was running and must be
    /// terminated.
    pub fn stop(&mut self) -> (r: bool)
        ensures
            r == old(self).spec_active(),
            !final(self).spec_active(),
            final(self).spec_session_id() is None,
            final(self).spec_working_dir() == old(self).spec_working_dir(),
    {
        let was = self.active;
        self.active = false;
        self.session_id = None;
        was
    }

    /// Whether a process runs.
    pub fn is_active(&self) -> (r: bool)
        ensures
            r == self.spec_active(),
    {
        self.active
    }

    /// The current session's identifier.
    pub fn session_id(&self) -> (r: Option<&str>)
        ensures
            match r {
                Some(s) => self.spec_session_id() == Some(s@),
                None => self.spec_session_id() is None,
            },
    {
        match &self.session_id {
            Some(s) => Some(s.as_str()),
            None => None,
        }
    }

    /// The working directory of the last spawn.
    pub fn working_dir(&self) -> (r: &str)
        ensures
            r@ == self.spec_working_dir(),
    {
        self.working_dir.as_str()
    }

    /// The event made from one decoded record of the primary output.
    #[verifier::rlimit(40)]
    pub fn convert_stream_event(event: ClaudeStreamEvent) -> (r: ClaudeEvent)
        ensures
            r.event_type@ == event_kind(event),
            r.data@ == event_payload(event),
            r.requires_approval == event_approval(event) is Some,
            opt_action_view(r.approval_type) == event_approval(event),
    {
        match event {
            ClaudeStreamEvent::System { message } => {
                ClaudeEvent::new("system", object1("message", JsonValue::String(message)))
            },
            ClaudeStreamEvent::Assistant { message, session_id } => {
                ClaudeEvent::new(
                    "assistant",
                    object2(
                        "message",
                        JsonValue::String(message),
                        "session_id",
                        opt_string(session_id),
                    ),
                )
            },
            ClaudeStreamEvent::ToolUse { id, name, input } => {
                let approval = Self::detect_approval_type(name.as_str(), &input);
                let data = object3(
                    "id",
                    JsonValue::String(id),
                    "name",
                    JsonValue::String(name),
                    "input",
                    input,
                );
                let event = ClaudeEvent::new("tool_request", data);
                match approval {
                    Some(a) => event.with_approval(a),
                    None => event,
                }
            },
            ClaudeStreamEvent::ToolResult { id, output, is_error } => {
                ClaudeEvent::new(
                    "tool_result",
                    object3(
                        "id",
                        JsonValue::String(id),
                        "output",
                        opt_string(output),
                        "is_error",
                        JsonValue::Bool(is_error),
                    ),
                )
            },
            ClaudeStreamEvent::PermissionRequest { tool, action, details } => {
                let approval = Self::parse_permission_request(
                    tool.as_str(),
                    action.as_str(),
                    &details,
                );
                let data = object3(
                    "tool",
                    JsonValue::String(tool),
                    "action",
                    JsonValue::String(action),
                    "details",
                    details,
                );
                ClaudeEvent::new("permission_request", data).with_approval(approval)
            },
            ClaudeStreamEvent::Result { session_id, cost_usd, duration_ms } => {
                let ghost expected = event_payload(event);
                let duration = match duration_ms {
                    Some(d) => JsonValue::Number(decimal_text(d)),
                    None => JsonValue::Null,
                };
                let data = object3(
                    "session_id",
                    JsonValue::String(session_id),
                    "cost_usd",
                    opt_number(cost_usd),
                    "duration_ms",
                    duration,
                );
                assert(data@->Object_0 =~= expected->Object_0);
                assert(data@->Object_1 =~= expected->Object_1);
                ClaudeEvent::new("completion", data)
            },
            ClaudeStreamEvent::Error { message } => {
                ClaudeEvent::new("error", object1("message", JsonValue::String(message)))
            },
        }
    }

    /// The action that a tool invocation asks for, if it needs approval.
    #[verifier::rlimit(40)]
    pub fn detect_approval_type(name: &str, input: &JsonValue) -> (r: Option<ApprovalType>)
        ensures
            opt_action_view(r) == detected(name@, input@),
    {
        if str_eq(name, "Bash") {
            match string_field(input, "command") {
                Some(command) => Some(
                    ApprovalType::BashCommand {
                        command,
                        description: string_field(input, "description"),
                    },
                ),
                None => None,
            }
        } else if str_eq(name, "Write") {
            match string_field(input, "file_path") {
                Some(path) => Some(ApprovalType::FileWrite { path }),
                None => None,
            }
        } else if str_eq(name, "Edit") {
            match string_field(input, "file_path") {
                Some(path) => Some(
                    ApprovalType::FileEdit { path, changes: string_field(input, "old_string") },
                ),
                None => None,
            }
        } else if str_eq(name, "Read") {
            match string_field(input, "file_path") {
                Some(path) => Some(ApprovalType::FileRead { path }),
                None => None,
            }
        } else if str_eq(name, "WebFetch") {
            match string_field(input, "url") {
                Some(url) => Some(ApprovalType::WebFetch { url }),
                None => None,
            }
        } else {
            match split_mcp_name(name) {
                Some((server, tool)) => Some(
                    ApprovalType::McpTool { server, tool, input: Some(input.clone()) },
                ),
                None => None,
            }
        }
    }

    /// The action that an explicit permission request asks for.
    pub fn parse_permission_request(tool: &str, action: &str, details: &JsonValue) -> (r:
        ApprovalType)
        ensures
            r@ == permission_action(tool@, action@, details@),
    {
        if str_eq(tool, "Bash") {
            ApprovalType::BashCommand {
                command: action.to_string(),
                description: string_field(details, "description"),
            }
        } else if str_eq(tool, "Write") {
            ApprovalType::FileWrite { path: action.to_string() }
        } else if str_eq(tool, "Edit") {
            ApprovalType::FileEdit { path: action.to_string(), changes: None }
        } else if str_eq(tool, "Read") {
            ApprovalType::FileRead { path: action.to_string() }
        } else if str_eq(tool, "WebFetch") {
            ApprovalType::WebFetch { url: action.to_string() }
        } else {
            ApprovalType::McpTool {
                server: tool.to_string(),
                tool: action.to_string(),
                input: Some(details.clone()),
            }
        }
    }

    /// The event for one line of the primary output, given what decoding the
    /// line as a record gave: none for an empty line, the record's event, or
    /// the line kept as raw text when it is no record.
    pub fn translate_output_line(line: &str, record: Option<ClaudeStreamEvent>) -> (r: Option<
        ClaudeEvent,
    >)
        ensures
            line@.len() == 0 ==> r is None,
            line@.len() > 0 ==> r is Some,
            line@.len() > 0 && record is Some ==> {
                let e = r->0;
                &&& e.event_type@ == event_kind(record->0)
                &&& e.data@ == event_payload(record->0)
                &&& e.requires_approval == event_approval(record->0) is Some
                &&& opt_action_view(e.approval_type) == event_approval(record->0)
            },
            line@.len() > 0 && record is None ==> {
                let e = r->0;
                &&& e.event_type@ == "raw_output"@
                &&& e.data@ == JsonView::Object(
                    seq!["text"@, "raw"@],
                    seq![JsonView::String(line@), JsonView::Bool(true)],
                )
                &&& !e.requires_approval
                &&& e.approval_type is None
            },
    {
        if line.unicode_len() == 0 {
            return None;
        }
        match record {
            Some(rec) => Some(Self::convert_stream_event(rec)),
            None => Some(
                ClaudeEvent::new(
                    "raw_output",
                    object2(
                        "text",
                        JsonValue::String(line.to_string()),
                        "raw",
                        JsonValue::Bool(true),
                    ),
                ),
            ),
        }
    }

    /// The event for one line of the diagnostic output: none for an empty line.
    pub fn translate_stderr_line(line: &str) -> (r: Option<ClaudeEvent>)
        ensures
            line@.len() == 0 ==> r is None,
            line@.len() > 0 ==> (r matches Some(e) && e.event_type@ == "stderr"@ && e.data@
                == JsonView::Object(seq!["text"@], seq![JsonView::String(line@)])
                && !e.requires_approval && e.approval_type is None),
    {
        if line.unicode_len() == 0 {
            return None;
        }
        Some(ClaudeEvent::new("stderr", object1("text", JsonValue::String(line.to_string()))))
    }
}

impl Default for ClaudeBridge {
    fn default() -> (r: Self)
        ensures
            !r.spec_active(),
            r.spec_session_id() is None,
    {
        Self::new()
    }
}

/// `plan` launches `node <cli_path> --output-format=stream-json`, followed by
/// `-p <prompt>` when there is an initial prompt, in `working_dir`.
pub open spec fn spawn_plan_is(
    plan: SpawnPlan,
    working_dir: Seq<char>,
    cli_path: Seq<char>,
    prompt: Option<Seq<char>>,
) -> bool {
    &&& plan.program@ == "node"@
    &&& plan.working_dir@ == working_dir
    &&& plan.args@.len() == (if prompt is Some { 4int } else { 2int })
    &&& plan.args@[0]@ == cli_path
    &&& plan.args@[1]@ == "--output-format=stream-json"@
    &&& prompt matches Some(p) ==> plan.args@[2]@ == "-p"@ && plan.args@[3]@ == p
}

} // verus!
