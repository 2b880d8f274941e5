use claude_gui::bridge::{ClaudeBridge, ClaudeStreamEvent};
use claude_gui::json::{JsonMember, JsonValue};
use claude_gui::types::ApprovalType;

fn obj(members: &[(&str, JsonValue)]) -> JsonValue {
    JsonValue::Object(
        members
            .iter()
            .map(|(k, v)| JsonMember { key: k.to_string(), value: v.clone() })
            .collect(),
    )
}

fn s(text: &str) -> JsonValue {
    JsonValue::String(text.to_string())
}

#[test]
fn bash_tool_use_needs_approval() {
    let input = obj(&[("command", s("ls -la")), ("description", s("list"))]);
    let e = ClaudeBridge::convert_stream_event(ClaudeStreamEvent::ToolUse {
        id: "t1".to_string(),
        name: "Bash".to_string(),
        input,
    });
    assert_eq!(e.event_type, "tool_request");
    assert!(e.requires_approval);
    assert_eq!(
        e.approval_type,
        Some(ApprovalType::BashCommand {
            command: "ls -la".to_string(),
            description: Some("list".to_string())
        })
    );
}

#[test]
fn bash_without_command_needs_no_approval() {
    let e = ClaudeBridge::convert_stream_event(ClaudeStreamEvent::ToolUse {
        id: "t1".to_string(),
        name: "Bash".to_string(),
        input: obj(&[("cmd", s("ls"))]),
    });
    assert!(!e.requires_approval);
    assert_eq!(e.approval_type, None);
}

#[test]
fn file_tools_map_to_actions() {
    let input = obj(&[("file_path", s("/a.txt")), ("old_string", s("x"))]);
    assert_eq!(
        ClaudeBridge::detect_approval_type("Edit", &input),
        Some(ApprovalType::FileEdit { path: "/a.txt".to_string(), changes: Some("x".to_string()) })
    );
    assert_eq!(
        ClaudeBridge::detect_approval_type("Write", &input),
        Some(ApprovalType::FileWrite { path: "/a.txt".to_string() })
    );
    assert_eq!(
        ClaudeBridge::detect_approval_type("Read", &input),
        Some(ApprovalType::FileRead { path: "/a.txt".to_string() })
    );
    assert_eq!(
        ClaudeBridge::detect_approval_type("WebFetch", &obj(&[("url", s("https://x"))])),
        Some(ApprovalType::WebFetch { url: "https://x".to_string() })
    );
    assert_eq!(ClaudeBridge::detect_approval_type("Glob", &input), None);
}

#[test]
fn extension_tool_names_are_split() {
    let input = obj(&[]);
    assert_eq!(
        ClaudeBridge::detect_approval_type("mcp__memory__read__graph", &input),
        Some(ApprovalType::McpTool {
            server: "memory".to_string(),
            tool: "read__graph".to_string(),
            input: Some(obj(&[]))
        })
    );
    assert_eq!(ClaudeBridge::detect_approval_type("mcp__memory", &input), None);
    assert_eq!(ClaudeBridge::detect_approval_type("xmcp__a__b", &input), None);
}

#[test]
fn permission_requests_always_need_approval() {
    let e = ClaudeBridge::convert_stream_event(ClaudeStreamEvent::PermissionRequest {
        tool: "Bash".to_string(),
        action: "make".to_string(),
        details: obj(&[("description", s("build"))]),
    });
    assert_eq!(e.event_type, "permission_request");
    assert!(e.requires_approval);
    assert_eq!(
        e.approval_type,
        Some(ApprovalType::BashCommand { command: "make".to_string(), description: Some("build".to_string()) })
    );
    let other = ClaudeBridge::parse_permission_request("git", "push", &JsonValue::Null);
    assert_eq!(
        other,
        ApprovalType::McpTool { server: "git".to_string(), tool: "push".to_string(), input: Some(JsonValue::Null) }
    );
}

#[test]
fn completion_payload_carries_numbers() {
    let e = ClaudeBridge::convert_stream_event(ClaudeStreamEvent::Result {
        session_id: "s".to_string(),
        cost_usd: Some("0.25".to_string()),
        duration_ms: Some(1205),
    });
    assert_eq!(e.event_type, "completion");
    assert_eq!(
        e.data,
        obj(&[
            ("session_id", s("s")),
            ("cost_usd", JsonValue::Number("0.25".to_string())),
            ("duration_ms", JsonValue::Number("1205".to_string())),
        ])
    );
}

#[test]
fn lines_are_translated() {
    assert!(ClaudeBridge::translate_output_line("", None).is_none());
    let raw = ClaudeBridge::translate_output_line("hello", None).unwrap();
    assert_eq!(raw.event_type, "raw_output");
    assert_eq!(raw.data, obj(&[("text", s("hello")), ("raw", JsonValue::Bool(true))]));
    let err = ClaudeBridge::translate_stderr_line("boom").unwrap();
    assert_eq!(err.event_type, "stderr");
    assert!(ClaudeBridge::translate_stderr_line("").is_none());
}

#[test]
fn bridge_protocol_tokens() {
    let mut b = ClaudeBridge::new();
    assert_eq!(b.approve().unwrap_err(), "No active session");
    b.spawn("/w", "cli.js", None).unwrap();
    let id = b.mark_spawned();
    assert_eq!(b.session_id(), Some(id.as_str()));
    assert_eq!(b.working_dir(), "/w");
    assert_eq!(b.approve(), Ok("y\n".to_string()));
    assert_eq!(b.deny(), Ok("n\n".to_string()));
    assert!(b.stop());
    assert!(!b.is_active());
    assert_eq!(b.session_id(), None);
}

#[test]
fn events_get_fresh_identifiers_and_times() {
    let a = claude_gui::types::ClaudeEvent::new("system", JsonValue::Null);
    let b = claude_gui::types::ClaudeEvent::new("system", JsonValue::Null);
    assert_ne!(a.id, b.id);
    assert_eq!(a.id.len(), 36);
    assert!(a.timestamp > 1_600_000_000_000);
    assert!(!a.requires_approval);
}
