use claude_gui::auto_approve::{ApprovalRule, ToolType};
use claude_gui::bridge::{ClaudeBridge, ClaudeStreamEvent};
use claude_gui::json::JsonValue;
use claude_gui::state::{AppState, Dispatch};
use claude_gui::types::{ApprovalAction, ApprovalType, ClaudeEvent};

fn bash(command: &str) -> ApprovalType {
    ApprovalType::BashCommand { command: command.to_string(), description: None }
}

fn request(command: &str) -> ClaudeEvent {
    ClaudeEvent::new("permission_request", JsonValue::Null).with_approval(bash(command))
}

fn started() -> AppState {
    let mut state = AppState::new();
    state.start_session("/work", "cli.js", None).unwrap();
    state.session_started();
    state
}

#[test]
fn git_status_is_auto_approved_and_recorded() {
    let mut state = started();
    state.set_rules(vec![ApprovalRule {
        id: "git".to_string(),
        name: "git".to_string(),
        description: String::new(),
        pattern: "^git (status|log|diff)".to_string(),
        tool: ToolType::Bash,
        enabled: true,
        auto_approve: true,
    }]);
    let before = state.get_status().auto_approved_count;
    match state.handle_event(request("git status")) {
        Dispatch::AutoApproved { matched_rule, response, .. } => {
            assert_eq!(matched_rule, "git");
            assert_eq!(response, Ok("y\n".to_string()));
        }
        other => panic!("unexpected {:?}", other),
    }
    let history = state.get_history();
    assert_eq!(history.len(), 1);
    assert!(history[0].auto_approved);
    assert_eq!(history[0].action, ApprovalAction::Approved);
    assert_eq!(history[0].matched_rule, Some("git".to_string()));
    assert_eq!(state.get_status().auto_approved_count, before + 1);
    assert!(!state.get_status().pending_approval);
}

#[test]
fn rm_waits_for_a_person_and_deny_counts() {
    let mut state = started();
    match state.handle_event(request("rm -rf /")) {
        Dispatch::ApprovalRequired(e) => assert!(e.requires_approval),
        other => panic!("unexpected {:?}", other),
    }
    assert!(state.get_status().pending_approval);
    let denied = state.get_status().denied_count;
    let resolution = state.deny().unwrap();
    assert_eq!(resolution.response, "n\n");
    assert_eq!(resolution.approval_type, Some(bash("rm -rf /")));
    let status = state.get_status();
    assert_eq!(status.denied_count, denied + 1);
    assert!(!status.pending_approval);
    assert_eq!(state.get_history()[0].action, ApprovalAction::Denied);
}

#[test]
fn approve_without_pending_fails_and_resolves_once() {
    let mut state = started();
    assert_eq!(state.approve().unwrap_err(), "No pending approval");
    assert_eq!(state.deny().unwrap_err(), "No pending approval");
    state.set_pending(request("make"));
    let r = state.approve().unwrap();
    assert_eq!(r.response, "y\n");
    assert_eq!(state.get_status().approved_count, 1);
    assert_eq!(state.approve().unwrap_err(), "No pending approval");
}

#[test]
fn approve_without_session_consumes_pending() {
    let mut state = AppState::new();
    state.set_pending(request("make"));
    assert_eq!(state.approve().unwrap_err(), "No active session");
    assert!(!state.get_status().pending_approval);
    assert!(state.get_history().is_empty());
}

#[test]
fn second_spawn_is_refused_without_disturbing_the_first() {
    let mut state = AppState::new();
    let plan = state.start_session("/one", "cli.js", Some("hello".to_string())).unwrap();
    assert_eq!(plan.program, "node");
    assert_eq!(plan.args, vec!["cli.js", "--output-format=stream-json", "-p", "hello"]);
    assert_eq!(plan.working_dir, "/one");
    let id = state.session_started();
    let before = state.get_status();
    let err = state.start_session("/two", "other.js", None).unwrap_err();
    assert_eq!(err, "Session already active");
    let after = state.get_status();
    assert!(after.is_active);
    assert_eq!(after.session_id, Some(id));
    assert_eq!(after.working_dir, Some("/one".to_string()));
    assert_eq!(after.started_at, before.started_at);
}

#[test]
fn history_keeps_the_most_recent_hundred() {
    let mut state = AppState::new();
    for i in 0..101 {
        state.add_history_entry(bash(&format!("cmd {}", i)), ApprovalAction::Approved, false, None);
    }
    let history = state.get_history();
    assert_eq!(history.len(), 100);
    for (k, entry) in history.iter().enumerate() {
        assert_eq!(entry.approval_type, bash(&format!("cmd {}", k + 1)));
    }
    assert_eq!(state.get_status().approved_count, 101);
    state.clear_history();
    assert!(state.get_history().is_empty());
    assert_eq!(state.get_status().approved_count, 0);
}

#[test]
fn assistant_line_then_plain_text_are_forwarded_in_order() {
    let mut state = started();
    let lines = [
        (
            "{\"type\":\"assistant\",\"message\":\"hi\"}",
            Some(ClaudeStreamEvent::Assistant { message: "hi".to_string(), session_id: None }),
        ),
        ("plain text", None),
    ];
    let mut kinds = Vec::new();
    for (line, record) in lines {
        let event = ClaudeBridge::translate_output_line(line, record).unwrap();
        match state.handle_event(event) {
            Dispatch::Forward(e) => kinds.push(e.event_type),
            other => panic!("unexpected {:?}", other),
        }
    }
    assert_eq!(kinds, vec!["assistant".to_string(), "raw_output".to_string()]);
}

#[test]
fn rules_round_trip_through_the_coordinator() {
    let mut state = AppState::new();
    let rules: Vec<ApprovalRule> = (0..4)
        .map(|i| ApprovalRule {
            id: format!("r{}", i),
            name: format!("rule {}", i),
            description: String::new(),
            pattern: format!("^x{}", i),
            tool: ToolType::All,
            enabled: i % 2 == 0,
            auto_approve: i % 3 == 0,
        })
        .collect();
    state.set_rules(rules.clone());
    let back = state.get_rules();
    assert_eq!(back.len(), 4);
    for (x, y) in back.iter().zip(rules.iter()) {
        assert_eq!(x.id, y.id);
        assert_eq!(x.enabled, y.enabled);
        assert_eq!(x.auto_approve, y.auto_approve);
    }
}

#[test]
fn stop_is_idempotent_and_clears_session() {
    let mut state = started();
    state.set_pending(request("make"));
    assert!(state.stop_session());
    let status = state.get_status();
    assert!(!status.is_active);
    assert_eq!(status.session_id, None);
    assert_eq!(status.started_at, None);
    assert!(!status.pending_approval);
    assert!(!state.stop_session());
    assert_eq!(state.send_input("x").unwrap_err(), "No active session");
}

#[test]
fn approve_all_flag_shows_in_status() {
    let mut state = started();
    state.set_auto_approve_all(true);
    assert!(state.get_status().auto_approve_all);
    match state.handle_event(request("rm -rf /")) {
        Dispatch::AutoApproved { matched_rule, .. } => assert_eq!(matched_rule, "auto_approve_all"),
        other => panic!("unexpected {:?}", other),
    }
    assert_eq!(state.send_input("hello\n"), Ok("hello\n".to_string()));
}
