use claude_gui::auto_approve::{ApprovalRule, AutoApproveEngine, ToolType};
use claude_gui::json::{JsonMember, JsonValue};
use claude_gui::types::ApprovalType;

fn bash(command: &str) -> ApprovalType {
    ApprovalType::BashCommand { command: command.to_string(), description: None }
}

fn make_rule(id: &str, pattern: &str, tool: ToolType, enabled: bool, auto_approve: bool) -> ApprovalRule {
    ApprovalRule {
        id: id.to_string(),
        name: id.to_string(),
        description: String::new(),
        pattern: pattern.to_string(),
        tool,
        enabled,
        auto_approve,
    }
}

#[test]
fn test_git_status_auto_approve() {
    let engine = AutoApproveEngine::new();
    let approval = ApprovalType::BashCommand {
        command: "git status".to_string(),
        description: None,
    };

    assert!(engine.should_auto_approve(&approval).is_some());
}

#[test]
fn test_rm_not_auto_approve() {
    let engine = AutoApproveEngine::new();
    let approval = ApprovalType::BashCommand {
        command: "rm -rf /".to_string(),
        description: None,
    };

    assert!(engine.should_auto_approve(&approval).is_none());
}

#[test]
fn default_rules_match_expected_ids() {
    let engine = AutoApproveEngine::new();
    assert_eq!(engine.get_rules().len(), 10);
    assert_eq!(engine.should_auto_approve(&bash("git status")), Some("git-read".to_string()));
    assert_eq!(engine.should_auto_approve(&bash("cargo test")), Some("cargo-safe".to_string()));
    assert_eq!(engine.should_auto_approve(&bash("ls -la")), Some("dir-list".to_string()));
    // installs are present but left to a person
    assert_eq!(engine.should_auto_approve(&bash("npm install left-pad")), None);
    let read = ApprovalType::FileRead { path: "/etc/hosts".to_string() };
    assert_eq!(engine.should_auto_approve(&read), Some("tool-read".to_string()));
    let write = ApprovalType::FileWrite { path: "/tmp/x".to_string() };
    assert_eq!(engine.should_auto_approve(&write), None);
    let docs = ApprovalType::WebFetch { url: "https://docs.rs/regex".to_string() };
    assert_eq!(engine.should_auto_approve(&docs), Some("web-docs".to_string()));
    let other = ApprovalType::WebFetch { url: "https://example.com".to_string() };
    assert_eq!(engine.should_auto_approve(&other), None);
}

#[test]
fn approve_all_overrides_rules() {
    let mut engine = AutoApproveEngine::new();
    engine.set_rules(Vec::new());
    engine.set_auto_approve_all(true);
    assert!(engine.is_auto_approve_all());
    assert_eq!(engine.should_auto_approve(&bash("rm -rf /")), Some("auto_approve_all".to_string()));
    let mcp = ApprovalType::McpTool { server: "s".to_string(), tool: "t".to_string(), input: None };
    assert_eq!(engine.should_auto_approve(&mcp), Some("auto_approve_all".to_string()));
    engine.set_auto_approve_all(false);
    assert_eq!(engine.should_auto_approve(&bash("rm -rf /")), None);
}

#[test]
fn first_matching_rule_wins() {
    let mut engine = AutoApproveEngine::new();
    engine.set_rules(vec![
        make_rule("never", "^zzz", ToolType::Bash, true, true),
        make_rule("first", "^echo", ToolType::Bash, true, true),
        make_rule("second", "echo", ToolType::All, true, true),
    ]);
    assert_eq!(engine.should_auto_approve(&bash("echo hi")), Some("first".to_string()));
    assert_eq!(engine.should_auto_approve(&bash("say echo")), Some("second".to_string()));
    assert_eq!(engine.should_auto_approve(&bash("true")), None);
}

#[test]
fn disabled_or_manual_rules_never_match() {
    let mut engine = AutoApproveEngine::new();
    engine.set_rules(vec![
        make_rule("off", ".*", ToolType::All, false, true),
        make_rule("manual", ".*", ToolType::All, true, false),
    ]);
    assert_eq!(engine.should_auto_approve(&bash("anything")), None);
    let write = ApprovalType::FileWrite { path: "a".to_string() };
    assert_eq!(engine.should_auto_approve(&write), None);
}

#[test]
fn bad_pattern_is_kept_but_never_fires() {
    let mut engine = AutoApproveEngine::new();
    engine.set_rules(vec![
        make_rule("broken", "(", ToolType::Bash, true, true),
        make_rule("ok", "^ls", ToolType::Bash, true, true),
    ]);
    assert_eq!(engine.get_rules().len(), 2);
    assert_eq!(engine.should_auto_approve(&bash("ls")), Some("ok".to_string()));
    assert_eq!(engine.should_auto_approve(&bash("(")), None);
}

#[test]
fn tool_type_must_agree() {
    let mut engine = AutoApproveEngine::new();
    engine.set_rules(vec![make_rule("writes", "^/tmp/", ToolType::Write, true, true)]);
    let write = ApprovalType::FileWrite { path: "/tmp/a".to_string() };
    let edit = ApprovalType::FileEdit { path: "/tmp/a".to_string(), changes: None };
    assert_eq!(engine.should_auto_approve(&write), Some("writes".to_string()));
    assert_eq!(engine.should_auto_approve(&edit), None);
}

#[test]
fn extension_tools_match_server_colon_tool() {
    let mut engine = AutoApproveEngine::new();
    engine.set_rules(vec![make_rule("mem", "^memory:read$", ToolType::McpTool, true, true)]);
    let input = JsonValue::Object(vec![JsonMember { key: "k".to_string(), value: JsonValue::Null }]);
    let hit = ApprovalType::McpTool {
        server: "memory".to_string(),
        tool: "read".to_string(),
        input: Some(input),
    };
    let miss = ApprovalType::McpTool { server: "memory".to_string(), tool: "write".to_string(), input: None };
    assert_eq!(engine.should_auto_approve(&hit), Some("mem".to_string()));
    assert_eq!(engine.should_auto_approve(&miss), None);
}

#[test]
fn replaced_rules_read_back_in_order() {
    let mut engine = AutoApproveEngine::new();
    let rules = vec![
        make_rule("a", "^a", ToolType::Bash, true, false),
        make_rule("b", "^b", ToolType::Read, false, true),
        make_rule("c", "^c", ToolType::All, true, true),
    ];
    engine.set_rules(rules.clone());
    let back = engine.get_rules();
    assert_eq!(back.len(), 3);
    for (x, y) in back.iter().zip(rules.iter()) {
        assert_eq!(x.id, y.id);
        assert_eq!(x.pattern, y.pattern);
        assert_eq!(x.tool, y.tool);
        assert_eq!(x.enabled, y.enabled);
        assert_eq!(x.auto_approve, y.auto_approve);
    }
}
