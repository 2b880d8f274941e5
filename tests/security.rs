use claude_gui::security::{contains_shell_metacharacters, is_command_allowed};

#[test]
fn allowlist_accepts_prefixes_in_any_case() {
    assert!(is_command_allowed("git status"));
    assert!(is_command_allowed("GIT STATUS --short"));
    assert!(is_command_allowed("get-childitem C:\\"));
    assert!(is_command_allowed("ls -la"));
    assert!(!is_command_allowed("rm -rf /"));
    assert!(!is_command_allowed("git push"));
    assert!(!is_command_allowed(""));
}

#[test]
fn metacharacters_are_found() {
    assert!(contains_shell_metacharacters("echo safe && rm -rf /"));
    assert!(contains_shell_metacharacters("a | b"));
    assert!(contains_shell_metacharacters("echo $(whoami)"));
    assert!(contains_shell_metacharacters("cat x > y"));
    assert!(contains_shell_metacharacters("line\nbreak"));
    assert!(!contains_shell_metacharacters("git status"));
    assert!(!contains_shell_metacharacters(""));
}
