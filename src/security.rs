//! Allowlist and metacharacter checks for shell commands.

use vstd::prelude::*;

use crate::text::{has_infix, has_prefix, lower_of, lowercase, str_contains, str_starts_with};

verus! {

/// The commands, and command prefixes, that may run.
pub open spec fn allowed_command_list() -> Seq<Seq<char>> {
    seq![
        "dir"@,
        "ls"@,
        "pwd"@,
        "cd"@,
        "echo"@,
        "type"@,
        "cat"@,
        "head"@,
        "tail"@,
        "tree"@,
        "find"@,
        "where"@,
        "ver"@,
        "uname"@,
        "Get-Date"@,
        "Get-Location"@,
        "Get-ChildItem"@,
        "Get-Content"@,
        "Test-Path"@,
        "Resolve-Path"@,
        "Select-String"@,
        "Measure-Object"@,
        "whoami"@,
        "hostname"@,
        "systeminfo"@,
        "ipconfig"@,
        "netstat"@,
        "tasklist"@,
        "git status"@,
        "git log"@,
        "git branch"@,
        "git diff"@,
        "git remote -v"@,
        "git show"@,
        "node --version"@,
        "npm --version"@,
        "npm list"@,
        "npm run build"@,
        "npx tsc"@,
        "python --version"@,
        "pip list"@,
    ]
}

/// The allowlist, in order.
pub fn allowed_commands() -> (r: Vec<&'static str>)
    ensures
        r@.len() == allowed_command_list().len(),
        forall|i: int| 0 <= i < r@.len() ==> (#[trigger] r@[i])@ == allowed_command_list()[i],
{
    let mut v: Vec<&'static str> = Vec::new();
    v.push("dir");
    v.push("ls");
    v.push("pwd");
    v.push("cd");
    v.push("echo");
    v.push("type");
    v.push("cat");
    v.push("head");
    v.push("tail");
    v.push("tree");
    v.push("find");
    v.push("where");
    v.push("ver");
    v.push("uname");
    v.push("Get-Date");
    v.push("Get-Location");
    v.push("Get-ChildItem");
    v.push("Get-Content");
    v.push("Test-Path");
    v.push("Resolve-Path");
    v.push("Select-String");
    v.push("Measure-Object");
    v.push("whoami");
    v.push("hostname");
    v.push("systeminfo");
    v.push("ipconfig");
    v.push("netstat");
    v.push("tasklist");
    v.push("git status");
    v.push("git log");
    v.push("git branch");
    v.push("git diff");
    v.push("git remote -v");
    v.push("git show");
    v.push("node --version");
    v.push("npm --version");
    v.push("npm list");
    v.push("npm run build");
    v.push("npx tsc");
    v.push("python --version");
    v.push("pip list");
    v
}

/// Whether `command`, lowercased, begins with some lowercased allowlist entry.
pub open spec fn command_allowed(command: Seq<char>) -> bool {
    exists|i: int|
        0 <= i < allowed_command_list().len() && has_prefix(
            lower_of(command),
            lower_of(#[trigger] allowed_command_list()[i]),
        )
}

/// Whether `text` begins with one of `prefixes`.
pub fn starts_with_any(text: &str, prefixes: &Vec<String>) -> (r: bool)
    ensures
        r == exists|i: int| 0 <= i < prefixes@.len() && has_prefix(text@, (#[trigger] prefixes@[i])@),
{
    let mut i: usize = 0;
    while i < prefixes.len()
        invariant
            i <= prefixes@.len(),
            forall|j: int| 0 <= j < i ==> !has_prefix(text@, (#[trigger] prefixes@[j])@),
        decreases prefixes@.len() - i,
    {
        if str_starts_with(text, prefixes[i].as_str()) {
            return true;
        }
        i = i + 1;
    }
    false
}

/// Whether a command is on the allowlist: its lowercase form begins with the
/// lowercase form of an entry.
pub fn is_command_allowed(command: &str) -> (r: bool)
    ensures
        r == command_allowed(command@),
{
    let cmd_lower = lowercase(command);
    let allowed = allowed_commands();
    let mut lowered: Vec<String> = Vec::new();
    let mut i: usize = 0;
    while i < allowed.len()
        invariant
            allowed@.len() == allowed_command_list().len(),
            forall|j: int| 0 <= j < allowed@.len() ==> (#[trigger] allowed@[j])@ == allowed_command_list()[j],
            i <= allowed@.len(),
            lowered@.len() == i,
            forall|j: int| 0 <= j < i ==> (#[trigger] lowered@[j])@ == lower_of(allowed_command_list()[j]),
        decreases allowed@.len() - i,
    {
        lowered.push(lowercase(allowed[i]));
        i = i + 1;
    }
    let r = starts_with_any(cmd_lower.as_str(), &lowered);
    proof {
        if r {
            let k = choose|k: int| 0 <= k < lowered@.len() && has_prefix(cmd_lower@, (#[trigger] lowered@[k])@);
            assert(has_prefix(lower_of(command@), lower_of(allowed_command_list()[k])));
        } else {
            assert forall|k: int| 0 <= k < allowed_command_list().len() implies !has_prefix(
                lower_of(command@),
                lower_of(#[trigger] allowed_command_list()[k]),
            ) by {
                assert(lowered@[k]@ == lower_of(allowed_command_list()[k]));
            }
        }
    }
    r
}

/// Whether `cmd` holds a sequence that chains, substitutes or redirects
/// commands.
pub open spec fn has_shell_metacharacters(cmd: Seq<char>) -> bool {
    ||| has_infix(cmd, "&&"@)
    ||| has_infix(cmd, "||"@)
    ||| has_infix(cmd, ";"@)
    ||| has_infix(cmd, "|"@)
    ||| has_infix(cmd, "`"@)
    ||| has_infix(cmd, "$("@)
    ||| has_infix(cmd, "${"@)
    ||| has_infix(cmd, "\n"@)
    ||| has_infix(cmd, "\r"@)
    ||| has_infix(cmd, "\0"@)
    ||| has_infix(cmd, ">"@)
    ||| has_infix(cmd, "<"@)
}

/// Whether `cmd` holds a sequence that chains, substitutes or redirects
/// commands; meant to run before the allowlist check.
pub fn contains_shell_metacharacters(cmd: &str) -> (r: bool)
    ensures
        r == has_shell_metacharacters(cmd@),
{
    str_contains(cmd, "&&") || str_contains(cmd, "||") || str_contains(cmd, ";")
        || str_contains(cmd, "|") || str_contains(cmd, "`") || str_contains(cmd, "$(")
        || str_contains(cmd, "${") || str_contains(cmd, "\n") || str_contains(cmd, "\r")
        || str_contains(cmd, "\0") || str_contains(cmd, ">") || str_contains(cmd, "<")
}

} // verus!
