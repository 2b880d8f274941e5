//! The rule matcher and the approval engine.

use vstd::prelude::*;
use vstd::string::StringExecFns;

use crate::types::{ApprovalType, ApprovalView, opt_str_view};

verus! {

#[verifier::external_type_specification]
#[verifier::external_body]
pub struct ExRegex(regex::Regex);

/// Whether `regex::Regex::new` accepts `pattern`.
pub uninterp spec fn regex_compiles(pattern: Seq<char>) -> bool;

/// Whether the regular expression `pattern` matches somewhere in `haystack`.
pub uninterp spec fn regex_finds(pattern: Seq<char>, haystack: Seq<char>) -> bool;

/// A compiled regular expression together with the text it was compiled from.
pub struct CompiledPattern {
    source: String,
    regex: regex::Regex,
}

impl CompiledPattern {
    /// The text this matcher was compiled from.
    pub closed spec fn source(&self) -> Seq<char> {
        self.source@
    }
}

/// Relies on regex::Regex::new: whether it succeeds depends on the pattern
/// alone; the compiled matcher is kept with its source text.
#[verifier::external_body]
fn compile_pattern(pattern: &str) -> (r: Option<CompiledPattern>)
    ensures
        r is Some <==> regex_compiles(pattern@),
        r matches Some(c) ==> c.source() == pattern@,
{
    match regex::Regex::new(pattern) {
        Ok(regex) => Some(CompiledPattern { source: pattern.to_string(), regex }),
        Err(_) => None,
    }
}

/// Relies on regex::Regex::is_match: true iff the matcher, compiled from
/// `c.source()`, matches anywhere in `haystack`.
#[verifier::external_body]
fn pattern_finds(c: &CompiledPattern, haystack: &str) -> (r: bool)
    ensures
        r == regex_finds(c.source(), haystack@),
{
    c.regex.is_match(haystack)
}

/// The kind of action a rule applies to; `All` applies to every kind.
#[derive(Debug, Clone, Copy, PartialEq, Eq, Structural)]
pub enum ToolType {
    Bash,
    Write,
    Edit,
    Read,
    WebFetch,
    McpTool,
    All,
}

/// A pattern-based policy that may auto-approve actions.
#[derive(Debug)]
pub struct ApprovalRule {
    pub id: String,
    pub name: String,
    pub description: String,
    pub pattern: String,
    pub tool: ToolType,
    pub enabled: bool,
    pub auto_approve: bool,
}

impl Clone for ApprovalRule {
    fn clone(&self) -> (r: Self)
        ensures
            r == *self,
    {
        ApprovalRule {
            id: self.id.clone(),
            name: self.name.clone(),
            description: self.description.clone(),
            pattern: self.pattern.clone(),
            tool: self.tool,
            enabled: self.enabled,
            auto_approve: self.auto_approve,
        }
    }
}

/// The identifier reported when every action is approved.
pub open spec fn approve_all_id() -> Seq<char> {
    "auto_approve_all"@
}

/// The kind of an action and the text that rules are matched against: the
/// command, the path, the URL, or `server:tool`.
pub open spec fn render(a: ApprovalView) -> (ToolType, Seq<char>) {
    match a {
        ApprovalView::BashCommand { command, .. } => (ToolType::Bash, command),
        ApprovalView::FileWrite { path } => (ToolType::Write, path),
        ApprovalView::FileEdit { path, .. } => (ToolType::Edit, path),
        ApprovalView::FileRead { path } => (ToolType::Read, path),
        ApprovalView::WebFetch { url } => (ToolType::WebFetch, url),
        ApprovalView::McpTool { server, tool, .. } => (ToolType::McpTool, server + ":"@ + tool),
    }
}

/// Whether `r` auto-approves an action of kind `tool` rendered as `text`.
pub open spec fn rule_fires(r: ApprovalRule, tool: ToolType, text: Seq<char>) -> bool {
    &&& r.enabled
    &&& r.auto_approve
    &&& (r.tool == tool || r.tool == ToolType::All)
    &&& regex_compiles(r.pattern@)
    &&& regex_finds(r.pattern@, text)
}

/// The identifier of the first rule in `rules` that fires, if any.
pub open spec fn first_match(rules: Seq<ApprovalRule>, tool: ToolType, text: Seq<char>) -> Option<
    Seq<char>,
>
    decreases rules.len(),
{
    if rules.len() == 0 {
        None
    } else if rule_fires(rules[0], tool, text) {
        Some(rules[0].id@)
    } else {
        first_match(rules.drop_first(), tool, text)
    }
}

/// What the engine decides for action `a`.
pub open spec fn decision(rules: Seq<ApprovalRule>, approve_all: bool, a: ApprovalView) -> Option<
    Seq<char>,
> {
    if approve_all {
        Some(approve_all_id())
    } else {
        first_match(rules, render(a).0, render(a).1)
    }
}

/// `r` is the enabled rule with these parts.
pub open spec fn rule_has(
    r: ApprovalRule,
    id: Seq<char>,
    name: Seq<char>,
    description: Seq<char>,
    pattern: Seq<char>,
    tool: ToolType,
    auto_approve: bool,
) -> bool {
    &&& r.id@ == id
    &&& r.name@ == name
    &&& r.description@ == description
    &&& r.pattern@ == pattern
    &&& r.tool == tool
    &&& r.enabled
    &&& r.auto_approve == auto_approve
}

/// `s` is the default rule list.
pub open spec fn is_default_rule_list(s: Seq<ApprovalRule>) -> bool {
    &&& s.len() == 10
    &&& rule_has(
        s[0],
        "git-read"@,
        "Git Read Commands"@,
        "Safe read-only git commands"@,
        "^git\\s+(status|log|diff|branch|show|remote|tag|stash\\s+list)"@,
        ToolType::Bash,
        true,
    )
    &&& rule_has(
        s[1],
        "npm-read"@,
        "NPM Read Commands"@,
        "Safe npm/yarn info commands"@,
        "^(npm|yarn|pnpm)\\s+(list|ls|info|view|outdated|audit)"@,
        ToolType::Bash,
        true,
    )
    &&& rule_has(
        s[2],
        "npm-scripts"@,
        "NPM Run Scripts"@,
        "Run npm scripts defined in package.json"@,
        "^(npm|yarn|pnpm)\\s+run\\s+\\w+"@,
        ToolType::Bash,
        true,
    )
    &&& rule_has(
        s[3],
        "npm-install"@,
        "NPM Install"@,
        "Install dependencies"@,
        "^(npm|yarn|pnpm)\\s+(install|add|i)\\b"@,
        ToolType::Bash,
        false,
    )
    &&& rule_has(
        s[4],
        "dir-list"@,
        "Directory Listing"@,
        "Safe directory listing commands"@,
        "^(ls|dir|tree|pwd|cd)\\b"@,
        ToolType::Bash,
        true,
    )
    &&& rule_has(
        s[5],
        "file-read-cmd"@,
        "File Read Commands"@,
        "Read file content commands"@,
        "^(cat|type|head|tail|less|more)\\s+"@,
        ToolType::Bash,
        true,
    )
    &&& rule_has(
        s[6],
        "cargo-safe"@,
        "Cargo Safe Commands"@,
        "Safe Rust/Cargo commands"@,
        "^cargo\\s+(check|build|test|clippy|fmt|doc)"@,
        ToolType::Bash,
        true,
    )
    &&& rule_has(
        s[7],
        "python-safe"@,
        "Python Safe Commands"@,
        "Safe Python commands"@,
        "^(python|python3|pip)\\s+(--version|-V|list|show|freeze)"@,
        ToolType::Bash,
        true,
    )
    &&& rule_has(
        s[8],
        "tool-read"@,
        "File Read Tool"@,
        "Allow reading files"@,
        ".*"@,
        ToolType::Read,
        true,
    )
    &&& rule_has(
        s[9],
        "web-docs"@,
        "Documentation URLs"@,
        "Fetch from documentation sites"@,
        "^https?://(docs\\.|developer\\.|api\\.|stackoverflow\\.com|github\\.com)"@,
        ToolType::WebFetch,
        true,
    )
}

/// Skipping a rule that does not fire leaves the first match unchanged.
proof fn lemma_first_match_skip(rules: Seq<ApprovalRule>, tool: ToolType, text: Seq<char>, i: int)
    requires
        0 <= i < rules.len(),
        !rule_fires(rules[i], tool, text),
    ensures
        first_match(rules.subrange(i, rules.len() as int), tool, text) == first_match(
            rules.subrange(i + 1, rules.len() as int),
            tool,
            text,
        ),
{
    let s = rules.subrange(i, rules.len() as int);
    assert(s.drop_first() =~= rules.subrange(i + 1, rules.len() as int));
}

/// When everything is approved, the decision is the approve-all identifier,
/// whatever the rules and the action.
pub proof fn lemma_approve_all_wins(rules: Seq<ApprovalRule>, a: ApprovalView)
    ensures
        decision(rules, true, a) == Some(approve_all_id()),
{
}

/// When the rule at `i` fires on the action and no earlier rule does, the
/// decision is that rule's identifier.
pub proof fn lemma_first_firing_rule_wins(rules: Seq<ApprovalRule>, a: ApprovalView, i: int)
    requires
        0 <= i < rules.len(),
        rule_fires(rules[i], render(a).0, render(a).1),
        forall|j: int| 0 <= j < i ==> !rule_fires(#[trigger] rules[j], render(a).0, render(a).1),
    ensures
        decision(rules, false, a) == Some(rules[i].id@),
    decreases i,
{
    if i > 0 {
        let rest = rules.drop_first();
        assert forall|j: int| 0 <= j < i - 1 implies !rule_fires(
            #[trigger] rest[j],
            render(a).0,
            render(a).1,
        ) by {
            assert(rest[j] == rules[j + 1]);
        }
        assert(!rule_fires(rules[0], render(a).0, render(a).1));
        lemma_first_firing_rule_wins(rest, a, i - 1);
    }
}

/// A rule that is disabled, or not set to auto-approve, never decides:
/// removing it from the list leaves every decision unchanged.
pub proof fn lemma_inert_rule_never_matches(
    rules: Seq<ApprovalRule>,
    approve_all: bool,
    a: ApprovalView,
    i: int,
)
    requires
        0 <= i < rules.len(),
        !rules[i].enabled || !rules[i].auto_approve,
    ensures
        decision(rules, approve_all, a) == decision(rules.remove(i), approve_all, a),
    decreases i,
{
    if !approve_all {
        if i == 0 {
            assert(rules.remove(0) =~= rules.drop_first());
        } else {
            let rest = rules.drop_first();
            assert(rest[i - 1] == rules[i]);
            lemma_inert_rule_never_matches(rest, approve_all, a, i - 1);
            assert(rules.remove(i).drop_first() =~= rest.remove(i - 1));
            assert(rules.remove(i)[0] == rules[0]);
        }
    }
}

/// The engine: an ordered rule list, one matcher per rule, and the switch
/// that approves everything.
pub struct AutoApproveEngine {
    rules: Vec<ApprovalRule>,
    compiled_patterns: Vec<Option<CompiledPattern>>,
    auto_approve_all: bool,
}

impl AutoApproveEngine {
    /// The installed rules, in order.
    pub closed spec fn rule_list(&self) -> Seq<ApprovalRule> {
        self.rules@
    }

    /// Whether every action is approved.
    pub closed spec fn approves_all(&self) -> bool {
        self.auto_approve_all
    }

    /// Each rule has its matcher exactly when its pattern compiles.
    pub closed spec fn wf(&self) -> bool {
        &&& self.compiled_patterns@.len() == self.rules@.len()
        &&& forall|i: int|
            0 <= i < self.rules@.len() ==> {
                &&& (#[trigger] self.compiled_patterns@[i] is Some <==> regex_compiles(
                    self.rules@[i].pattern@,
                ))
                &&& (self.compiled_patterns@[i] matches Some(c) ==> c.source()
                    == self.rules@[i].pattern@)
            }
    }

    /// An engine with the default rules, not approving everything.
    pub fn new() -> (r: Self)
        ensures
            r.wf(),
            is_default_rule_list(r.rule_list()),
            !r.approves_all(),
    {
        let rules = Self::default_rules();
        let mut engine = AutoApproveEngine {
            rules: Vec::new(),
            compiled_patterns: Vec::new(),
            auto_approve_all: false,
        };
        engine.set_rules(rules);
        engine
    }

    /// The default rules: read-only and inspection commands approved,
    /// installs present but left to a person.
    fn default_rules() -> (r: Vec<ApprovalRule>)
        ensures
            is_default_rule_list(r@),
    {
        let mut v: Vec<ApprovalRule> = Vec::new();
        v.push(
            rule(
                "git-read",
                "Git Read Commands",
                "Safe read-only git commands",
                "^git\\s+(status|log|diff|branch|show|remote|tag|stash\\s+list)",
                ToolType::Bash,
                true,
            ),
        );
        v.push(
            rule(
                "npm-read",
                "NPM Read Commands",
                "Safe npm/yarn info commands",
                "^(npm|yarn|pnpm)\\s+(list|ls|info|view|outdated|audit)",
                ToolType::Bash,
                true,
            ),
        );
        v.push(
            rule(
                "npm-scripts",
                "NPM Run Scripts",
                "Run npm scripts defined in package.json",
                "^(npm|yarn|pnpm)\\s+run\\s+\\w+",
                ToolType::Bash,
                true,
            ),
        );
        v.push(
            rule(
                "npm-install",
                "NPM Install",
                "Install dependencies",
                "^(npm|yarn|pnpm)\\s+(install|add|i)\\b",
                ToolType::Bash,
                false,
            ),
        );
        v.push(
            rule(
                "dir-list",
                "Directory Listing",
                "Safe directory listing commands",
                "^(ls|dir|tree|pwd|cd)\\b",
                ToolType::Bash,
                true,
            ),
        );
        v.push(
            rule(
                "file-read-cmd",
                "File Read Commands",
                "Read file content commands",
                "^(cat|type|head|tail|less|more)\\s+",
                ToolType::Bash,
                true,
            ),
        );
        v.push(
            rule(
                "cargo-safe",
                "Cargo Safe Commands",
                "Safe Rust/Cargo commands",
                "^cargo\\s+(check|build|test|clippy|fmt|doc)",
                ToolType::Bash,
                true,
            ),
        );
        v.push(
            rule(
                "python-safe",
                "Python Safe Commands",
                "Safe Python commands",
                "^(python|python3|pip)\\s+(--version|-V|list|show|freeze)",
                ToolType::Bash,
                true,
            ),
        );
        v.push(
            rule(
                "tool-read",
                "File Read Tool",
                "Allow reading files",
                ".*",
                ToolType::Read,
                true,
            ),
        );
        v.push(
            rule(
                "web-docs",
                "Documentation URLs",
                "Fetch from documentation sites",
                "^https?://(docs\\.|developer\\.|api\\.|stackoverflow\\.com|github\\.com)",
                ToolType::WebFetch,
                true,
            ),
        );
        v
    }

    /// Replaces the rule list and compiles one matcher per rule; a rule
    /// whose pattern does not compile stays in the list and never fires.
    pub fn set_rules(&mut self, rules: Vec<ApprovalRule>)
        ensures
            final(self).wf(),
            final(self).rule_list() == rules@,
            final(self).approves_all() == old(self).approves_all(),
    {
        let mut compiled: Vec<Option<CompiledPattern>> = Vec::new();
        let mut i: usize = 0;
        while i < rules.len()
            invariant
                i <= rules@.len(),
                compiled@.len() == i,
                forall|j: int|
                    0 <= j < i ==> {
                        &&& (#[trigger] compiled@[j] is Some <==> regex_compiles(rules@[j].pattern@))
                        &&& (compiled@[j] matches Some(c) ==> c.source() == rules@[j].pattern@)
                    },
            decreases rules@.len() - i,
        {
            let c = compile_pattern(rules[i].pattern.as_str());
            compiled.push(c);
            i = i + 1;
        }
        self.compiled_patterns = compiled;
        self.rules = rules;
    }

    /// The installed rules, in order.
    pub fn get_rules(&self) -> (r: &[ApprovalRule])
        ensures
            r@ == self.rule_list(),
    {
        self.rules.as_slice()
    }

    /// Turns approving everything on or off.
    pub fn set_auto_approve_all(&mut self, enabled: bool)
        ensures
            final(self).approves_all() == enabled,
            final(self).rule_list() == old(self).rule_list(),
            old(self).wf() ==> final(self).wf(),
    {
        self.auto_approve_all = enabled;
    }

    /// Whether every action is approved.
    pub fn is_auto_approve_all(&self) -> (r: bool)
        ensures
            r == self.approves_all(),
    {
        self.auto_approve_all
    }

    /// The identifier of the rule that approves `approval_type`, the
    /// approve-all identifier when everything is approved, or `None`.
    pub fn should_auto_approve(&self, approval_type: &ApprovalType) -> (r: Option<String>)
        requires
            self.wf(),
        ensures
            opt_str_view(r) == decision(self.rule_list(), self.approves_all(), approval_type@),
    {
        if self.auto_approve_all {
            return Some("auto_approve_all".to_string());
        }
        match approval_type {
            ApprovalType::BashCommand { command, .. } => self.match_rules(
                command.as_str(),
                ToolType::Bash,
            ),
            ApprovalType::FileWrite { path } => self.match_rules(path.as_str(), ToolType::Write),
            ApprovalType::FileEdit { path, .. } => self.match_rules(path.as_str(), ToolType::Edit),
            ApprovalType::FileRead { path } => self.match_rules(path.as_str(), ToolType::Read),
            ApprovalType::WebFetch { url } => self.match_rules(url.as_str(), ToolType::WebFetch),
            ApprovalType::McpTool { server, tool, .. } => {
                let mut combined = server.clone();
                combined.append(":");
                combined.append(tool.as_str());
                self.match_rules(combined.as_str(), ToolType::McpTool)
            },
        }
    }

    /// The identifier of the first rule that fires on `input`.
    fn match_rules(&self, input: &str, tool_type: ToolType) -> (r: Option<String>)
        requires
            self.wf(),
        ensures
            opt_str_view(r) == first_match(self.rule_list(), tool_type, input@),
    {
        let n = self.rules.len();
        let mut i: usize = 0;
        proof {
            assert(self.rules@.subrange(0, n as int) =~= self.rules@);
        }
        while i < n
            invariant
                self.wf(),
                n == self.rules@.len(),
                i <= n,
                first_match(self.rules@, tool_type, input@) == first_match(
                    self.rules@.subrange(i as int, n as int),
                    tool_type,
                    input@,
                ),
            decreases n - i,
        {
            let rule = &self.rules[i];
            let fires = if !rule.enabled || !rule.auto_approve {
                false
            } else if rule.tool != tool_type && rule.tool != ToolType::All {
                false
            } else {
                match &self.compiled_patterns[i] {
                    Some(c) => pattern_finds(c, input),
                    None => false,
                }
            };
            if fires {
                proof {
                    let s = self.rules@.subrange(i as int, n as int);
                    assert(s[0] == self.rules@[i as int]);
                }
                return Some(rule.id.clone());
            }
            proof {
                lemma_first_match_skip(self.rules@, tool_type, input@, i as int);
            }
            i = i + 1;
        }
        proof {
            assert(self.rules@.subrange(n as int, n as int).len() == 0);
        }
        None
    }
}

impl Default for AutoApproveEngine {
    fn default() -> (r: Self)
        ensures
            r.wf(),
            is_default_rule_list(r.rule_list()),
            !r.approves_all(),
    {
        Self::new()
    }
}

/// A rule built from its parts.
fn rule(
    id: &str,
    name: &str,
    description: &str,
    pattern: &str,
    tool: ToolType,
    auto_approve: bool,
) -> (r: ApprovalRule)
    ensures
        rule_has(r, id@, name@, description@, pattern@, tool, auto_approve),
{
    ApprovalRule {
        id: id.to_string(),
        name: name.to_string(),
        description: description.to_string(),
        pattern: pattern.to_string(),
        tool,
        enabled: true,
        auto_approve,
    }
}

} // verus!
