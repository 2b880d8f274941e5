//! The session coordinator: the bridge's bookkeeping, the approval engine,
//! the pending-approval slot, the bounded history and the counters.
//!
//! The pending slot holds a single event: a newer request that no rule
//! approves replaces an unresolved one, and only the newest can be answered,
//! since the process's prompt answers the most recent question.

use vstd::prelude::*;

use crate::auto_approve::{ApprovalRule, AutoApproveEngine, decision, is_default_rule_list};
use crate::bridge::{ClaudeBridge, SpawnPlan, spawn_plan_is};
use crate::types::{
    ApprovalAction, ApprovalHistoryEntry, ApprovalType, ApprovalView, ClaudeEvent, EntryView,
    EventView, SessionStatus, clone_opt_action, fresh_id, now_millis, opt_action_view,
    opt_str_view,
};

verus! {

/// The most entries the history keeps.
pub const HISTORY_LIMIT: usize = 100;

/// `h` with `e` appended, dropping the oldest entry when over the limit.
pub open spec fn bounded_push<T>(h: Seq<T>, e: T) -> Seq<T> {
    let pushed = h.push(e);
    if pushed.len() > HISTORY_LIMIT {
        pushed.drop_first()
    } else {
        pushed
    }
}

/// The history after appending each of `entries` in turn to an empty one.
pub open spec fn history_after<T>(entries: Seq<T>) -> Seq<T>
    decreases entries.len(),
{
    if entries.len() == 0 {
        Seq::empty()
    } else {
        bounded_push(history_after(entries.drop_last()), entries.last())
    }
}

/// The most recent `HISTORY_LIMIT` of `entries`, in their order.
pub open spec fn most_recent<T>(entries: Seq<T>) -> Seq<T> {
    if entries.len() > HISTORY_LIMIT {
        entries.subrange(entries.len() - HISTORY_LIMIT, entries.len() as int)
    } else {
        entries
    }
}

/// Appending to a history within the limit keeps it within the limit.
pub proof fn lemma_history_bounded<T>(h: Seq<T>, e: T)
    requires
        h.len() <= HISTORY_LIMIT,
    ensures
        bounded_push(h, e).len() <= HISTORY_LIMIT,
{
}

/// Whatever entries are appended, the history holds exactly the most recent
/// `HISTORY_LIMIT` of them, oldest first: the older ones are gone.
pub proof fn lemma_history_keeps_most_recent<T>(entries: Seq<T>)
    ensures
        history_after(entries) == most_recent(entries),
        history_after(entries).len() <= HISTORY_LIMIT,
    decreases entries.len(),
{
    if entries.len() > 0 {
        let prefix = entries.drop_last();
        lemma_history_keeps_most_recent(prefix);
        let pushed = most_recent(prefix).push(entries.last());
        if prefix.len() > HISTORY_LIMIT {
            assert(pushed.drop_first() =~= most_recent(entries));
        } else if prefix.len() == HISTORY_LIMIT {
            assert(pushed.drop_first() =~= most_recent(entries));
        } else {
            assert(pushed =~= entries);
        }
    }
}

/// After 101 entries the oldest is gone and the other 100 remain, in order.
pub proof fn lemma_history_drops_oldest<T>(entries: Seq<T>)
    requires
        entries.len() == HISTORY_LIMIT + 1,
    ensures
        history_after(entries) == entries.subrange(1, entries.len() as int),
        history_after(entries).len() == HISTORY_LIMIT,
{
    lemma_history_keeps_most_recent(entries);
}

/// Recording one more entry in a history built from `entries` gives the
/// history built from `entries` followed by that entry.
pub proof fn lemma_history_step<T>(entries: Seq<T>, e: T)
    ensures
        bounded_push(history_after(entries), e) == history_after(entries.push(e)),
{
    assert(entries.push(e).drop_last() =~= entries);
}

/// `c` plus one, staying at the maximum.
pub open spec fn bump(c: u32) -> u32 {
    if c < u32::MAX {
        (c + 1) as u32
    } else {
        c
    }
}

/// `c` plus one, staying at the maximum.
fn bumped(c: u32) -> (r: u32)
    ensures
        r == bump(c),
{
    if c < u32::MAX {
        c + 1
    } else {
        c
    }
}

/// Running counts of decisions.
#[derive(Debug, Clone, Copy, PartialEq, Eq, Structural)]
pub struct SessionStats {
    pub approved_count: u32,
    pub denied_count: u32,
    pub auto_approved_count: u32,
}

impl Default for SessionStats {
    fn default() -> (r: Self)
        ensures
            r == (SessionStats { approved_count: 0, denied_count: 0, auto_approved_count: 0 }),
    {
        SessionStats { approved_count: 0, denied_count: 0, auto_approved_count: 0 }
    }
}

/// The counters after recording one decision.
pub open spec fn stats_after(s: SessionStats, action: ApprovalAction, auto_approved: bool) -> SessionStats {
    match action {
        ApprovalAction::Approved => if auto_approved {
            SessionStats { auto_approved_count: bump(s.auto_approved_count), ..s }
        } else {
            SessionStats { approved_count: bump(s.approved_count), ..s }
        },
        ApprovalAction::Denied => SessionStats { denied_count: bump(s.denied_count), ..s },
    }
}

/// What the caller is told about one event from the bridge.
#[derive(Debug)]
pub enum Dispatch {
    /// An event needing no approval, passed on unchanged.
    Forward(ClaudeEvent),
    /// An event approved by a rule; `response` is the text to write back to
    /// the process, or why there is none.
    AutoApproved { event: ClaudeEvent, matched_rule: String, response: Result<String, String> },
    /// An event now waiting in the pending slot for a person's decision.
    ApprovalRequired(ClaudeEvent),
}

/// The outcome of a person's decision on the pending event.
#[derive(Debug)]
pub struct Resolution {
    /// The action that was decided on.
    pub approval_type: Option<ApprovalType>,
    /// The text to write to the process's input.
    pub response: String,
}

/// The coordinator.
pub struct AppState {
    bridge: ClaudeBridge,
    auto_approve: AutoApproveEngine,
    pending_approval: Option<ClaudeEvent>,
    history: Vec<ApprovalHistoryEntry>,
    started_at: Option<i64>,
    stats: SessionStats,
}

impl AppState {
    /// The bridge's bookkeeping.
    pub closed spec fn spec_bridge(&self) -> ClaudeBridge {
        self.bridge
    }

    /// The approval engine.
    pub closed spec fn spec_engine(&self) -> AutoApproveEngine {
        self.auto_approve
    }

    /// The event waiting for a decision, if any.
    pub closed spec fn spec_pending(&self) -> Option<EventView> {
        match self.pending_approval {
            Some(e) => Some(e@),
            None => None,
        }
    }

    /// The history, oldest first.
    pub closed spec fn spec_history(&self) -> Seq<EntryView> {
        self.history@.map_values(|e: ApprovalHistoryEntry| e@)
    }

    /// When the current session started.
    pub closed spec fn spec_started_at(&self) -> Option<i64> {
        self.started_at
    }

    /// The counters.
    pub closed spec fn spec_stats(&self) -> SessionStats {
        self.stats
    }

    /// The engine is well formed and the history within its limit.
    pub closed spec fn wf(&self) -> bool {
        &&& self.auto_approve.wf()
        &&& self.history@.len() <= HISTORY_LIMIT
    }

    /// A coordinator with no session, the default rules, and nothing recorded.
    pub fn new() -> (r: Self)
        ensures
            r.wf(),
            !r.spec_bridge().spec_active(),
            is_default_rule_list(r.spec_engine().rule_list()),
            !r.spec_engine().approves_all(),
            r.spec_pending() is None,
            r.spec_history().len() == 0,
            r.spec_started_at() is None,
            r.spec_stats() == (SessionStats {
                approved_count: 0,
                denied_count: 0,
                auto_approved_count: 0,
            }),
    {
        let r = AppState {
            bridge: ClaudeBridge::new(),
            auto_approve: AutoApproveEngine::new(),
            pending_approval: None,
            history: Vec::new(),
            started_at: None,
            stats: SessionStats::default(),
        };
        assert(r.spec_history() =~= Seq::<EntryView>::empty());
        r
    }

    /// A snapshot of the coordinator.
    pub fn get_status(&self) -> (r: SessionStatus)
        ensures
            r.is_active == self.spec_bridge().spec_active(),
            opt_str_view(r.session_id) == self.spec_bridge().spec_session_id(),
            opt_str_view(r.working_dir) == (if self.spec_bridge().spec_active() {
                Some(self.spec_bridge().spec_working_dir())
            } else {
                None
            }),
            r.started_at == self.spec_started_at(),
            r.pending_approval == self.spec_pending() is Some,
            r.auto_approve_all == self.spec_engine().approves_all(),
            r.approved_count == self.spec_stats().approved_count,
            r.denied_count == self.spec_stats().denied_count,
            r.auto_approved_count == self.spec_stats().auto_approved_count,
    {
        let session_id = match self.bridge.session_id() {
            Some(s) => Some(s.to_string()),
            None => None,
        };
        let working_dir = if self.bridge.is_active() {
            Some(self.bridge.working_dir().to_string())
        } else {
            None
        };
        SessionStatus {
            is_active: self.bridge.is_active(),
            session_id,
            working_dir,
            started_at: self.started_at,
            pending_approval: self.pending_approval.is_some(),
            auto_approve_all: self.auto_approve.is_auto_approve_all(),
            approved_count: self.stats.approved_count,
            denied_count: self.stats.denied_count,
            auto_approved_count: self.stats.auto_approved_count,
        }
    }

    /// Records a decision: appends an entry with a fresh identifier and the
    /// current time, dropping the oldest beyond the limit, and counts it.
    pub fn add_history_entry(
        &mut self,
        approval_type: ApprovalType,
        action: ApprovalAction,
        auto_approved: bool,
        matched_rule: Option<String>,
    )
        requires
            old(self).wf(),
        ensures
            final(self).wf(),
            recorded(
                old(self).spec_history(),
                final(self).spec_history(),
                approval_type@,
                action,
                auto_approved,
                opt_str_view(matched_rule),
            ),
            final(self).spec_stats() == stats_after(old(self).spec_stats(), action, auto_approved),
            final(self).spec_bridge() == old(self).spec_bridge(),
            final(self).spec_engine() == old(self).spec_engine(),
            final(self).spec_pending() == old(self).spec_pending(),
            final(self).spec_started_at() == old(self).spec_started_at(),
    {
        let entry = ApprovalHistoryEntry {
            id: fresh_id(),
            timestamp: now_millis(),
            approval_type,
            action,
            auto_approved,
            matched_rule,
        };
        match action {
            ApprovalAction::Approved => {
                if auto_approved {
                    self.stats.auto_approved_count = bumped(self.stats.auto_approved_count);
                } else {
                    self.stats.approved_count = bumped(self.stats.approved_count);
                }
            },
            ApprovalAction::Denied => {
                self.stats.denied_count = bumped(self.stats.denied_count);
            },
        }
        let ghost before = self.history@;
        self.history.push(entry);
        if self.history.len() > HISTORY_LIMIT {
            self.history.remove(0);
        }
        proof {
            let old_h = before.map_values(|e: ApprovalHistoryEntry| e@);
            let new_h = self.history@.map_values(|e: ApprovalHistoryEntry| e@);
            let pushed = before.push(entry);
            if pushed.len() > HISTORY_LIMIT {
                assert(self.history@ == pushed.drop_first());
            }
            assert(new_h =~= bounded_push(old_h, entry@));
        }
    }

    /// The history, oldest first.
    pub fn get_history(&self) -> (r: Vec<ApprovalHistoryEntry>)
        ensures
            r@.map_values(|e: ApprovalHistoryEntry| e@) == self.spec_history(),
    {
        let mut out: Vec<ApprovalHistoryEntry> = Vec::new();
        let mut i: usize = 0;
        while i < self.history.len()
            invariant
                i <= self.history@.len(),
                out@.len() == i,
                forall|j: int| 0 <= j < i ==> (#[trigger] out@[j])@ == self.history@[j]@,
            decreases self.history@.len() - i,
        {
            out.push(self.history[i].clone());
            i = i + 1;
        }
        assert(out@.map_values(|e: ApprovalHistoryEntry| e@) =~= self.spec_history());
        out
    }

    /// Empties the history and resets the counters.
    pub fn clear_history(&mut self)
        requires
            old(self).wf(),
        ensures
            final(self).wf(),
            final(self).spec_history().len() == 0,
            final(self).spec_stats() == (SessionStats {
                approved_count: 0,
                denied_count: 0,
                auto_approved_count: 0,
            }),
            final(self).spec_bridge() == old(self).spec_bridge(),
            final(self).spec_engine() == old(self).spec_engine(),
            final(self).spec_pending() == old(self).spec_pending(),
            final(self).spec_started_at() == old(self).spec_started_at(),
    {
        self.history.clear();
        self.stats.approved_count = 0;
        self.stats.denied_count = 0;
        self.stats.auto_approved_count = 0;
        assert(self.spec_history() =~= Seq::<EntryView>::empty());
    }

    /// The installed rules, in order.
    pub fn get_rules(&self) -> (r: Vec<ApprovalRule>)
        ensures
            r@ == self.spec_engine().rule_list(),
    {
        let rules = self.auto_approve.get_rules();
        let mut out: Vec<ApprovalRule> = Vec::new();
        let mut i: usize = 0;
        while i < rules.len()
            invariant
                rules@ == self.spec_engine().rule_list(),
                i <= rules@.len(),
                out@ == rules@.subrange(0, i as int),
            decreases rules@.len() - i,
        {
            out.push(rules[i].clone());
            i = i + 1;
        }
        assert(out@ =~= rules@);
        out
    }

    /// Replaces the rule list.
    pub fn set_rules(&mut self, rules: Vec<ApprovalRule>)
        requires
            old(self).wf(),
        ensures
            final(self).wf(),
            final(self).spec_engine().rule_list() == rules@,
            final(self).spec_engine().approves_all() == old(self).spec_engine().approves_all(),
            final(self).spec_bridge() == old(self).spec_bridge(),
            final(self).spec_pending() == old(self).spec_pending(),
            final(self).spec_history() == old(self).spec_history(),
            final(self).spec_stats() == old(self).spec_stats(),
    {
        self.auto_approve.set_rules(rules);
    }

    /// Turns approving everything on or off.
    pub fn set_auto_approve_all(&mut self, enabled: bool)
        requires
            old(self).wf(),
        ensures
            final(self).wf(),
            final(self).spec_engine().approves_all() == enabled,
            final(self).spec_engine().rule_list() == old(self).spec_engine().rule_list(),
            final(self).spec_bridge() == old(self).spec_bridge(),
            final(self).spec_pending() == old(self).spec_pending(),
            final(self).spec_history() == old(self).spec_history(),
            final(self).spec_stats() == old(self).spec_stats(),
    {
        self.auto_approve.set_auto_approve_all(enabled);
    }

    /// Forgets the session's start time and any pending event.
    pub fn reset_session(&mut self)
        ensures
            final(self).spec_started_at() is None,
            final(self).spec_pending() is None,
            final(self).spec_bridge() == old(self).spec_bridge(),
            final(self).spec_engine() == old(self).spec_engine(),
            final(self).spec_history() == old(self).spec_history(),
            final(self).spec_stats() == old(self).spec_stats(),
            old(self).wf() ==> final(self).wf(),
    {
        self.started_at = None;
        self.pending_approval = None;
    }

    /// Prepares a session: refused, with nothing changed, while one is
    /// active; otherwise says how to launch the process.
    pub fn start_session(
        &mut self,
        working_dir: &str,
        cli_path: &str,
        initial_prompt: Option<String>,
    ) -> (r: Result<SpawnPlan, String>)
        ensures
            old(self).spec_bridge().spec_active() ==> (r matches Err(e) && e@
                == "Session already active"@ && *final(self) == *old(self)),
            !old(self).spec_bridge().spec_active() ==> r is Ok,
            !old(self).spec_bridge().spec_active() ==> {
                &&& !final(self).spec_bridge().spec_active()
                &&& final(self).spec_bridge().spec_working_dir() == working_dir@
                &&& final(self).spec_bridge().spec_session_id() == old(
                    self,
                ).spec_bridge().spec_session_id()
            },
            r matches Ok(plan) ==> spawn_plan_is(
                plan,
                working_dir@,
                cli_path@,
                opt_str_view(initial_prompt),
            ),
            final(self).spec_engine() == old(self).spec_engine(),
            final(self).spec_pending() == old(self).spec_pending(),
            final(self).spec_history() == old(self).spec_history(),
            final(self).spec_stats() == old(self).spec_stats(),
            final(self).spec_started_at() == old(self).spec_started_at(),
            old(self).wf() ==> final(self).wf(),
    {
        self.bridge.spawn(working_dir, cli_path, initial_prompt)
    }

    /// Records that the process was launched: the session becomes active
    /// under a fresh identifier, which is returned, and starts now.
    pub fn session_started(&mut self) -> (r: String)
        ensures
            final(self).spec_bridge().spec_active(),
            final(self).spec_bridge().spec_session_id() == Some(r@),
            final(self).spec_bridge().spec_working_dir() == old(self).spec_bridge().spec_working_dir(),
            final(self).spec_started_at() is Some,
            final(self).spec_engine() == old(self).spec_engine(),
            final(self).spec_pending() == old(self).spec_pending(),
            final(self).spec_history() == old(self).spec_history(),
            final(self).spec_stats() == old(self).spec_stats(),
            old(self).wf() ==> final(self).wf(),
    {
        self.started_at = Some(now_millis());
        self.bridge.mark_spawned()
    }

    /// Ends the session; returns whether a process was running and must be
    /// terminated. Doing so with no session changes nothing else.
    pub fn stop_session(&mut self) -> (r: bool)
        ensures
            r == old(self).spec_bridge().spec_active(),
            !final(self).spec_bridge().spec_active(),
            final(self).spec_bridge().spec_session_id() is None,
            final(self).spec_started_at() is None,
            final(self).spec_pending() is None,
            final(self).spec_engine() == old(self).spec_engine(),
            final(self).spec_history() == old(self).spec_history(),
            final(self).spec_stats() == old(self).spec_stats(),
            old(self).wf() ==> final(self).wf(),
    {
        let was = self.bridge.stop();
        self.reset_session();
        was
    }

    /// The text to write to the process's input, while a session is active.
    pub fn send_input(&self, input: &str) -> (r: Result<String, String>)
        ensures
            self.spec_bridge().spec_active() ==> (r matches Ok(t) && t@ == input@),
            !self.spec_bridge().spec_active() ==> (r matches Err(e) && e@
                == "No active session"@),
    {
        self.bridge.write(input)
    }

    /// Approves the pending event: takes it out of the slot, and, while a
    /// session is active, records the approval and returns the answer to
    /// write to the process.
    pub fn approve(&mut self) -> (r: Result<Resolution, String>)
        requires
            old(self).wf(),
        ensures
            final(self).wf(),
            final(self).spec_pending() is None,
            resolved(*old(self), *final(self), r, ApprovalAction::Approved, "y\n"@),
    {
        self.resolve(ApprovalAction::Approved)
    }

    /// Denies the pending event: takes it out of the slot, and, while a
    /// session is active, records the denial and returns the answer to
    /// write to the process.
    pub fn deny(&mut self) -> (r: Result<Resolution, String>)
        requires
            old(self).wf(),
        ensures
            final(self).wf(),
            final(self).spec_pending() is None,
            resolved(*old(self), *final(self), r, ApprovalAction::Denied, "n\n"@),
    {
        self.resolve(ApprovalAction::Denied)
    }

    /// Takes the pending event and applies `action` to it.
    fn resolve(&mut self, action: ApprovalAction) -> (r: Result<Resolution, String>)
        requires
            old(self).wf(),
        ensures
            final(self).wf(),
            final(self).spec_pending() is None,
            resolved(
                *old(self),
                *final(self),
                r,
                action,
                if action == ApprovalAction::Approved {
                    "y\n"@
                } else {
                    "n\n"@
                },
            ),
    {
        let pending = self.pending_approval.take();
        match pending {
            None => Err("No pending approval".to_string()),
            Some(event) => {
                let answer = match action {
                    ApprovalAction::Approved => self.bridge.approve(),
                    ApprovalAction::Denied => self.bridge.deny(),
                };
                match answer {
                    Err(e) => Err(e),
                    Ok(response) => {
                        let approval_type = clone_opt_action(&event.approval_type);
                        match event.approval_type {
                            Some(at) => self.add_history_entry(at, action, false, None),
                            None => {},
                        }
                        Ok(Resolution { approval_type, response })
                    },
                }
            },
        }
    }

    /// What the engine decides for `approval_type`.
    pub fn check_auto_approve(&self, approval_type: &ApprovalType) -> (r: Option<String>)
        requires
            self.wf(),
        ensures
            opt_str_view(r) == decision(
                self.spec_engine().rule_list(),
                self.spec_engine().approves_all(),
                approval_type@,
            ),
    {
        self.auto_approve.should_auto_approve(approval_type)
    }

    /// Puts `event` in the pending slot, replacing any event there.
    pub fn set_pending(&mut self, event: ClaudeEvent)
        ensures
            final(self).spec_pending() == Some(event@),
            final(self).spec_bridge() == old(self).spec_bridge(),
            final(self).spec_engine() == old(self).spec_engine(),
            final(self).spec_history() == old(self).spec_history(),
            final(self).spec_stats() == old(self).spec_stats(),
            final(self).spec_started_at() == old(self).spec_started_at(),
            old(self).wf() ==> final(self).wf(),
    {
        self.pending_approval = Some(event);
    }

    /// Routes one event from the bridge: an event needing no approval is
    /// passed on; one that a rule approves is recorded as auto-approved and
    /// answered; any other takes the pending slot, replacing what was there.
    pub fn handle_event(&mut self, event: ClaudeEvent) -> (r: Dispatch)
        requires
            old(self).wf(),
        ensures
            final(self).wf(),
            dispatched(*old(self), *final(self), event@, r),
    {
        if event.requires_approval {
            let matched = match &event.approval_type {
                Some(at) => self.auto_approve.should_auto_approve(at),
                None => None,
            };
            match matched {
                Some(rule_id) => {
                    let response = self.bridge.approve();
                    let at = clone_opt_action(&event.approval_type);
                    match at {
                        Some(a) => self.add_history_entry(
                            a,
                            ApprovalAction::Approved,
                            true,
                            Some(rule_id.clone()),
                        ),
                        None => {},
                    }
                    Dispatch::AutoApproved { event, matched_rule: rule_id, response }
                },
                None => {
                    let shown = event.clone();
                    self.pending_approval = Some(event);
                    Dispatch::ApprovalRequired(shown)
                },
            }
        } else {
            Dispatch::Forward(event)
        }
    }
}

impl Default for AppState {
    fn default() -> (r: Self)
        ensures
            r.wf(),
            !r.spec_bridge().spec_active(),
            r.spec_pending() is None,
            r.spec_history().len() == 0,
    {
        Self::new()
    }
}

/// `after` is `before` with one entry appended for this decision (under
/// the limit), the entry carrying a fresh identifier and time.
pub open spec fn recorded(
    before: Seq<EntryView>,
    after: Seq<EntryView>,
    approval_type: ApprovalView,
    action: ApprovalAction,
    auto_approved: bool,
    matched_rule: Option<Seq<char>>,
) -> bool {
    &&& after.len() > 0
    &&& after == bounded_push(before, after.last())
    &&& after.last().approval_type == approval_type
    &&& after.last().action == action
    &&& after.last().auto_approved == auto_approved
    &&& after.last().matched_rule == matched_rule
}

/// What approving or denying the pending event does, `answer` being the
/// text written to the process.
pub open spec fn resolved(
    before: AppState,
    after: AppState,
    r: Result<Resolution, String>,
    action: ApprovalAction,
    answer: Seq<char>,
) -> bool {
    &&& after.spec_bridge() == before.spec_bridge()
    &&& after.spec_engine() == before.spec_engine()
    &&& after.spec_started_at() == before.spec_started_at()
    &&& after.spec_pending() is None
    &&& match before.spec_pending() {
        None => {
            &&& r matches Err(e) && e@ == "No pending approval"@
            &&& after.spec_history() == before.spec_history()
            &&& after.spec_stats() == before.spec_stats()
        },
        Some(p) => if !before.spec_bridge().spec_active() {
            &&& r matches Err(e) && e@ == "No active session"@
            &&& after.spec_history() == before.spec_history()
            &&& after.spec_stats() == before.spec_stats()
        } else {
            &&& r matches Ok(res) && res.response@ == answer && opt_action_view(res.approval_type)
                == p.approval_type
            &&& match p.approval_type {
                Some(a) => {
                    &&& recorded(
                        before.spec_history(),
                        after.spec_history(),
                        a,
                        action,
                        false,
                        None,
                    )
                    &&& after.spec_stats() == stats_after(before.spec_stats(), action, false)
                },
                None => {
                    &&& after.spec_history() == before.spec_history()
                    &&& after.spec_stats() == before.spec_stats()
                },
            }
        },
    }
}

/// What routing `event` does.
pub open spec fn dispatched(before: AppState, after: AppState, event: EventView, r: Dispatch) -> bool {
    let matched = match event.approval_type {
        Some(a) => decision(before.spec_engine().rule_list(), before.spec_engine().approves_all(), a),
        None => None,
    };
    &&& after.spec_bridge() == before.spec_bridge()
    &&& after.spec_engine() == before.spec_engine()
    &&& after.spec_started_at() == before.spec_started_at()
    &&& if !event.requires_approval {
        &&& r matches Dispatch::Forward(e) && e@ == event
        &&& after.spec_pending() == before.spec_pending()
        &&& after.spec_history() == before.spec_history()
        &&& after.spec_stats() == before.spec_stats()
    } else if matched is Some {
        &&& r matches Dispatch::AutoApproved { event: e, matched_rule, response } && e@ == event
            && matched_rule@ == matched->0 && (if before.spec_bridge().spec_active() {
            response matches Ok(t) && t@ == "y\n"@
        } else {
            response is Err
        })
        &&& after.spec_pending() == before.spec_pending()
        &&& recorded(
            before.spec_history(),
            after.spec_history(),
            event.approval_type->0,
            ApprovalAction::Approved,
            true,
            matched,
        )
        &&& after.spec_stats() == stats_after(before.spec_stats(), ApprovalAction::Approved, true)
    } else {
        &&& r matches Dispatch::ApprovalRequired(e) && e@ == event
        &&& after.spec_pending() == Some(event)
        &&& after.spec_history() == before.spec_history()
        &&& after.spec_stats() == before.spec_stats()
    }
}

/// A request that no rule approves waits in the pending slot, replacing any
/// earlier one; nothing is answered, recorded or counted.
pub proof fn lemma_unmatched_request_waits(
    before: AppState,
    after: AppState,
    event: EventView,
    r: Dispatch,
    a: ApprovalView,
)
    requires
        dispatched(before, after, event, r),
        event.requires_approval,
        event.approval_type == Some(a),
        decision(before.spec_engine().rule_list(), before.spec_engine().approves_all(), a) is None,
    ensures
        r matches Dispatch::ApprovalRequired(e) && e@ == event,
        after.spec_pending() == Some(event),
        after.spec_history() == before.spec_history(),
        after.spec_stats() == before.spec_stats(),
{
}

/// A request that a rule approves, during an active session, is answered
/// with the affirmative token, recorded as auto-approved under that rule,
/// and counted once among the auto-approved; the pending slot is untouched.
pub proof fn lemma_matched_request_is_auto_approved(
    before: AppState,
    after: AppState,
    event: EventView,
    r: Dispatch,
    a: ApprovalView,
    rule_id: Seq<char>,
)
    requires
        dispatched(before, after, event, r),
        event.requires_approval,
        event.approval_type == Some(a),
        decision(before.spec_engine().rule_list(), before.spec_engine().approves_all(), a) == Some(
            rule_id,
        ),
        before.spec_bridge().spec_active(),
        before.spec_stats().auto_approved_count < u32::MAX,
    ensures
        r matches Dispatch::AutoApproved { matched_rule, response, .. } && matched_rule@ == rule_id
            && (response matches Ok(t) && t@ == "y\n"@),
        after.spec_history().len() > 0,
        after.spec_history() == bounded_push(before.spec_history(), after.spec_history().last()),
        after.spec_history().last().approval_type == a,
        after.spec_history().last().action == ApprovalAction::Approved,
        after.spec_history().last().auto_approved,
        after.spec_history().last().matched_rule == Some(rule_id),
        after.spec_stats().auto_approved_count == before.spec_stats().auto_approved_count + 1,
        after.spec_stats().approved_count == before.spec_stats().approved_count,
        after.spec_stats().denied_count == before.spec_stats().denied_count,
        after.spec_pending() == before.spec_pending(),
{
}

/// Denying a pending request during an active session succeeds with the
/// negative token, empties the slot, records a manual denial of that action,
/// and counts it once among the denied.
pub proof fn lemma_deny_records_denial(
    before: AppState,
    after: AppState,
    r: Result<Resolution, String>,
    p: EventView,
    a: ApprovalView,
)
    requires
        resolved(before, after, r, ApprovalAction::Denied, "n\n"@),
        before.spec_pending() == Some(p),
        p.approval_type == Some(a),
        before.spec_bridge().spec_active(),
        before.spec_stats().denied_count < u32::MAX,
    ensures
        r matches Ok(res) && res.response@ == "n\n"@,
        after.spec_pending() is None,
        after.spec_history().len() > 0,
        after.spec_history() == bounded_push(before.spec_history(), after.spec_history().last()),
        after.spec_history().last().approval_type == a,
        after.spec_history().last().action == ApprovalAction::Denied,
        !after.spec_history().last().auto_approved,
        after.spec_history().last().matched_rule is None,
        after.spec_stats().denied_count == before.spec_stats().denied_count + 1,
        after.spec_stats().approved_count == before.spec_stats().approved_count,
        after.spec_stats().auto_approved_count == before.spec_stats().auto_approved_count,
{
}

} // verus!
