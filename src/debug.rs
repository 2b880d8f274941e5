//! Debugging context: a bounded log, a bounded record of command calls, and
//! task and event counters. It is an explicit value that its owner passes
//! around; the caller supplies the clock's readings in milliseconds.

use vstd::prelude::*;

verus! {

/// The most log entries kept.
pub const MAX_LOG_ENTRIES: usize = 1000;

/// The most command calls kept.
pub const MAX_IPC_HISTORY: usize = 100;

/// The severity of a log entry.
#[derive(Debug, Clone, Copy, PartialEq, Eq, Structural)]
pub enum LogLevel {
    Debug,
    Info,
    Warn,
    Error,
}

/// The upper-case name of a level.
pub open spec fn level_name(l: LogLevel) -> Seq<char> {
    match l {
        LogLevel::Debug => "DEBUG"@,
        LogLevel::Info => "INFO"@,
        LogLevel::Warn => "WARN"@,
        LogLevel::Error => "ERROR"@,
    }
}

impl LogLevel {
    /// The upper-case name of the level.
    pub fn as_str(&self) -> (r: &'static str)
        ensures
            r@ == level_name(*self),
    {
        match self {
            LogLevel::Debug => "DEBUG",
            LogLevel::Info => "INFO",
            LogLevel::Warn => "WARN",
            LogLevel::Error => "ERROR",
        }
    }
}

/// One log entry.
#[derive(Debug, Clone)]
pub struct LogEntry {
    pub id: u64,
    pub timestamp: u64,
    pub level: LogLevel,
    pub source: String,
    pub message: String,
    pub details: Option<String>,
}

/// One finished command call; `duration_ms` is whole milliseconds.
#[derive(Debug, Clone)]
pub struct IpcCall {
    pub id: u64,
    pub timestamp: u64,
    pub command: String,
    pub duration_ms: u64,
    pub success: bool,
    pub error: Option<String>,
}

/// `s` with `e` appended, after dropping the oldest element when `s` is full.
pub open spec fn ring_push<T>(s: Seq<T>, e: T, cap: nat) -> Seq<T> {
    if s.len() >= cap {
        s.drop_first().push(e)
    } else {
        s.push(e)
    }
}

/// `x + 1`, wrapping to zero past the maximum.
pub open spec fn wrap_inc(x: u64) -> u64 {
    if x == u64::MAX {
        0
    } else {
        (x + 1) as u64
    }
}

/// `x - 1`, wrapping to the maximum below zero.
pub open spec fn wrap_dec(x: u64) -> u64 {
    if x == 0 {
        u64::MAX
    } else {
        (x - 1) as u64
    }
}

fn inc(x: u64) -> (r: u64)
    ensures
        r == wrap_inc(x),
{
    if x == u64::MAX {
        0
    } else {
        x + 1
    }
}

fn dec(x: u64) -> (r: u64)
    ensures
        r == wrap_dec(x),
{
    if x == 0 {
        u64::MAX
    } else {
        x - 1
    }
}

/// The counters of a debugging context.
#[derive(Debug, Clone, Copy, PartialEq, Eq, Structural)]
pub struct DebugCounters {
    pub log_counter: u64,
    pub ipc_counter: u64,
    pub ipc_total: u64,
    pub ipc_failed: u64,
    pub ipc_total_latency_ms: u64,
    pub events_emitted: u64,
    pub active_tasks: u64,
    pub queued_tasks: u64,
    pub completed_tasks: u64,
}

/// The debugging context.
pub struct DebugState {
    logs: Vec<LogEntry>,
    ipc_history: Vec<IpcCall>,
    counters: DebugCounters,
    start_time_ms: u64,
}

impl DebugState {
    /// The log, oldest first.
    pub closed spec fn spec_logs(&self) -> Seq<LogEntry> {
        self.logs@
    }

    /// The recorded command calls, oldest first.
    pub closed spec fn spec_calls(&self) -> Seq<IpcCall> {
        self.ipc_history@
    }

    /// The counters.
    pub closed spec fn spec_counters(&self) -> DebugCounters {
        self.counters
    }

    /// When the context started.
    pub closed spec fn spec_start_time(&self) -> u64 {
        self.start_time_ms
    }

    /// The log and the call record are within their bounds.
    pub closed spec fn wf(&self) -> bool {
        self.logs@.len() <= MAX_LOG_ENTRIES && self.ipc_history@.len() <= MAX_IPC_HISTORY
    }

    /// An empty context started at `now_ms`.
    pub fn new(now_ms: u64) -> (r: Self)
        ensures
            r.wf(),
            r.spec_logs().len() == 0,
            r.spec_calls().len() == 0,
            r.spec_counters() == (DebugCounters {
                log_counter: 0,
                ipc_counter: 0,
                ipc_total: 0,
                ipc_failed: 0,
                ipc_total_latency_ms: 0,
                events_emitted: 0,
                active_tasks: 0,
                queued_tasks: 0,
                completed_tasks: 0,
            }),
    {
        DebugState {
            logs: Vec::new(),
            ipc_history: Vec::new(),
            counters: DebugCounters {
                log_counter: 0,
                ipc_counter: 0,
                ipc_total: 0,
                ipc_failed: 0,
                ipc_total_latency_ms: 0,
                events_emitted: 0,
                active_tasks: 0,
                queued_tasks: 0,
                completed_tasks: 0,
            },
            start_time_ms: now_ms,
        }
    }

    /// The log, oldest first.
    pub fn logs(&self) -> (r: &[LogEntry])
        ensures
            r@ == self.spec_logs(),
    {
        self.logs.as_slice()
    }

    /// The recorded command calls, oldest first.
    pub fn ipc_history(&self) -> (r: &[IpcCall])
        ensures
            r@ == self.spec_calls(),
    {
        self.ipc_history.as_slice()
    }

    /// The counters.
    pub fn counters(&self) -> (r: DebugCounters)
        ensures
            r == self.spec_counters(),
    {
        self.counters
    }

    /// Milliseconds since the context started, at `now_ms`.
    pub fn uptime_ms(&self, now_ms: u64) -> (r: u64)
        ensures
            r == (if now_ms >= self.spec_start_time() {
                (now_ms - self.spec_start_time()) as u64
            } else {
                0
            }),
    {
        if now_ms >= self.start_time_ms {
            now_ms - self.start_time_ms
        } else {
            0
        }
    }

    /// Empties the log.
    pub fn clear_logs(&mut self)
        requires
            old(self).wf(),
        ensures
            final(self).wf(),
            final(self).spec_logs().len() == 0,
            final(self).spec_calls() == old(self).spec_calls(),
            final(self).spec_counters() == old(self).spec_counters(),
    {
        self.logs.clear();
    }
}

/// Appends a log entry without details.
pub fn log(state: &mut DebugState, level: LogLevel, source: &str, message: &str, now_ms: u64)
    requires
        old(state).wf(),
    ensures
        final(state).wf(),
        logged(*old(state), *final(state), level, source@, message@, None, now_ms),
{
    log_with_details(state, level, source, message, None, now_ms);
}

/// Appends a log entry numbered by the log counter, dropping the oldest
/// entry when the log is full.
pub fn log_with_details(
    state: &mut DebugState,
    level: LogLevel,
    source: &str,
    message: &str,
    details: Option<String>,
    now_ms: u64,
)
    requires
        old(state).wf(),
    ensures
        final(state).wf(),
        logged(
            *old(state),
            *final(state),
            level,
            source@,
            message@,
            crate::types::opt_str_view(details),
            now_ms,
        ),
{
    let entry = LogEntry {
        id: state.counters.log_counter,
        timestamp: now_ms,
        level,
        source: source.to_string(),
        message: message.to_string(),
        details,
    };
    state.counters.log_counter = inc(state.counters.log_counter);
    let ghost before = state.logs@;
    if state.logs.len() >= MAX_LOG_ENTRIES {
        state.logs.remove(0);
    }
    state.logs.push(entry);
    proof {
        if before.len() >= MAX_LOG_ENTRIES {
            assert(state.logs@ =~= before.drop_first().push(entry));
        }
    }
}

/// What appending one log entry does.
pub open spec fn logged(
    before: DebugState,
    after: DebugState,
    level: LogLevel,
    source: Seq<char>,
    message: Seq<char>,
    details: Option<Seq<char>>,
    now_ms: u64,
) -> bool {
    let e = after.spec_logs().last();
    &&& after.spec_logs().len() > 0
    &&& after.spec_logs() == ring_push(before.spec_logs(), e, MAX_LOG_ENTRIES as nat)
    &&& e.id == before.spec_counters().log_counter
    &&& e.timestamp == now_ms
    &&& e.level == level
    &&& e.source@ == source
    &&& e.message@ == message
    &&& crate::types::opt_str_view(e.details) == details
    &&& after.spec_counters() == (DebugCounters {
        log_counter: wrap_inc(before.spec_counters().log_counter),
        ..before.spec_counters()
    })
    &&& after.spec_calls() == before.spec_calls()
}

/// A command call in progress.
pub struct IpcTracker {
    command: String,
    start_ms: u64,
}

impl IpcTracker {
    /// The command being tracked.
    pub closed spec fn spec_command(&self) -> Seq<char> {
        self.command@
    }

    /// When the call started.
    pub closed spec fn spec_start(&self) -> u64 {
        self.start_ms
    }

    /// Records the end of the call at `now_ms`: counts it, adds its
    /// duration to the total latency, and keeps it in the bounded record.
    pub fn finish(
        self,
        state: &mut DebugState,
        success: bool,
        error: Option<String>,
        now_ms: u64,
    )
        requires
            old(state).wf(),
        ensures
            final(state).wf(),
            ({
                let b = old(state).spec_counters();
                let duration = if now_ms >= self.spec_start() {
                    (now_ms - self.spec_start()) as u64
                } else {
                    0
                };
                let c = final(state).spec_calls().last();
                &&& final(state).spec_calls().len() > 0
                &&& final(state).spec_calls() == ring_push(
                    old(state).spec_calls(),
                    c,
                    MAX_IPC_HISTORY as nat,
                )
                &&& c.id == b.ipc_counter
                &&& c.timestamp == now_ms
                &&& c.command@ == self.spec_command()
                &&& c.duration_ms == duration
                &&& c.success == success
                &&& c.error == error
                &&& final(state).spec_counters() == (DebugCounters {
                    ipc_counter: wrap_inc(b.ipc_counter),
                    ipc_total: wrap_inc(b.ipc_total),
                    ipc_failed: if success {
                        b.ipc_failed
                    } else {
                        wrap_inc(b.ipc_failed)
                    },
                    ipc_total_latency_ms: if b.ipc_total_latency_ms as int + duration
                        <= u64::MAX {
                        (b.ipc_total_latency_ms + duration) as u64
                    } else {
                        u64::MAX
                    },
                    active_tasks: wrap_dec(b.active_tasks),
                    completed_tasks: wrap_inc(b.completed_tasks),
                    ..b
                })
                &&& final(state).spec_logs() == old(state).spec_logs()
            }),
    {
        let duration = if now_ms >= self.start_ms {
            now_ms - self.start_ms
        } else {
            0
        };
        state.counters.active_tasks = dec(state.counters.active_tasks);
        state.counters.completed_tasks = inc(state.counters.completed_tasks);
        state.counters.ipc_total = inc(state.counters.ipc_total);
        if !success {
            state.counters.ipc_failed = inc(state.counters.ipc_failed);
        }
        state.counters.ipc_total_latency_ms = state.counters.ipc_total_latency_ms.saturating_add(
            duration,
        );
        let call = IpcCall {
            id: state.counters.ipc_counter,
            timestamp: now_ms,
            command: self.command,
            duration_ms: duration,
            success,
            error,
        };
        state.counters.ipc_counter = inc(state.counters.ipc_counter);
        let ghost before = state.ipc_history@;
        if state.ipc_history.len() >= MAX_IPC_HISTORY {
            state.ipc_history.remove(0);
        }
        state.ipc_history.push(call);
        proof {
            if before.len() >= MAX_IPC_HISTORY {
                assert(state.ipc_history@ =~= before.drop_first().push(call));
            }
        }
    }
}

/// Starts tracking a call of `command` at `now_ms`, counting it as active.
pub fn track_ipc_start(state: &mut DebugState, command: &str, now_ms: u64) -> (r: IpcTracker)
    ensures
        r.spec_command() == command@,
        r.spec_start() == now_ms,
        final(state).spec_counters() == (DebugCounters {
            active_tasks: wrap_inc(old(state).spec_counters().active_tasks),
            ..old(state).spec_counters()
        }),
        final(state).spec_logs() == old(state).spec_logs(),
        final(state).spec_calls() == old(state).spec_calls(),
        old(state).wf() ==> final(state).wf(),
{
    state.counters.active_tasks = inc(state.counters.active_tasks);
    IpcTracker { command: command.to_string(), start_ms: now_ms }
}

/// Counts a task as queued.
pub fn task_queued(state: &mut DebugState)
    ensures
        final(state).spec_counters() == (DebugCounters {
            queued_tasks: wrap_inc(old(state).spec_counters().queued_tasks),
            ..old(state).spec_counters()
        }),
        final(state).spec_logs() == old(state).spec_logs(),
        final(state).spec_calls() == old(state).spec_calls(),
        old(state).wf() ==> final(state).wf(),
{
    state.counters.queued_tasks = inc(state.counters.queued_tasks);
}

/// Moves a task from queued to active.
pub fn task_started(state: &mut DebugState)
    ensures
        final(state).spec_counters() == (DebugCounters {
            queued_tasks: wrap_dec(old(state).spec_counters().queued_tasks),
            active_tasks: wrap_inc(old(state).spec_counters().active_tasks),
            ..old(state).spec_counters()
        }),
        final(state).spec_logs() == old(state).spec_logs(),
        final(state).spec_calls() == old(state).spec_calls(),
        old(state).wf() ==> final(state).wf(),
{
    state.counters.queued_tasks = dec(state.counters.queued_tasks);
    state.counters.active_tasks = inc(state.counters.active_tasks);
}

/// Moves a task from active to completed.
pub fn task_completed(state: &mut DebugState)
    ensures
        final(state).spec_counters() == (DebugCounters {
            active_tasks: wrap_dec(old(state).spec_counters().active_tasks),
            completed_tasks: wrap_inc(old(state).spec_counters().completed_tasks),
            ..old(state).spec_counters()
        }),
        final(state).spec_logs() == old(state).spec_logs(),
        final(state).spec_calls() == old(state).spec_calls(),
        old(state).wf() ==> final(state).wf(),
{
    state.counters.active_tasks = dec(state.counters.active_tasks);
    state.counters.completed_tasks = inc(state.counters.completed_tasks);
}

/// Counts one emitted event.
pub fn event_emitted(state: &mut DebugState)
    ensures
        final(state).spec_counters() == (DebugCounters {
            events_emitted: wrap_inc(old(state).spec_counters().events_emitted),
            ..old(state).spec_counters()
        }),
        final(state).spec_logs() == old(state).spec_logs(),
        final(state).spec_calls() == old(state).spec_calls(),
        old(state).wf() ==> final(state).wf(),
{
    state.counters.events_emitted = inc(state.counters.events_emitted);
}

} // verus!
