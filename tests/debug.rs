use claude_gui::debug::{
    event_emitted, log, log_with_details, task_completed, task_queued, task_started, track_ipc_start,
    DebugState, LogLevel,
};

#[test]
fn log_is_bounded_and_numbered() {
    let mut state = DebugState::new(0);
    for i in 0..1001u64 {
        log(&mut state, LogLevel::Info, "test", &format!("m{}", i), i);
    }
    let logs = state.logs();
    assert_eq!(logs.len(), 1000);
    assert_eq!(logs[0].id, 1);
    assert_eq!(logs[0].message, "m1");
    assert_eq!(logs[999].id, 1000);
    log_with_details(&mut state, LogLevel::Error, "src", "bad", Some("why".to_string()), 5);
    assert_eq!(state.logs()[999].details, Some("why".to_string()));
    assert_eq!(LogLevel::Warn.as_str(), "WARN");
    state.clear_logs();
    assert!(state.logs().is_empty());
}

#[test]
fn calls_and_tasks_are_counted() {
    let mut state = DebugState::new(100);
    let t = track_ipc_start(&mut state, "get_status", 1000);
    assert_eq!(state.counters().active_tasks, 1);
    t.finish(&mut state, false, Some("oops".to_string()), 1250);
    let c = state.counters();
    assert_eq!((c.active_tasks, c.completed_tasks, c.ipc_total, c.ipc_failed), (0, 1, 1, 1));
    assert_eq!(c.ipc_total_latency_ms, 250);
    assert_eq!(state.ipc_history()[0].duration_ms, 250);
    assert_eq!(state.ipc_history()[0].command, "get_status");
    task_queued(&mut state);
    task_started(&mut state);
    task_completed(&mut state);
    event_emitted(&mut state);
    let c = state.counters();
    assert_eq!((c.queued_tasks, c.active_tasks, c.completed_tasks, c.events_emitted), (0, 0, 2, 1));
    assert_eq!(state.uptime_ms(400), 300);
}
