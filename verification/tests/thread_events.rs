use agent_threads::collections::Duplicate;
use agent_threads::input_state::ThreadInputState;
use agent_threads::protocol::{
    AppCommand, ApprovalsReviewer, AskForApproval, CommandExecutionSource, CommandExecutionStatus,
    FileUpdateChange, HistoryLookupResponse, NoticeKind, PatchChangeKind, RequestId,
    ServerNotification, ServerRequest, ThreadBufferedEvent, ThreadItem, ThreadSessionState, Turn,
    TurnStatus,
};
use agent_threads::terminal_ids::{
    background_terminal_event_matches_identifiers, thread_event_is_background_terminal,
};
use agent_threads::thread_events::{
    InactiveBackgroundTerminalNotificationResult, SideParentStatus, ThreadEventStore,
};
use agent_threads::thread_id::ThreadId;

fn new_thread_id() -> ThreadId {
    ThreadId { value: 0x0123_4567_89ab_cdef_0123_4567_89ab_cdef }
}

fn test_thread_session(thread_id: ThreadId, cwd: &str) -> ThreadSessionState {
    ThreadSessionState {
        thread_id,
        forked_from_id: None,
        fork_parent_title: None,
        thread_name: None,
        model: "gpt-test".to_string(),
        model_provider_id: "test-provider".to_string(),
        service_tier: None,
        approval_policy: AskForApproval::Never,
        approvals_reviewer: ApprovalsReviewer::User,
        permission_profile: "read-only".to_string(),
        active_permission_profile: None,
        cwd: cwd.to_string(),
        discovery_cwd: None,
        instruction_source_paths: Vec::new(),
        reasoning_effort: None,
        message_history: None,
        network_proxy: None,
        rollout_path: Some(String::new()),
    }
}

fn test_turn(turn_id: &str, status: TurnStatus, items: Vec<ThreadItem>) -> Turn {
    Turn { id: turn_id.to_string(), status, items, payload: String::new() }
}

fn turn_started_notification(turn_id: &str) -> ServerNotification {
    ServerNotification::TurnStarted {
        turn: test_turn(turn_id, TurnStatus::InProgress, Vec::new()),
    }
}

fn turn_completed_notification(turn_id: &str, status: TurnStatus) -> ServerNotification {
    ServerNotification::TurnCompleted { turn: test_turn(turn_id, status, Vec::new()) }
}

fn hook_started_notification(turn_id: &str) -> ServerNotification {
    ServerNotification::Notice {
        kind: NoticeKind::HookStarted,
        payload: format!("{turn_id}: checking go-workflow input policy"),
    }
}

fn hook_completed_notification(turn_id: &str) -> ServerNotification {
    ServerNotification::Notice {
        kind: NoticeKind::HookCompleted,
        payload: format!("{turn_id}: go-workflow must start from PlanMode; prompt blocked"),
    }
}

fn exec_approval_request(turn_id: &str, item_id: &str, approval_id: Option<&str>) -> ServerRequest {
    ServerRequest::CommandExecutionRequestApproval {
        request_id: RequestId::Integer(1),
        turn_id: turn_id.to_string(),
        item_id: item_id.to_string(),
        approval_id: approval_id.map(str::to_string),
        reason: Some("needs approval".to_string()),
        command: Some(vec!["echo".to_string(), "hello".to_string()]),
        network_approval_context: None,
        additional_permissions: None,
        available_decisions: None,
        default_decisions: Vec::new(),
        payload: "/tmp/project".to_string(),
    }
}

fn unified_exec_item(
    call_id: &str,
    process_id: &str,
    status: CommandExecutionStatus,
    output: Option<&str>,
) -> ThreadItem {
    ThreadItem::CommandExecution {
        id: call_id.to_string(),
        command: "bash -lc 'sleep 1'".to_string(),
        process_id: Some(process_id.to_string()),
        source: CommandExecutionSource::UnifiedExecStartup,
        status,
        aggregated_output: output.map(str::to_string),
        exit_code: Some(0),
        payload: "/tmp/project".to_string(),
    }
}

fn unified_exec_started_notification(
    turn_id: &str,
    call_id: &str,
    process_id: &str,
) -> ServerNotification {
    ServerNotification::ItemStarted {
        turn_id: turn_id.to_string(),
        item: unified_exec_item(call_id, process_id, CommandExecutionStatus::InProgress, None),
    }
}

fn unified_exec_completed_notification(
    turn_id: &str,
    call_id: &str,
    process_id: &str,
) -> ServerNotification {
    ServerNotification::ItemCompleted {
        turn_id: turn_id.to_string(),
        item: unified_exec_item(
            call_id,
            process_id,
            CommandExecutionStatus::Completed,
            Some("done\n"),
        ),
    }
}

fn output_delta(turn_id: &str, item_id: &str, delta: &str) -> ServerNotification {
    ServerNotification::CommandExecutionOutputDelta {
        turn_id: turn_id.to_string(),
        item_id: item_id.to_string(),
        delta: delta.to_string(),
    }
}

fn thread_closed_notification() -> ServerNotification {
    ServerNotification::ThreadClosed
}

#[test]
fn thread_event_store_tracks_active_turn_lifecycle() {
    let mut store = ThreadEventStore::new(8);
    assert_eq!(store.active_turn_id(), None);

    store.push_notification(turn_started_notification("turn-1"));
    assert_eq!(store.active_turn_id(), Some("turn-1"));

    store.push_notification(turn_completed_notification("turn-2", TurnStatus::Completed));
    assert_eq!(store.active_turn_id(), Some("turn-1"));

    store.push_notification(turn_completed_notification("turn-1", TurnStatus::Interrupted));
    assert_eq!(store.active_turn_id(), None);
}

#[test]
fn inactive_store_tracks_never_opened_background_terminal() {
    let mut store = ThreadEventStore::new(8);
    let thread_id = new_thread_id();

    store.push_notification(turn_started_notification("turn-1"));
    assert_eq!(
        store.track_inactive_background_terminal_notification(&unified_exec_started_notification(
            "turn-1",
            "call-bg",
            "process-bg"
        )),
        InactiveBackgroundTerminalNotificationResult::default()
    );
    let input_state = store.input_state.as_ref().expect("input state created");
    assert_eq!(input_state.background_terminal_activity_summaries(thread_id).len(), 1);

    store.push_notification(turn_completed_notification("turn-1", TurnStatus::Completed));
    let result = store.track_inactive_background_terminal_notification(
        &unified_exec_completed_notification("turn-1", "call-bg", "process-bg"),
    );
    assert!(result.wakeup_text.is_some());
    assert!(result.drop_notification);
    let input_state = store.input_state.as_ref().expect("input state retained");
    assert!(input_state.background_terminal_activity_summaries(thread_id).is_empty());
}

#[test]
fn offscreen_wakeup_prompts_are_serialized_until_turn_completes() {
    let mut store = ThreadEventStore::new(8);

    assert_eq!(
        store.queue_or_start_offscreen_wakeup("first".to_string()),
        Some("first".to_string())
    );
    assert_eq!(store.queue_or_start_offscreen_wakeup("second".to_string()), None);
    store.push_notification(turn_started_notification("turn-wakeup"));
    assert_eq!(store.take_ready_offscreen_wakeup(), None);
    store.push_notification(turn_completed_notification("turn-wakeup", TurnStatus::Completed));
    assert_eq!(store.take_ready_offscreen_wakeup(), Some("second".to_string()));
}

#[test]
fn offscreen_wakeup_waits_for_pending_turn_start() {
    let mut store = ThreadEventStore::new(8);
    let mut input_state = ThreadInputState::background_tracking_only();
    input_state.mark_user_turn_pending_start_for_restore();
    store.input_state = Some(input_state);

    assert_eq!(store.queue_or_start_offscreen_wakeup("queued".to_string()), None);
    assert_eq!(store.take_ready_offscreen_wakeup(), None);

    store.push_notification(turn_started_notification("turn-pending"));
    assert_eq!(store.take_ready_offscreen_wakeup(), None);

    store.push_notification(turn_completed_notification("turn-pending", TurnStatus::Completed));
    assert_eq!(store.take_ready_offscreen_wakeup(), Some("queued".to_string()));
}

#[test]
fn thread_closed_discards_pending_offscreen_wakeups() {
    let mut store = ThreadEventStore::new(8);

    assert_eq!(
        store.queue_or_start_offscreen_wakeup("first".to_string()),
        Some("first".to_string())
    );
    assert_eq!(store.queue_or_start_offscreen_wakeup("second".to_string()), None);

    store.push_notification(thread_closed_notification());

    assert_eq!(store.take_ready_offscreen_wakeup(), None);
}

#[test]
fn thread_closed_clears_tracked_background_terminals() {
    let mut store = ThreadEventStore::new(8);
    let thread_id = new_thread_id();

    store.track_inactive_background_terminal_notification(&unified_exec_started_notification(
        "turn-1", "call-bg", "proc-bg",
    ));
    assert_eq!(
        store
            .input_state
            .as_ref()
            .expect("input state")
            .background_terminal_activity_summaries(thread_id)
            .len(),
        1
    );

    store.push_notification(thread_closed_notification());

    assert!(store
        .input_state
        .as_ref()
        .expect("input state")
        .background_terminal_activity_summaries(thread_id)
        .is_empty());
}

#[test]
fn thread_closed_prunes_buffered_background_terminal_events() {
    let mut store = ThreadEventStore::new(8);

    store.push_notification(turn_started_notification("turn-1"));
    store.push_notification(unified_exec_started_notification("turn-1", "call-bg", "proc-bg"));
    store.push_notification(hook_started_notification("turn-1"));
    store.push_notification(thread_closed_notification());

    let snapshot = store.snapshot();
    assert!(snapshot.events.iter().all(|event| !thread_event_is_background_terminal(event)));
    assert!(snapshot.events.iter().any(|event| matches!(
        event,
        ThreadBufferedEvent::Notification(ServerNotification::Notice {
            kind: NoticeKind::HookStarted,
            ..
        })
    )));
}

#[test]
fn liveness_close_clears_pending_interactive_requests() {
    let mut store = ThreadEventStore::new(8);

    store.push_request(exec_approval_request("turn-1", "call-approval", Some("approval-1")));
    assert!(store.has_pending_thread_approvals());
    assert_eq!(store.pending_replay_requests().len(), 1);

    store.mark_closed_for_liveness();

    assert!(!store.has_pending_thread_approvals());
    assert!(store.pending_replay_requests().is_empty());
    assert!(store.side_parent_pending_status().is_none());
    assert!(store
        .snapshot()
        .events
        .iter()
        .all(|event| !matches!(event, ThreadBufferedEvent::Request(_))));
}

#[test]
fn closed_store_ignores_late_background_terminal_events() {
    let mut store = ThreadEventStore::new(8);
    let thread_id = new_thread_id();
    store.mark_closed_for_liveness();

    let start_result = store.track_inactive_background_terminal_notification(
        &unified_exec_started_notification("turn-1", "call-bg", "proc-bg"),
    );
    let output_result = store.track_inactive_background_terminal_notification(&output_delta(
        "turn-1",
        "call-bg",
        "late output",
    ));
    let completed_result = store.track_inactive_background_terminal_notification(
        &unified_exec_completed_notification("turn-1", "call-bg", "proc-bg"),
    );

    assert!(start_result.drop_notification);
    assert!(output_result.drop_notification);
    assert!(completed_result.drop_notification);
    assert!(store.input_state.as_ref().map_or(true, |state| {
        state.background_terminal_activity_summaries(thread_id).is_empty()
    }));
    assert_eq!(store.queue_or_start_offscreen_wakeup("late wakeup".to_string()), None);
    assert_eq!(store.take_ready_offscreen_wakeup(), None);
}

#[test]
fn closed_store_ignores_late_turn_started() {
    let mut store = ThreadEventStore::new(8);
    store.mark_closed_for_liveness();

    store.push_notification(turn_started_notification("late-turn"));

    assert!(store.is_closed());
    assert_eq!(store.active_turn_id(), None);
    assert!(store.snapshot().events.iter().all(|event| !matches!(
        event,
        ThreadBufferedEvent::Notification(ServerNotification::TurnStarted { .. })
    )));
}

#[test]
fn busy_inactive_completion_is_dropped_and_pruned_when_wakeup_queued() {
    let mut store = ThreadEventStore::new(8);

    store.push_notification(turn_started_notification("turn-1"));
    let started = unified_exec_started_notification("turn-1", "call-bg", "proc-bg");
    store.push_notification(started.duplicate());
    assert_eq!(
        store.track_inactive_background_terminal_notification(&started),
        InactiveBackgroundTerminalNotificationResult::default()
    );
    store.push_notification(turn_completed_notification("turn-1", TurnStatus::Completed));
    assert_eq!(
        store.queue_or_start_offscreen_wakeup("in flight".to_string()),
        Some("in flight".to_string())
    );

    store.push_notification(output_delta("turn-1", "call-bg", "queued output"));
    let result = store.track_inactive_background_terminal_notification(
        &unified_exec_completed_notification("turn-1", "call-bg", "proc-bg"),
    );

    assert_eq!(
        result,
        InactiveBackgroundTerminalNotificationResult {
            wakeup_text: None,
            drop_notification: true,
        }
    );
    let identifiers = vec!["proc-bg".to_string(), "call-bg".to_string()];
    assert!(store
        .snapshot()
        .events
        .iter()
        .all(|event| !background_terminal_event_matches_identifiers(event, &identifiers)));
}

#[test]
fn stopped_background_terminal_start_is_pruned_from_replay_buffer() {
    let mut store = ThreadEventStore::new(8);
    let started = unified_exec_started_notification("turn-1", "call-bg", "proc-bg");

    store.push_notification(started);
    store.push_notification(output_delta("turn-1", "call-bg", "output before stop"));
    assert_eq!(store.snapshot().events.len(), 2);
    store.mark_background_terminal_stopped(&"proc-bg".to_string(), &Some("call-bg".to_string()));
    assert!(store.snapshot().events.is_empty());
    let start_result = store.track_inactive_background_terminal_notification(
        &unified_exec_started_notification("turn-1", "call-bg", "proc-bg"),
    );
    assert!(start_result.drop_notification);
    let completed = unified_exec_completed_notification("turn-1", "call-bg", "proc-bg");
    let result = store.track_inactive_background_terminal_notification(&completed);
    assert!(result.drop_notification);
}

#[test]
fn mark_all_background_terminals_stopped_prunes_output_and_drops_late_completion() {
    let mut store = ThreadEventStore::new(8);
    store.push_notification(unified_exec_started_notification("turn-0", "call-done", "proc-done"));
    store.push_notification(unified_exec_completed_notification(
        "turn-0",
        "call-done",
        "proc-done",
    ));
    store.push_notification(unified_exec_started_notification("turn-1", "call-bg", "proc-bg"));
    store.push_notification(output_delta("turn-1", "call-bg", "output before stop"));

    store.mark_all_background_terminals_stopped();

    assert!(store.snapshot().events.is_empty());
    let late_output = store.track_inactive_background_terminal_notification(&output_delta(
        "turn-1",
        "call-bg",
        "late output",
    ));
    assert!(late_output.drop_notification);
    let late_completion = store.track_inactive_background_terminal_notification(
        &unified_exec_completed_notification("turn-1", "call-bg", "proc-bg"),
    );
    assert!(late_completion.drop_notification);
    let stale_queued_start = store.track_inactive_background_terminal_notification(
        &unified_exec_started_notification("turn-1", "call-bg", "proc-bg"),
    );
    assert!(stale_queued_start.drop_notification);
    let stale_queued_output = store.track_inactive_background_terminal_notification(&output_delta(
        "turn-1",
        "call-bg",
        "queued output after completion",
    ));
    assert!(stale_queued_output.drop_notification);
    let reused_stopped_pid_start = store.track_inactive_background_terminal_notification(
        &unified_exec_started_notification("turn-2", "call-new", "proc-bg"),
    );
    assert!(!reused_stopped_pid_start.drop_notification);
    let reused_completed_id_start = store.track_inactive_background_terminal_notification(
        &unified_exec_started_notification("turn-2", "call-done-2", "proc-done"),
    );
    assert!(!reused_completed_id_start.drop_notification);
}

#[test]
fn thread_event_store_restores_active_turn_from_snapshot_turns() {
    let thread_id = new_thread_id();
    let session = test_thread_session(thread_id, "/tmp/project");
    let turns = vec![
        test_turn("turn-1", TurnStatus::Completed, Vec::new()),
        test_turn("turn-2", TurnStatus::InProgress, Vec::new()),
    ];

    let store = ThreadEventStore::new_with_session(8, session.duplicate(), turns.duplicate());
    assert_eq!(store.active_turn_id(), Some("turn-2"));

    let mut refreshed_store = ThreadEventStore::new(8);
    refreshed_store.set_session(session, turns);
    assert_eq!(refreshed_store.active_turn_id(), Some("turn-2"));
}

#[test]
fn thread_event_store_clear_active_turn_id_resets_cached_turn() {
    let mut store = ThreadEventStore::new(8);
    store.push_notification(turn_started_notification("turn-1"));

    store.clear_active_turn_id();

    assert_eq!(store.active_turn_id(), None);
}

#[test]
fn thread_event_store_rebase_preserves_resolved_request_state() {
    let mut store = ThreadEventStore::new(8);
    store.push_request(exec_approval_request("turn-approval", "call-approval", None));
    store.push_notification(ServerNotification::ServerRequestResolved {
        request_id: RequestId::Integer(1),
    });

    store.rebase_buffer_after_session_refresh();

    let snapshot = store.snapshot();
    assert!(snapshot.events.is_empty());
    assert_eq!(store.has_pending_thread_approvals(), false);
}

#[test]
fn thread_event_store_rebase_preserves_hook_notifications() {
    let mut store = ThreadEventStore::new(8);
    store.push_notification(hook_started_notification("turn-hook"));
    store.push_notification(hook_completed_notification("turn-hook"));

    store.rebase_buffer_after_session_refresh();

    let snapshot = store.snapshot();
    let hook_notifications = snapshot
        .events
        .into_iter()
        .map(|event| match event {
            ThreadBufferedEvent::Notification(notification) => notification,
            other => panic!("expected buffered hook notification, saw: {other:?}"),
        })
        .collect::<Vec<_>>();
    assert_eq!(
        hook_notifications,
        vec![hook_started_notification("turn-hook"), hook_completed_notification("turn-hook")]
    );
}

#[test]
fn store_never_holds_more_events_than_it_may() {
    let mut store = ThreadEventStore::new(2);
    for turn in ["turn-1", "turn-2", "turn-3"] {
        store.push_notification(turn_started_notification(turn));
    }
    assert_eq!(
        store.snapshot().events,
        vec![
            ThreadBufferedEvent::Notification(turn_started_notification("turn-2")),
            ThreadBufferedEvent::Notification(turn_started_notification("turn-3")),
        ]
    );
    let mut empty = ThreadEventStore::new(0);
    empty.push_request(exec_approval_request("turn-1", "call", None));
    assert!(empty.buffer.is_empty());
    assert!(!empty.has_pending_thread_approvals());
}

#[test]
fn question_goes_with_the_request_that_is_dropped() {
    let mut store = ThreadEventStore::new(1);
    store.push_request(exec_approval_request("turn-1", "call", None));
    assert_eq!(store.side_parent_pending_status(), Some(SideParentStatus::NeedsApproval));
    store.push_history_entry_response(HistoryLookupResponse { offset: 3, log_id: 7, entry: None });
    assert_eq!(store.side_parent_pending_status(), None);
    assert_eq!(store.snapshot().events.len(), 1);
}

#[test]
fn answered_request_is_not_replayed() {
    let mut store = ThreadEventStore::new(8);
    store.push_request(exec_approval_request("turn-1", "call", Some("approval")));
    store.note_outbound_op(&AppCommand::ExecApproval { id: "call".to_string() });
    assert_eq!(store.snapshot().events.len(), 1);
    store.note_outbound_op(&AppCommand::PatchApproval { id: "approval".to_string() });
    assert_eq!(store.snapshot().events.len(), 1);
    store.note_outbound_op(&AppCommand::ExecApproval { id: "approval".to_string() });
    assert!(store.snapshot().events.is_empty());
    assert_eq!(store.buffer.len(), 1);
}

#[test]
fn each_answer_settles_its_own_question() {
    let mut store = ThreadEventStore::new(16);
    store.push_request(ServerRequest::FileChangeRequestApproval {
        request_id: RequestId::Integer(1),
        turn_id: "t".to_string(),
        item_id: "patch".to_string(),
        reason: None,
        payload: String::new(),
    });
    store.push_request(ServerRequest::PermissionsRequestApproval {
        request_id: RequestId::Integer(2),
        turn_id: "t".to_string(),
        item_id: "permissions".to_string(),
        reason: None,
        permissions: "network".to_string(),
        payload: String::new(),
    });
    store.push_request(ServerRequest::ToolRequestUserInput {
        request_id: RequestId::Text("three".to_string()),
        turn_id: "t".to_string(),
        item_id: "first".to_string(),
        payload: String::new(),
    });
    store.push_request(ServerRequest::ToolRequestUserInput {
        request_id: RequestId::Text("four".to_string()),
        turn_id: "t".to_string(),
        item_id: "second".to_string(),
        payload: String::new(),
    });
    assert_eq!(store.side_parent_pending_status(), Some(SideParentStatus::NeedsInput));
    assert_eq!(store.pending_replay_requests().len(), 4);
    store.note_outbound_op(&AppCommand::UserInputAnswer { id: "t".to_string() });
    assert_eq!(store.pending_replay_requests().len(), 3);
    assert_eq!(store.side_parent_pending_status(), Some(SideParentStatus::NeedsInput));
    store.note_outbound_op(&AppCommand::UserInputAnswer { id: "t".to_string() });
    assert_eq!(store.side_parent_pending_status(), Some(SideParentStatus::NeedsApproval));
    store.note_outbound_op(&AppCommand::PatchApproval { id: "patch".to_string() });
    store.note_outbound_op(&AppCommand::RequestPermissionsResponse {
        id: "permissions".to_string(),
    });
    assert_eq!(store.side_parent_pending_status(), None);
}

#[test]
fn commands_that_settle_questions() {
    assert!(ThreadEventStore::op_can_change_pending_replay_state(&AppCommand::Shutdown));
    assert!(ThreadEventStore::op_can_change_pending_replay_state(&AppCommand::PatchApproval {
        id: String::new()
    }));
    assert!(!ThreadEventStore::op_can_change_pending_replay_state(&AppCommand::Compact));
    assert!(!ThreadEventStore::op_can_change_pending_replay_state(&AppCommand::Interrupt));
}

#[test]
fn activation_hands_over_waiting_prompts() {
    let mut store = ThreadEventStore::new(8);
    assert!(store.queue_or_start_offscreen_wakeup("first".to_string()).is_some());
    store.queue_offscreen_wakeup("second".to_string());
    store.queue_offscreen_wakeup("third".to_string());
    let snapshot = store.snapshot_for_activation();
    let input_state = snapshot.input_state.expect("input state");
    assert_eq!(input_state.queued_completion_prompts, vec!["second", "third"]);
    assert!(input_state.user_turn_pending_start);
    assert!(store.pending_offscreen_wakeup_prompts.is_empty());
    assert!(store.snapshot_for_activation().input_state.expect("in flight").queued_completion_prompts.is_empty());
}

#[test]
fn cancelled_wakeup_lets_the_next_one_start() {
    let mut store = ThreadEventStore::new(8);
    assert!(store.queue_or_start_offscreen_wakeup("first".to_string()).is_some());
    store.cancel_offscreen_wakeup_start();
    assert_eq!(
        store.queue_or_start_offscreen_wakeup("second".to_string()),
        Some("second".to_string())
    );
}

#[test]
fn rollback_starts_afresh() {
    let mut store = ThreadEventStore::new(8);
    store.push_notification(turn_started_notification("turn-1"));
    store.push_request(exec_approval_request("turn-1", "call", None));
    store.queue_offscreen_wakeup("waiting".to_string());
    store.mark_closed_for_liveness();
    let turns = vec![test_turn("turn-0", TurnStatus::Completed, Vec::new())];
    store.apply_thread_rollback(&turns);
    assert!(!store.is_closed());
    assert_eq!(store.active_turn_id(), None);
    assert_eq!(store.take_ready_offscreen_wakeup(), None);
    let snapshot = store.snapshot();
    assert!(snapshot.events.is_empty());
    assert_eq!(snapshot.turns, turns);
}

#[test]
fn newest_file_changes_are_shown() {
    let change = |path: &str| FileUpdateChange {
        path: path.to_string(),
        kind: PatchChangeKind::Add,
        diff: "+x".to_string(),
    };
    let item = |path: &str| ThreadItem::FileChange {
        id: "patch".to_string(),
        changes: vec![change(path)],
        payload: String::new(),
    };
    let mut store = ThreadEventStore::new_with_session(
        8,
        test_thread_session(new_thread_id(), "/tmp/project"),
        vec![test_turn("turn-1", TurnStatus::Completed, vec![item("from-turn")])],
    );
    let (turn, patch) = ("turn-1".to_string(), "patch".to_string());
    assert_eq!(store.file_change_changes(&turn, &patch), Some(vec![change("from-turn")]));
    assert_eq!(store.file_change_changes(&"turn-2".to_string(), &patch), None);
    assert_eq!(store.file_change_changes(&turn, &"other".to_string()), None);
    store.push_notification(ServerNotification::ItemStarted {
        turn_id: "turn-1".to_string(),
        item: item("from-start"),
    });
    store.push_notification(ServerNotification::ItemCompleted {
        turn_id: "turn-1".to_string(),
        item: item("from-end"),
    });
    assert_eq!(store.file_change_changes(&turn, &patch), Some(vec![change("from-end")]));
    assert_eq!(store.file_change_changes(&String::new(), &patch), Some(vec![change("from-end")]));
}

#[test]
fn ended_terminal_wakes_the_agent_with_its_output() {
    let mut store = ThreadEventStore::new(8);
    store.push_notification(turn_started_notification("turn-1"));
    store.track_inactive_background_terminal_notification(&unified_exec_started_notification(
        "turn-1", "call-bg", "proc-bg",
    ));
    store.track_inactive_background_terminal_notification(&output_delta(
        "turn-1",
        "call-bg",
        "partial",
    ));
    store.push_notification(turn_completed_notification("turn-1", TurnStatus::Completed));
    let completed = ServerNotification::ItemCompleted {
        turn_id: "turn-1".to_string(),
        item: unified_exec_item("call-bg", "proc-bg", CommandExecutionStatus::Failed, None),
    };
    let result = store.track_inactive_background_terminal_notification(&completed);
    assert_eq!(
        result.wakeup_text.expect("prompt"),
        "Background terminal completed.\n\nCommand: bash -lc 'sleep 1'\nStatus: failed\nExit code: 0\n\nOutput:\npartial\n\nContinue from this result. If it failed, diagnose the failure before starting another long-running command."
    );
    assert_eq!(
        store.track_inactive_background_terminal_notification(&completed),
        InactiveBackgroundTerminalNotificationResult::default()
    );
}

#[test]
fn terminal_that_ends_in_its_own_turn_wakes_nobody() {
    let mut store = ThreadEventStore::new(8);
    store.push_notification(turn_started_notification("turn-1"));
    store.track_inactive_background_terminal_notification(&unified_exec_started_notification(
        "turn-1", "call-bg", "proc-bg",
    ));
    let result = store.track_inactive_background_terminal_notification(
        &unified_exec_completed_notification("turn-1", "call-bg", "proc-bg"),
    );
    assert_eq!(result, InactiveBackgroundTerminalNotificationResult::default());
    assert!(store.input_state.expect("input state").terminals.is_empty());
}

#[test]
fn active_store_leaves_terminals_to_the_screen() {
    let mut store = ThreadEventStore::new(8);
    store.active = true;
    let result = store.track_inactive_background_terminal_notification(
        &unified_exec_started_notification("turn-1", "call-bg", "proc-bg"),
    );
    assert_eq!(result, InactiveBackgroundTerminalNotificationResult::default());
    assert!(store.input_state.is_none());
}

#[test]
fn stopping_by_process_finds_the_call() {
    let mut store = ThreadEventStore::new(8);
    store.push_notification(unified_exec_started_notification("turn-1", "call-bg", "proc-bg"));
    store.mark_background_terminal_stopped(&"proc-bg".to_string(), &None);
    assert!(store.snapshot().events.is_empty());
    let late = store.track_inactive_background_terminal_notification(&output_delta(
        "turn-1", "call-bg", "late",
    ));
    assert!(late.drop_notification);
}

#[test]
fn end_of_a_terminal_is_reported_once() {
    let mut store = ThreadEventStore::new(8);
    let started = unified_exec_started_notification("turn-1", "call-bg", "proc-bg");
    assert!(!store.track_inactive_background_terminal_notification(&started).drop_notification);
    let completed = unified_exec_completed_notification("turn-1", "call-bg", "proc-bg");
    let first = store.track_inactive_background_terminal_notification(&completed);
    assert!(first.drop_notification);
    assert!(first.wakeup_text.is_some());
    let second = store.track_inactive_background_terminal_notification(&completed);
    assert!(!second.drop_notification);
    assert_eq!(second.wakeup_text, None);
}

#[test]
fn new_request_is_lost_only_with_an_older_one_that_asked_the_same() {
    let replayed = |older: &str| {
        let mut store = ThreadEventStore::new(1);
        store.push_request(exec_approval_request("turn", older, None));
        store.push_request(exec_approval_request("turn", "call", None));
        store.snapshot().events.len()
    };
    assert_eq!(replayed("other"), 1);
    assert_eq!(replayed("call"), 0);
}
