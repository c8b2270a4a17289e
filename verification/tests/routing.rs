use agent_threads::active_thread::{ActiveEventStep, CwdOverride};
use agent_threads::agent_navigation::AgentEntry;
use agent_threads::app_state::{App, SideThread};
use agent_threads::collections::Duplicate;
use agent_threads::effects::{
    AppEffect, ApprovalRequest, ReplayKind, SessionDisplay, ThreadInteractiveRequest,
};
use agent_threads::input_state::ThreadInputState;
use agent_threads::op_submission::{
    OpStep, RequestResolution, ServerCall, SteerAttempt, SteerReply, SteerStep, SubmitStep,
    TurnConfig,
};
use agent_threads::protocol::{
    AppCommand, ApprovalsReviewer, AskForApproval, AuthMode, CommandExecutionSource,
    CommandExecutionStatus, ElicitationRequest, FeedbackOutcome, FeedbackThreadEvent,
    FileUpdateChange, HistoryLookupResponse, NoticeKind, PatchChangeKind, RequestId,
    ServerNotification, ServerRequest, StartedThread, ThreadBufferedEvent, ThreadItem,
    ThreadSessionState, Turn, TurnStatus, UserInput, UserTurn,
};
use agent_threads::replay::{
    collab_receiver_thread_ids, should_handle_active_thread_events,
    should_prompt_for_paused_goal_after_startup_resume, should_stop_waiting_for_initial_session,
    should_wait_for_initial_session, AgentMetadata, RunningTerminal, SessionSelection, StopStep,
};
use agent_threads::server_events::{
    AppServerEvent, McpServer, NotificationTarget, RequestStep, ServerEventStep,
    UnsupportedRequest,
};
use agent_threads::thread_events::SideParentStatus;
use agent_threads::thread_id::ThreadId;
use agent_threads::thread_routing::ThreadRequestEnqueueResult;

const MAIN: ThreadId = ThreadId { value: 1 };
const AGENT: ThreadId = ThreadId { value: 0x2222_2222_0000_0000_0000_0000_0000_0000 };
const OTHER: ThreadId = ThreadId { value: 0x1111_1111_0000_0000_0000_0000_0000_0000 };

fn app() -> App {
    App::new(8, "/start".to_string())
}

fn session(thread_id: ThreadId) -> ThreadSessionState {
    ThreadSessionState {
        thread_id,
        forked_from_id: Some(OTHER),
        fork_parent_title: Some("parent".to_string()),
        thread_name: None,
        model: "model".to_string(),
        model_provider_id: "provider".to_string(),
        service_tier: Some("fast".to_string()),
        approval_policy: AskForApproval::OnRequest,
        approvals_reviewer: ApprovalsReviewer::AutoReview,
        permission_profile: "profile".to_string(),
        active_permission_profile: Some("active".to_string()),
        cwd: "/work".to_string(),
        discovery_cwd: Some("/discovery".to_string()),
        instruction_source_paths: vec!["/work/AGENTS.md".to_string()],
        reasoning_effort: Some("high".to_string()),
        message_history: Some("history".to_string()),
        network_proxy: Some("proxy".to_string()),
        rollout_path: Some("/rollout".to_string()),
    }
}

fn turn(id: &str) -> Turn {
    Turn {
        id: id.to_string(),
        status: TurnStatus::InProgress,
        items: Vec::new(),
        payload: "started".to_string(),
    }
}

fn agent(thread_id: ThreadId, nickname: Option<&str>, role: Option<&str>) -> AgentEntry {
    AgentEntry {
        thread_id,
        agent_nickname: nickname.map(str::to_string),
        agent_role: role.map(str::to_string),
        is_closed: false,
    }
}

fn approval(item_id: &str) -> ServerRequest {
    ServerRequest::CommandExecutionRequestApproval {
        request_id: RequestId::Integer(7),
        turn_id: "turn".to_string(),
        item_id: item_id.to_string(),
        approval_id: None,
        reason: None,
        command: Some(vec!["ls".to_string()]),
        network_approval_context: None,
        additional_permissions: None,
        available_decisions: None,
        default_decisions: vec!["yes".to_string()],
        payload: "/work".to_string(),
    }
}

fn wakeup_turn(text: &str) -> AppCommand {
    AppCommand::UserTurn(UserTurn {
        items: vec![UserInput::Text { text: text.to_string() }],
        cwd: "/work".to_string(),
        approval_policy: AskForApproval::OnRequest,
        approvals_reviewer: Some(ApprovalsReviewer::AutoReview),
        permission_profile: "profile".to_string(),
        model: "model".to_string(),
        effort: Some("high".to_string()),
        summary: None,
        service_tier: Some(Some("fast".to_string())),
        final_output_json_schema: None,
        collaboration_mode: None,
        personality: None,
    })
}

fn no_terminals(current: Option<ThreadId>) -> AppEffect {
    AppEffect::SetBackgroundTerminals { current, terminals: Vec::new() }
}

fn waiting(labels: &[&str]) -> AppEffect {
    AppEffect::SetPendingThreadApprovals {
        labels: labels.iter().map(|label| label.to_string()).collect(),
    }
}

fn with_main() -> App {
    let mut app = app();
    app.enqueue_primary_thread_session(session(MAIN), Vec::new(), CwdOverride::Absent, false);
    app
}

#[test]
fn primary_session_is_announced_and_takes_in_what_waited() {
    let mut app = app();
    assert!(app
        .enqueue_primary_thread_notification(ServerNotification::TurnStarted { turn: turn("t") })
        .is_empty());
    let (effects, result) = app.enqueue_primary_thread_request(approval("call"));
    assert!(effects.is_empty());
    assert_eq!(result, ThreadRequestEnqueueResult::Enqueued);
    app.pending_primary_events.push_back(ThreadBufferedEvent::FeedbackSubmission(
        FeedbackThreadEvent {
            category: "bug".to_string(),
            include_logs: true,
            audience: "team".to_string(),
            outcome: FeedbackOutcome::Sent("id".to_string()),
        },
    ));
    assert_eq!(app.pending_primary_events.len(), 3);

    let turns = vec![Turn {
        id: "t0".to_string(),
        status: TurnStatus::Completed,
        items: Vec::new(),
        payload: String::new(),
    }];
    let (ok, effects) = app.enqueue_primary_thread_session(
        session(MAIN),
        turns.duplicate(),
        CwdOverride::Given("/moved".to_string()),
        true,
    );
    assert!(ok);
    assert!(app.pending_primary_events.is_empty());
    let mut moved = session(MAIN);
    moved.cwd = "/start".to_string();
    assert_eq!(
        effects,
        vec![
            AppEffect::AgentEntryChanged { thread_id: MAIN },
            waiting(&[]),
            AppEffect::SetInitialUserMessageSuppressed { suppressed: true },
            AppEffect::ShowSession { session: moved, display: SessionDisplay::Normal },
            AppEffect::ApplyRuntimeCwd { thread_id: MAIN, cwd: "/moved".to_string() },
            AppEffect::BeginInitialHistoryReplayBuffer,
            AppEffect::ReplayTurns { turns, kind: ReplayKind::ResumeInitialMessages },
            AppEffect::EndInitialHistoryReplayBuffer,
            AppEffect::SendEvent {
                thread_id: MAIN,
                event: ThreadBufferedEvent::Notification(ServerNotification::TurnStarted {
                    turn: turn("t"),
                }),
            },
            AppEffect::ApplyNotificationStatus {
                thread_id: MAIN,
                notification: ServerNotification::TurnStarted { turn: turn("t") },
            },
            no_terminals(Some(MAIN)),
            waiting(&[]),
            AppEffect::SendEvent {
                thread_id: MAIN,
                event: ThreadBufferedEvent::Request(approval("call")),
            },
            AppEffect::SetSideParentStatus {
                thread_id: MAIN,
                status: SideParentStatus::NeedsApproval,
            },
            waiting(&[]),
            AppEffect::EnqueueFeedback {
                thread_id: MAIN,
                event: ThreadBufferedEvent::FeedbackSubmission(FeedbackThreadEvent {
                    category: "bug".to_string(),
                    include_logs: true,
                    audience: "team".to_string(),
                    outcome: FeedbackOutcome::Sent("id".to_string()),
                }),
            },
            AppEffect::SetInitialUserMessageSuppressed { suppressed: false },
            AppEffect::SubmitInitialUserMessage,
        ]
    );
    assert_eq!(app.active_turn_id_for_thread(MAIN), Some("t".to_string()));
    assert_eq!(app.thread_cwd(MAIN), Some("/start".to_string()));
}

#[test]
fn unresolvable_directory_leaves_what_waits() {
    let mut app = app();
    app.enqueue_primary_thread_notification(ServerNotification::TurnStarted { turn: turn("t") });
    let (ok, effects) = app.enqueue_primary_thread_session(
        session(MAIN),
        Vec::new(),
        CwdOverride::Unresolvable,
        true,
    );
    assert!(!ok);
    assert_eq!(effects.len(), 4);
    assert_eq!(app.pending_primary_events.len(), 1);
    assert_eq!(app.primary_thread_id, Some(MAIN));
}

#[test]
fn notification_for_a_discarded_side_thread_is_ignored() {
    let mut app = with_main();
    app.discarded_side_thread_ids.push(AGENT);
    assert!(app.enqueue_thread_notification(AGENT, ServerNotification::ThreadClosed).is_empty());
    let (effects, result) = app.enqueue_thread_request(AGENT, approval("call"));
    assert!(effects.is_empty());
    assert_eq!(result, ThreadRequestEnqueueResult::ThreadClosed);
    assert!(app
        .enqueue_thread_history_entry_response(
            AGENT,
            HistoryLookupResponse { offset: 0, log_id: 0, entry: None }
        )
        .is_empty());
    assert!(app.thread_is_closed_or_marked_closed(AGENT));
    assert_eq!(app.thread_event_channels.len(), 1);
}

#[test]
fn end_of_an_unknown_thread_is_ignored() {
    let mut app = with_main();
    assert!(app.enqueue_thread_notification(AGENT, ServerNotification::ThreadClosed).is_empty());
    assert_eq!(app.thread_event_channels.len(), 1);
}

#[test]
fn started_thread_gets_a_session_from_the_primary_one() {
    let mut app = with_main();
    let started = |path: Option<&str>, model: Option<&str>| ServerNotification::ThreadStarted {
        thread: StartedThread {
            name: Some("name".to_string()),
            model_provider: "other".to_string(),
            cwd: "/elsewhere".to_string(),
            path: path.map(str::to_string),
            agent_nickname: Some("Nick".to_string()),
            agent_role: None,
            recorded_model: model.map(str::to_string),
            payload: String::new(),
        },
    };
    app.enqueue_thread_notification(AGENT, started(Some("/r"), Some("recorded")));
    let place = app.channel_place(AGENT);
    let inferred = app.thread_event_channels[place].store.session.as_ref().expect("session");
    assert_eq!(inferred.thread_id, AGENT);
    assert_eq!(inferred.thread_name, Some("name".to_string()));
    assert_eq!(inferred.model, "recorded");
    assert_eq!(inferred.model_provider_id, "other");
    assert_eq!(inferred.cwd, "/elsewhere");
    assert_eq!(inferred.forked_from_id, Some(OTHER));
    assert_eq!(inferred.fork_parent_title, Some("parent".to_string()));
    assert_eq!(inferred.active_permission_profile, Some("active".to_string()));
    assert_eq!(inferred.discovery_cwd, Some("/discovery".to_string()));
    assert_eq!(inferred.instruction_source_paths, vec!["/work/AGENTS.md".to_string()]);
    assert_eq!(inferred.network_proxy, Some("proxy".to_string()));
    assert_eq!(inferred.message_history, None);
    assert_eq!(inferred.rollout_path, Some("/r".to_string()));
    assert_eq!(app.thread_label(AGENT), "Nick");

    let (inferred, effects) =
        app.infer_session_for_thread_notification(OTHER, &started(Some("/r"), None));
    assert_eq!(inferred.expect("session").model, "");
    assert_eq!(effects, vec![AppEffect::AgentEntryChanged { thread_id: OTHER }]);
    let (inferred, _) = app.infer_session_for_thread_notification(OTHER, &started(None, None));
    assert_eq!(inferred.expect("session").model, "model");
    let (inferred, effects) =
        app.infer_session_for_thread_notification(OTHER, &ServerNotification::ThreadClosed);
    assert!(inferred.is_none());
    assert!(effects.is_empty());
}

#[test]
fn end_of_a_subagent_is_told_to_the_main_agent_once() {
    let mut app = with_main();
    app.agent_navigation.upsert(agent(AGENT, Some(" Ada "), Some("tester")));
    let effects = app.enqueue_thread_notification(AGENT, ServerNotification::ThreadClosed);
    assert_eq!(
        effects,
        vec![
            AppEffect::ApplyNotificationStatus {
                thread_id: AGENT,
                notification: ServerNotification::ThreadClosed,
            },
            AppEffect::AgentEntryChanged { thread_id: AGENT },
            AppEffect::SubmitSubagentCompletionWakeup {
                thread_id: AGENT,
                label: "Ada [tester]".to_string(),
            },
            no_terminals(Some(MAIN)),
            waiting(&[]),
        ]
    );
    assert_eq!(
        app.mark_subagent_closed_and_wake_primary_once(AGENT),
        vec![AppEffect::AgentEntryChanged { thread_id: AGENT }]
    );
}

#[test]
fn end_of_a_subagent_reaches_the_main_thread_from_elsewhere() {
    let mut app = with_main();
    app.agent_navigation.upsert(agent(AGENT, None, None));
    app.agent_navigation.upsert(agent(OTHER, None, None));
    app.active_thread_id = Some(OTHER);
    let prompt = "Subagent completed.\n\nAgent: Agent\nThread: 22222222-0000-0000-0000-000000000000\n\nContinue from this subagent result. Inspect the subagent transcript if needed before taking further action.";
    assert_eq!(
        app.mark_subagent_closed_and_wake_primary_once(AGENT),
        vec![
            AppEffect::AgentEntryChanged { thread_id: AGENT },
            AppEffect::SubmitThreadOp { thread_id: MAIN, op: wakeup_turn(prompt) },
        ]
    );
    assert_eq!(
        app.mark_subagent_closed_and_wake_primary_once(OTHER),
        vec![AppEffect::AgentEntryChanged { thread_id: OTHER }]
    );
    let place = app.channel_place(MAIN);
    assert_eq!(
        app.thread_event_channels[place].store.pending_offscreen_wakeup_prompts.len(),
        1
    );
}

#[test]
fn end_of_a_subagent_waits_while_the_main_session_is_unknown() {
    let mut app = app();
    app.active_thread_id = Some(OTHER);
    app.agent_navigation.upsert(agent(AGENT, Some("Ada"), None));
    app.mark_subagent_closed_and_wake_primary_once(AGENT);
    app.queue_or_submit_subagent_completion_wakeup("again".to_string(), AGENT);
    assert_eq!(app.pending_subagent_completion_wakeups.len(), 1);
    assert!(app.flush_pending_subagent_completion_wakeups().is_empty());
    app.primary_thread_id = Some(OTHER);
    assert_eq!(
        app.flush_pending_subagent_completion_wakeups(),
        vec![AppEffect::SubmitSubagentCompletionWakeup {
            thread_id: AGENT,
            label: "Ada".to_string(),
        }]
    );
    assert!(app.flush_pending_subagent_completion_wakeups().is_empty());
}

#[test]
fn side_conversations_and_the_main_thread_are_no_subagents() {
    let mut app = with_main();
    app.agent_navigation.upsert(agent(AGENT, None, None));
    app.side_threads.push(SideThread { thread_id: AGENT, parent_thread_id: MAIN });
    assert!(!app.should_wake_primary_for_closed_subagent(AGENT));
    assert!(!app.should_wake_primary_for_closed_subagent(MAIN));
    assert!(!app.should_wake_primary_for_closed_subagent(OTHER));
    app.side_threads.clear();
    assert!(app.should_wake_primary_for_closed_subagent(AGENT));
}

#[test]
fn request_of_another_thread_is_shown_with_its_name() {
    let mut app = with_main();
    let (effects, result) = app.enqueue_thread_request(AGENT, approval("call"));
    assert_eq!(result, ThreadRequestEnqueueResult::Enqueued);
    let shown = AppEffect::PushInteractiveRequest {
        prompt: ThreadInteractiveRequest::Approval(ApprovalRequest::Exec {
            thread_id: AGENT,
            thread_label: Some("Agent (22222222)".to_string()),
            id: "call".to_string(),
            command: vec!["ls".to_string()],
            reason: None,
            available_decisions: vec!["yes".to_string()],
            network_approval_context: None,
            additional_permissions: None,
        }),
    };
    let status = AppEffect::SetSideParentStatus {
        thread_id: AGENT,
        status: SideParentStatus::NeedsApproval,
    };
    assert_eq!(
        effects,
        vec![shown.duplicate(), status.duplicate(), waiting(&["Agent (22222222)"])]
    );
    assert_eq!(app.surface_pending_inactive_thread_interactive_requests(), vec![shown]);

    app.side_threads.push(SideThread { thread_id: MAIN, parent_thread_id: AGENT });
    assert!(app.surface_pending_inactive_thread_interactive_requests().is_empty());
    let (effects, _) = app.enqueue_thread_request(AGENT, approval("other"));
    assert_eq!(effects, vec![status, waiting(&[])]);
}

#[test]
fn waiting_threads_are_listed_in_the_order_of_their_ids() {
    let mut app = with_main();
    app.enqueue_thread_request(AGENT, approval("one"));
    app.enqueue_thread_request(OTHER, approval("two"));
    assert_eq!(
        app.refresh_pending_thread_approvals(),
        waiting(&["Agent (11111111)", "Agent (22222222)"])
    );
}

#[test]
fn request_of_a_closed_thread_is_turned_down() {
    let mut app = with_main();
    app.enqueue_thread_request(AGENT, approval("call"));
    app.mark_thread_store_closed_for_liveness(AGENT);
    let (effects, result) = app.enqueue_thread_request(AGENT, approval("late"));
    assert!(effects.is_empty());
    assert_eq!(result, ThreadRequestEnqueueResult::ThreadClosed);
    app.agent_navigation.mark_closed(OTHER);
    let (_, result) = app.enqueue_thread_request(OTHER, approval("late"));
    assert_eq!(result, ThreadRequestEnqueueResult::ThreadClosed);
}

#[test]
fn patch_is_shown_with_its_changes() {
    let mut app = with_main();
    let changes = vec![FileUpdateChange {
        path: "a.rs".to_string(),
        kind: PatchChangeKind::Update { move_path: Some("b.rs".to_string()) },
        diff: "@@".to_string(),
    }];
    app.enqueue_thread_notification(
        AGENT,
        ServerNotification::ItemStarted {
            turn_id: "turn".to_string(),
            item: ThreadItem::FileChange {
                id: "patch".to_string(),
                changes: changes.duplicate(),
                payload: "inProgress".to_string(),
            },
        },
    );
    let request = ServerRequest::FileChangeRequestApproval {
        request_id: RequestId::Integer(1),
        turn_id: "turn".to_string(),
        item_id: "patch".to_string(),
        reason: Some("why".to_string()),
        payload: String::new(),
    };
    let (effects, _) = app.enqueue_thread_request(AGENT, request);
    assert_eq!(
        effects[..2],
        [
            AppEffect::AddPatchPreview { cwd: "/start".to_string(), changes: changes.duplicate() },
            AppEffect::PushInteractiveRequest {
                prompt: ThreadInteractiveRequest::Approval(ApprovalRequest::ApplyPatch {
                    thread_id: AGENT,
                    thread_label: Some("Agent (22222222)".to_string()),
                    id: "patch".to_string(),
                    reason: Some("why".to_string()),
                    cwd: "/start".to_string(),
                    changes,
                }),
            },
        ]
    );
}

#[test]
fn elicitation_is_shown_as_what_it_is_or_declined() {
    let elicitation = |request: ElicitationRequest, link: Option<&str>, form: Option<&str>| {
        ServerRequest::McpServerElicitationRequest {
            request_id: RequestId::Text("r".to_string()),
            server_name: "server".to_string(),
            request,
            app_link: link.map(str::to_string),
            form: form.map(str::to_string),
        }
    };
    let form = || ElicitationRequest::Form { message: "please".to_string() };
    let url = || ElicitationRequest::Url { url: "https://example.org".to_string() };
    let shown = |request: ServerRequest| {
        let mut app = with_main();
        let (effects, _) = app.enqueue_thread_request(AGENT, request);
        effects.into_iter().next().expect("effect")
    };
    assert_eq!(
        shown(elicitation(url(), Some("link"), Some("form"))),
        AppEffect::PushInteractiveRequest {
            prompt: ThreadInteractiveRequest::AppLink("link".to_string())
        }
    );
    assert_eq!(
        shown(elicitation(form(), None, Some("form"))),
        AppEffect::PushInteractiveRequest {
            prompt: ThreadInteractiveRequest::McpServerElicitation("form".to_string())
        }
    );
    assert_eq!(
        shown(elicitation(form(), None, None)),
        AppEffect::PushInteractiveRequest {
            prompt: ThreadInteractiveRequest::Approval(ApprovalRequest::McpElicitation {
                thread_id: AGENT,
                thread_label: Some("Agent (22222222)".to_string()),
                server_name: "server".to_string(),
                request_id: RequestId::Text("r".to_string()),
                message: "please".to_string(),
            })
        }
    );
    assert_eq!(
        shown(elicitation(url(), None, None)),
        AppEffect::DeclineElicitation {
            thread_id: AGENT,
            server_name: "server".to_string(),
            request_id: RequestId::Text("r".to_string()),
        }
    );
}

#[test]
fn permissions_are_asked_for_and_input_waits() {
    let mut app = with_main();
    let (effects, _) = app.enqueue_thread_request(
        AGENT,
        ServerRequest::PermissionsRequestApproval {
            request_id: RequestId::Integer(2),
            turn_id: "t".to_string(),
            item_id: "i".to_string(),
            reason: None,
            permissions: "network".to_string(),
            payload: String::new(),
        },
    );
    assert_eq!(
        effects[0],
        AppEffect::PushInteractiveRequest {
            prompt: ThreadInteractiveRequest::Approval(ApprovalRequest::Permissions {
                thread_id: AGENT,
                thread_label: Some("Agent (22222222)".to_string()),
                call_id: "i".to_string(),
                reason: None,
                permissions: "network".to_string(),
            })
        }
    );
    let (effects, _) = app.enqueue_thread_request(
        OTHER,
        ServerRequest::ToolRequestUserInput {
            request_id: RequestId::Integer(3),
            turn_id: "t".to_string(),
            item_id: "i".to_string(),
            payload: "Which one?".to_string(),
        },
    );
    assert_eq!(
        effects[0],
        AppEffect::SetSideParentStatus { thread_id: OTHER, status: SideParentStatus::NeedsInput }
    );
}

#[test]
fn labels_of_threads() {
    let mut app = with_main();
    assert_eq!(app.thread_label(MAIN), "Main [default]");
    assert_eq!(app.thread_label(AGENT), "Agent (22222222)");
    app.agent_navigation.upsert(agent(AGENT, Some("  "), None));
    assert_eq!(app.thread_label(AGENT), "Agent (22222222)");
    app.agent_navigation.upsert(agent(AGENT, None, Some("tester")));
    assert_eq!(app.thread_label(AGENT), "[tester]");
    app.agent_navigation.upsert(agent(AGENT, Some("Ada"), Some("tester")));
    assert_eq!(app.thread_label(AGENT), "Ada [tester]");
    assert_eq!(app.subagent_activity_label(MAIN), "Agent");
    let unknown = App::new(8, String::new());
    assert_eq!(unknown.thread_label(MAIN), "Agent (00000000)");
}

#[test]
fn agents_are_listed() {
    let mut app = with_main();
    assert_eq!(
        app.sync_active_agent_label(),
        vec![
            AppEffect::SetActiveAgentLabel { shown: None },
            AppEffect::SetActiveSubagentCount { count: 0 },
            AppEffect::SetSubagentSummaries { subagents: Vec::new() },
            AppEffect::SyncSideThreadUi,
        ]
    );
    app.agent_navigation.upsert(agent(AGENT, Some("Ada"), None));
    app.agent_navigation.upsert(agent(OTHER, None, None));
    app.agent_navigation.mark_closed(OTHER);
    let effects = app.sync_active_agent_label();
    assert_eq!(
        effects[0],
        AppEffect::SetActiveAgentLabel { shown: Some("Main [default]".to_string()) }
    );
    assert_eq!(effects[1], AppEffect::SetActiveSubagentCount { count: 1 });
    match &effects[2] {
        AppEffect::SetSubagentSummaries { subagents } => {
            assert_eq!(subagents.len(), 2);
            assert_eq!(subagents[0].label, "Ada");
            assert!(subagents[1].is_closed);
        }
        other => panic!("unexpected effect: {other:?}"),
    }
    app.side_threads.push(SideThread { thread_id: AGENT, parent_thread_id: MAIN });
    assert_eq!(
        app.sync_active_agent_label()[1],
        AppEffect::SetActiveSubagentCount { count: 0 }
    );
}

#[test]
fn displayed_thread_is_the_active_one_or_what_the_screen_shows() {
    let mut app = app();
    assert_eq!(app.current_displayed_thread_id(), None);
    app.widget_thread_id = Some(OTHER);
    assert_eq!(app.current_displayed_thread_id(), Some(OTHER));
    app.active_thread_id = Some(AGENT);
    assert_eq!(app.current_displayed_thread_id(), Some(AGENT));
}

#[test]
fn leaving_a_thread_submits_one_prompt_and_lets_the_rest_wait() {
    let mut app = with_main();
    let mut input = ThreadInputState::background_tracking_only();
    for text in ["one", "two", "three"] {
        input.queue_background_terminal_completion_prompt_for_restore(text.to_string());
    }
    let effects = app.store_active_thread_receiver(Some(input));
    assert_eq!(
        effects,
        vec![AppEffect::SubmitThreadOp { thread_id: MAIN, op: wakeup_turn("one") }]
    );
    let place = app.channel_place(MAIN);
    let store = &app.thread_event_channels[place].store;
    assert!(!store.active);
    assert_eq!(store.pending_offscreen_wakeup_prompts, vec!["two", "three"]);
    assert!(app.thread_event_channels[place].has_receiver);
    assert!(!app.has_active_receiver);
}

#[test]
fn leaving_before_the_turn_has_started_lets_all_prompts_wait() {
    let mut app = with_main();
    let mut input = ThreadInputState::background_tracking_only();
    input.mark_user_turn_pending_start_for_restore();
    input.queue_background_terminal_completion_prompt_for_restore("one".to_string());
    assert!(app.store_active_thread_receiver(Some(input)).is_empty());
    let place = app.channel_place(MAIN);
    assert_eq!(
        app.thread_event_channels[place].store.pending_offscreen_wakeup_prompts,
        vec!["one"]
    );
}

#[test]
fn leaving_a_closed_thread_keeps_nothing_that_runs() {
    let mut app = with_main();
    app.mark_thread_store_closed_for_liveness(MAIN);
    let mut input = ThreadInputState::background_tracking_only();
    input.mark_user_turn_pending_start_for_restore();
    input.queue_background_terminal_completion_prompt_for_restore("one".to_string());
    input.track_background_terminal_start(
        &"call".to_string(),
        &None,
        &"make".to_string(),
        None,
    );
    assert!(app.store_active_thread_receiver(Some(input)).is_empty());
    let place = app.channel_place(MAIN);
    assert_eq!(
        app.thread_event_channels[place].store.input_state,
        Some(ThreadInputState::background_tracking_only())
    );
}

#[test]
fn leaving_without_a_session_keeps_the_prompt_with_the_input() {
    let mut app = app();
    app.ensure_thread_channel(AGENT);
    app.activate_thread_channel(AGENT);
    let mut input = ThreadInputState::background_tracking_only();
    input.queue_background_terminal_completion_prompt_for_restore("one".to_string());
    assert!(app.store_active_thread_receiver(Some(input)).is_empty());
    let place = app.channel_place(AGENT);
    let store = &app.thread_event_channels[place].store;
    assert_eq!(
        store.input_state.as_ref().expect("input").queued_completion_prompts,
        vec!["one"]
    );
    assert!(!store.offscreen_wakeup_in_flight);
}

#[test]
fn thread_is_activated_for_replay_once() {
    let mut app = with_main();
    assert!(app.activate_thread_for_replay(AGENT).is_none());
    assert!(app.activate_thread_for_replay(MAIN).is_none());
    app.store_active_thread_receiver(None);
    let snapshot = app.activate_thread_for_replay(MAIN).expect("snapshot");
    assert_eq!(snapshot.session, Some(session(MAIN)));
    assert!(app.activate_thread_for_replay(MAIN).is_none());
}

#[test]
fn only_one_thread_is_active() {
    let mut app = with_main();
    app.ensure_thread_channel(AGENT);
    assert!(app.activate_thread_channel(AGENT).is_empty());
    assert_eq!(app.active_thread_id, Some(MAIN));
    assert_eq!(app.clear_active_thread(), vec![waiting(&[])]);
    assert_eq!(app.active_thread_id, None);
    let place = app.channel_place(MAIN);
    assert!(!app.thread_event_channels[place].store.active);
    assert_eq!(app.activate_thread_channel(AGENT), vec![waiting(&[])]);
    assert!(app.has_active_receiver);
}

#[test]
fn failover_goes_back_to_the_main_thread() {
    let mut app = with_main();
    app.agent_navigation.upsert(agent(AGENT, Some("Ada"), None));
    app.ensure_thread_channel(AGENT);
    app.active_thread_id = Some(AGENT);
    let (step, effects) = app.handle_active_thread_event(ThreadBufferedEvent::Notification(
        ServerNotification::ThreadClosed,
    ));
    assert_eq!(effects, vec![AppEffect::AgentEntryChanged { thread_id: AGENT }]);
    let failover = match step {
        ActiveEventStep::FailOver(failover) => failover,
        other => panic!("unexpected step: {other:?}"),
    };
    assert_eq!(failover.closed_thread_id, AGENT);
    assert_eq!(failover.primary_thread_id, MAIN);
    assert!(!failover.is_side);
    assert_eq!(failover.wake_label, Some("Ada".to_string()));
    assert!(app.thread_is_closed_or_marked_closed(AGENT));

    app.active_thread_id = Some(MAIN);
    assert_eq!(
        app.finish_failover(failover.duplicate()),
        vec![
            AppEffect::AddInfoMessage {
                message: "Agent thread 22222222-0000-0000-0000-000000000000 closed. Switched back to main thread.".to_string(),
            },
            AppEffect::SubmitSubagentCompletionWakeup {
                thread_id: AGENT,
                label: "Ada".to_string(),
            },
        ]
    );
    app.active_thread_id = Some(AGENT);
    assert_eq!(
        app.finish_failover(failover),
        vec![
            waiting(&[]),
            AppEffect::AddErrorMessage {
                message: "Agent thread 22222222-0000-0000-0000-000000000000 closed. Failed to switch back to main thread 00000000-0000-0000-0000-000000000001.".to_string(),
            },
        ]
    );
    assert_eq!(app.active_thread_id, None);
}

#[test]
fn asked_for_exit_does_not_fail_over() {
    let mut app = with_main();
    app.active_thread_id = Some(AGENT);
    app.pending_shutdown_exit_thread_id = Some(AGENT);
    assert_eq!(app.active_non_primary_shutdown_target(&ServerNotification::ThreadClosed), None);
    let other = ServerNotification::TurnStarted { turn: turn("t") };
    app.handle_active_thread_event(ThreadBufferedEvent::Notification(other));
    assert_eq!(app.pending_shutdown_exit_thread_id, Some(AGENT));
    let (step, _) = app.handle_active_thread_event(ThreadBufferedEvent::Notification(
        ServerNotification::ThreadClosed,
    ));
    assert!(matches!(step, ActiveEventStep::Handle(_)));
    assert_eq!(app.pending_shutdown_exit_thread_id, None);
    assert_eq!(
        app.active_non_primary_shutdown_target(&ServerNotification::ThreadClosed),
        Some((AGENT, MAIN))
    );
    app.active_thread_id = Some(MAIN);
    assert_eq!(app.active_non_primary_shutdown_target(&ServerNotification::ThreadClosed), None);
}

#[test]
fn event_of_a_stopped_terminal_is_dropped_from_the_screen() {
    let mut app = with_main();
    let place = app.channel_place(MAIN);
    app.thread_event_channels[place]
        .store
        .mark_background_terminal_stopped(&"p".to_string(), &Some("call".to_string()));
    let delta = ThreadBufferedEvent::Notification(ServerNotification::CommandExecutionOutputDelta {
        turn_id: "t".to_string(),
        item_id: "call".to_string(),
        delta: "late".to_string(),
    });
    let (step, effects) = app.handle_active_thread_event(delta.duplicate());
    assert_eq!(step, ActiveEventStep::Dropped);
    assert_eq!(effects, vec![no_terminals(Some(MAIN))]);
    assert!(app.should_drop_stopped_background_terminal_event(&delta));
    app.active_thread_id = None;
    assert!(!app.should_drop_stopped_background_terminal_event(&delta));
}

#[test]
fn shown_events() {
    let app = with_main();
    let started = ServerNotification::TurnStarted { turn: turn("t") };
    assert_eq!(
        app.show_active_thread_event(ThreadBufferedEvent::Notification(started.duplicate()), false),
        vec![
            AppEffect::HandleNotification { notification: started },
            AppEffect::RefreshStatusLine,
            no_terminals(Some(MAIN)),
        ]
    );
    assert_eq!(
        app.show_active_thread_event(ThreadBufferedEvent::Request(approval("c")), true),
        vec![AppEffect::HandleRequest { request: approval("c") }, no_terminals(Some(MAIN))]
    );
    assert_eq!(
        app.show_active_thread_event(ThreadBufferedEvent::Request(approval("c")), false),
        vec![no_terminals(Some(MAIN))]
    );
}

#[test]
fn drained_channel_goes_back_to_its_place() {
    let mut app = with_main();
    assert_eq!(app.begin_drain(), Some(MAIN));
    assert_eq!(app.begin_drain(), None);
    assert!(app.finish_drain(MAIN, false).is_empty());
    assert!(app.has_active_receiver);

    assert_eq!(app.begin_drain(), Some(MAIN));
    app.active_thread_id = Some(AGENT);
    assert!(app.drain_is_over(MAIN));
    assert!(app.finish_drain(MAIN, false).is_empty());
    let place = app.channel_place(MAIN);
    assert!(app.thread_event_channels[place].has_receiver);

    app.active_thread_id = Some(MAIN);
    assert_eq!(app.finish_drain(MAIN, true), vec![waiting(&[])]);
    assert_eq!(app.active_thread_id, None);
}

#[test]
fn rollback_of_the_thread_on_screen() {
    let mut app = with_main();
    let turns = vec![turn("left")];
    assert_eq!(
        app.handle_thread_rollback_response(MAIN, 2, &turns, true),
        vec![waiting(&[]), AppEffect::HandleRollbackSucceeded { num_turns: 2 }]
    );
    assert_eq!(app.active_thread_id, None);
    let place = app.channel_place(MAIN);
    assert_eq!(app.thread_event_channels[place].store.turns, turns);
    assert_eq!(app.active_turn_id_for_thread(MAIN), None);
}

#[test]
fn terminal_of_another_thread_is_stopped() {
    let mut app = with_main();
    app.enqueue_thread_notification(
        AGENT,
        ServerNotification::ItemStarted {
            turn_id: "t".to_string(),
            item: ThreadItem::CommandExecution {
                id: "call".to_string(),
                command: "make".to_string(),
                process_id: Some("proc".to_string()),
                source: CommandExecutionSource::UnifiedExecStartup,
                status: CommandExecutionStatus::InProgress,
                aggregated_output: None,
                exit_code: None,
                payload: String::new(),
            },
        },
    );
    let unknown = || RunningTerminal { command_display: None, call_id: None };
    let (step, effects) = app.stop_background_terminal(AGENT, &"proc".to_string(), unknown());
    assert!(effects.is_empty());
    assert_eq!(
        step,
        StopStep::Terminate {
            command_display: "make".to_string(),
            call_id: Some("call".to_string()),
        }
    );
    match app.sync_background_terminal_activity_summaries() {
        AppEffect::SetBackgroundTerminals { current, terminals } => {
            assert_eq!(current, Some(MAIN));
            assert_eq!(terminals.len(), 1);
            assert_eq!(terminals[0].process_id, "proc");
            assert_eq!(terminals[0].command_display, "make");
        }
        other => panic!("unexpected effect: {other:?}"),
    }
    assert_eq!(
        app.background_terminal_stopped(
            AGENT,
            "proc".to_string(),
            &Some("call".to_string()),
            "make"
        ),
        vec![
            no_terminals(Some(MAIN)),
            AppEffect::AddInfoMessage { message: "Stopping background terminal: make".to_string() },
        ]
    );
    let (step, effects) = app.stop_background_terminal(AGENT, &"proc".to_string(), unknown());
    assert_eq!(step, StopStep::NotRunning);
    assert_eq!(
        effects,
        vec![
            AppEffect::AddErrorMessage {
                message: "Background terminal is no longer running.".to_string()
            },
            no_terminals(Some(MAIN)),
        ]
    );
    let (step, _) = app.stop_background_terminal(
        MAIN,
        &"p".to_string(),
        RunningTerminal { command_display: Some("ls".to_string()), call_id: None },
    );
    assert_eq!(
        step,
        StopStep::Terminate { command_display: "ls".to_string(), call_id: None }
    );
    assert_eq!(
        app.background_terminal_stopped(MAIN, "p".to_string(), &None, "ls")[0],
        AppEffect::RemoveShownTerminal { process_id: "p".to_string() }
    );
}

#[test]
fn snapshot_is_replayed_in_order() {
    let mut app = app();
    let warning = || {
        ThreadBufferedEvent::Notification(ServerNotification::Notice {
            kind: NoticeKind::Warning,
            payload: "careful".to_string(),
        })
    };
    app.enqueue_thread_request(AGENT, approval("call"));
    let place = app.channel_place(AGENT);
    app.thread_event_channels[place].store.set_session(session(AGENT), vec![turn("t")]);
    app.thread_event_channels[place].store.push_event(warning());
    let snapshot = app.activate_thread_for_replay(AGENT).expect("snapshot");
    let effects = app.replay_thread_snapshot(snapshot.duplicate(), true, true);
    assert_eq!(
        effects,
        vec![
            AppEffect::BeginThreadSwitchHistoryReplayBuffer,
            AppEffect::ShowSession { session: session(AGENT), display: SessionDisplay::Quiet },
            AppEffect::SetQueueAutosendSuppressed { suppressed: true },
            AppEffect::RestoreInputState { input_state: None },
            AppEffect::ReplayTurns { turns: vec![turn("t")], kind: ReplayKind::ThreadSnapshot },
            AppEffect::ReplayEvent { event: ThreadBufferedEvent::Request(approval("call")) },
            AppEffect::MarkReplayedTerminalsLive,
            AppEffect::EndInitialHistoryReplayBuffer,
            AppEffect::SetQueueAutosendSuppressed { suppressed: false },
            AppEffect::SetInitialUserMessageSuppressed { suppressed: false },
            AppEffect::SubmitInitialUserMessage,
            AppEffect::SendNextQueuedInput,
            AppEffect::RefreshStatusLine,
        ]
    );
    assert_eq!(app.widget_thread_id, Some(AGENT));
    app.side_threads.push(SideThread { thread_id: AGENT, parent_thread_id: MAIN });
    let mut quiet = snapshot;
    quiet.events = vec![warning()];
    quiet.turns = Vec::new();
    let effects = app.replay_thread_snapshot(quiet, false, false);
    assert_eq!(
        effects[..4],
        [
            AppEffect::ShowSession { session: session(AGENT), display: SessionDisplay::Side },
            AppEffect::SetQueueAutosendSuppressed { suppressed: true },
            AppEffect::RestoreInputState { input_state: None },
            AppEffect::ReplayEvent { event: warning() },
        ]
    );
}

#[test]
fn session_is_fetched_anew_where_it_lacks_something() {
    let mut app = with_main();
    app.store_active_thread_receiver(None);
    let mut snapshot = app.activate_thread_for_replay(MAIN).expect("snapshot");
    assert!(!app.should_refresh_snapshot_session(MAIN, false, &snapshot));
    snapshot.session.as_mut().expect("session").model = " \t".to_string();
    assert!(app.should_refresh_snapshot_session(MAIN, false, &snapshot));
    assert!(!app.should_refresh_snapshot_session(MAIN, true, &snapshot));
    app.side_threads.push(SideThread { thread_id: MAIN, parent_thread_id: AGENT });
    assert!(!app.should_refresh_snapshot_session(MAIN, false, &snapshot));
    app.side_threads.clear();
    snapshot.session = Some(session(MAIN));
    snapshot.session.as_mut().expect("session").rollout_path = None;
    assert!(app.should_refresh_snapshot_session(MAIN, false, &snapshot));
    snapshot.session = None;
    assert!(app.should_refresh_snapshot_session(MAIN, false, &snapshot));

    snapshot.events = vec![
        ThreadBufferedEvent::Notification(ServerNotification::TurnStarted { turn: turn("t") }),
        ThreadBufferedEvent::Request(approval("call")),
    ];
    app.apply_refreshed_snapshot_thread(MAIN, session(MAIN), vec![turn("new")], &mut snapshot);
    assert_eq!(snapshot.session, Some(session(MAIN)));
    assert_eq!(snapshot.turns, vec![turn("new")]);
    assert_eq!(snapshot.events, vec![ThreadBufferedEvent::Request(approval("call"))]);
    assert_eq!(app.active_turn_id_for_thread(MAIN), Some("new".to_string()));
}

fn collab_call(receivers: &[&str]) -> ServerNotification {
    ServerNotification::ItemStarted {
        turn_id: "t".to_string(),
        item: ThreadItem::CollabAgentToolCall {
            id: "call".to_string(),
            receiver_thread_ids: receivers.iter().map(|id| id.to_string()).collect(),
            payload: String::new(),
        },
    }
}

const AGENT_TEXT: &str = "22222222-0000-0000-0000-000000000000";
const OTHER_TEXT: &str = "11111111-0000-0000-0000-000000000000";

fn metadata(nickname: Option<&str>, role: Option<&str>, not_loaded: bool) -> AgentMetadata {
    AgentMetadata {
        agent_nickname: nickname.map(str::to_string),
        agent_role: role.map(str::to_string),
        not_loaded,
    }
}

#[test]
fn collab_receivers_are_asked_about_once() {
    let mut app = with_main();
    let notification = collab_call(&[AGENT_TEXT, "not an id"]);
    assert_eq!(collab_receiver_thread_ids(&notification), vec![AGENT]);
    assert!(collab_receiver_thread_ids(&ServerNotification::ThreadClosed).is_empty());
    assert!(app.needs_agent_metadata(AGENT));
    assert_eq!(app.hydrate_collab_agent_metadata_for_notification(&notification), vec![AGENT]);
    assert_eq!(
        app.finish_agent_metadata(AGENT, Some(metadata(None, Some("tester"), true))),
        Some(AppEffect::AgentEntryChanged { thread_id: AGENT })
    );
    assert!(!app.needs_agent_metadata(AGENT));
    assert!(app.thread_is_closed_or_marked_closed(AGENT));
    assert_eq!(app.thread_label(AGENT), "[tester]");
    assert!(app.hydrate_collab_agent_metadata_for_notification(&notification).is_empty());
}

#[test]
fn agent_without_nickname_and_role_is_asked_about_once() {
    let mut app = with_main();
    assert!(app.try_agent_metadata(OTHER));
    assert_eq!(
        app.finish_agent_metadata(OTHER, Some(metadata(None, None, false))),
        Some(AppEffect::AgentEntryChanged { thread_id: OTHER })
    );
    assert!(!app.needs_agent_metadata(OTHER));
    assert!(!app.try_agent_metadata(OTHER));
}

#[test]
fn agent_that_cannot_be_read_is_asked_about_once() {
    let mut app = with_main();
    assert!(app.try_agent_metadata(OTHER));
    let label = app.thread_label(OTHER);
    assert_eq!(app.finish_agent_metadata(OTHER, None), None);
    assert!(!app.needs_agent_metadata(OTHER));
    assert_eq!(app.thread_label(OTHER), label);
    assert!(app.agent_navigation.get(OTHER).is_none());
    app.enqueue_thread_notification(OTHER, ServerNotification::ThreadClosed);
    app.agent_navigation.upsert(agent(OTHER, None, None));
    assert!(!app.needs_agent_metadata(OTHER));
    assert!(app
        .hydrate_collab_agent_metadata_for_notification(&collab_call(&[OTHER_TEXT]))
        .is_empty());
}

#[test]
fn asked_agent_stays_asked_whatever_happens() {
    let mut app = with_main();
    assert!(app.try_agent_metadata(OTHER));
    app.enqueue_thread_request(OTHER, approval("call"));
    app.activate_thread_channel(OTHER);
    app.store_active_thread_receiver(None);
    app.clear_active_thread();
    app.activate_thread_for_replay(OTHER);
    app.note_thread_outbound_op(OTHER, &AppCommand::ExecApproval { id: "call".to_string() });
    app.server_call_succeeded(OTHER, &AppCommand::CleanBackgroundTerminals);
    app.finish_submission(OTHER, &AppCommand::Compact, true);
    app.mark_subagent_closed_and_wake_primary_once(OTHER);
    app.enqueue_primary_thread_session(session(OTHER), vec![turn("t")], CwdOverride::Absent, false);
    assert!(!app.needs_agent_metadata(OTHER));
    assert_eq!(app.agent_metadata_asked, vec![OTHER]);
}

#[test]
fn receivers_named_twice_are_asked_about_once() {
    let mut app = with_main();
    app.agent_navigation.upsert(agent(MAIN, Some("Main"), None));
    let notification = collab_call(&[
        AGENT_TEXT,
        "00000000-0000-0000-0000-000000000001",
        OTHER_TEXT,
        AGENT_TEXT,
    ]);
    assert_eq!(
        app.hydrate_collab_agent_metadata_for_notification(&notification),
        vec![AGENT, OTHER]
    );
    assert_eq!(app.agent_metadata_asked, vec![AGENT, OTHER]);
    assert!(app.hydrate_collab_agent_metadata_for_notification(&notification).is_empty());
    assert!(app
        .hydrate_collab_agent_metadata_for_notification(&ServerNotification::ThreadClosed)
        .is_empty());
}

#[test]
fn thread_on_screen_is_not_resumed() {
    let app = with_main();
    assert_eq!(
        app.ignore_same_thread_resume(MAIN, "this"),
        Some(AppEffect::AddInfoMessage { message: "Already viewing this.".to_string() })
    );
    assert_eq!(app.ignore_same_thread_resume(AGENT, "that"), None);
}

#[test]
fn startup_decisions() {
    assert!(should_wait_for_initial_session(SessionSelection::StartFresh));
    assert!(should_wait_for_initial_session(SessionSelection::Exit));
    assert!(!should_wait_for_initial_session(SessionSelection::Resume));
    assert!(!should_wait_for_initial_session(SessionSelection::Fork));
    let (none, image) = (Vec::new(), vec!["a.png".to_string()]);
    let asks = should_prompt_for_paused_goal_after_startup_resume;
    assert!(asks(SessionSelection::Resume, &None, &none));
    assert!(!asks(SessionSelection::Resume, &None, &image));
    assert!(!asks(SessionSelection::Resume, &Some("hi".to_string()), &none));
    assert!(!asks(SessionSelection::Fork, &None, &none));
    assert!(should_handle_active_thread_events(false, true));
    assert!(!should_handle_active_thread_events(true, true));
    assert!(should_stop_waiting_for_initial_session(true, Some(MAIN)));
    assert!(!should_stop_waiting_for_initial_session(true, None));
}

fn config() -> TurnConfig {
    TurnConfig {
        approvals_reviewer: ApprovalsReviewer::User,
        permission_profile: "profile".to_string(),
        active_permission_profile: Some("named".to_string()),
    }
}

fn user_turn() -> UserTurn {
    match wakeup_turn("hello") {
        AppCommand::UserTurn(turn) => UserTurn { approvals_reviewer: None, ..turn },
        other => panic!("unexpected command: {other:?}"),
    }
}

#[test]
fn turn_is_started_or_steered() {
    let mut app = with_main();
    let op = AppCommand::UserTurn(user_turn());
    match app.try_submit_active_thread_op_via_app_server(MAIN, &op, &config()) {
        OpStep::Call(ServerCall::TurnStart(start)) => {
            assert_eq!(start.approvals_reviewer, ApprovalsReviewer::User);
            assert_eq!(start.active_permission_profile, Some("named".to_string()));
            assert_eq!(start.items, user_turn().items);
        }
        other => panic!("unexpected step: {other:?}"),
    }
    let mut stranger = config();
    stranger.permission_profile = "else".to_string();
    match app.try_submit_active_thread_op_via_app_server(MAIN, &op, &stranger) {
        OpStep::Call(ServerCall::TurnStart(start)) => {
            assert_eq!(start.active_permission_profile, None);
        }
        other => panic!("unexpected step: {other:?}"),
    }
    app.enqueue_thread_notification(MAIN, ServerNotification::TurnStarted { turn: turn("t") });
    assert_eq!(
        app.try_submit_active_thread_op_via_app_server(MAIN, &op, &config()),
        OpStep::Call(ServerCall::TurnSteer {
            thread_id: MAIN,
            turn_id: "t".to_string(),
            items: user_turn().items,
        })
    );
    assert_eq!(
        app.try_submit_active_thread_op_via_app_server(MAIN, &AppCommand::Interrupt, &config()),
        OpStep::Call(ServerCall::TurnInterrupt { thread_id: MAIN, turn_id: "t".to_string() })
    );
    assert_eq!(
        app.try_submit_active_thread_op_via_app_server(AGENT, &AppCommand::Interrupt, &config()),
        OpStep::Call(ServerCall::StartupInterrupt { thread_id: AGENT })
    );
}

#[test]
fn every_command_has_its_call() {
    let app = with_main();
    let step = |op: AppCommand| app.try_submit_active_thread_op_via_app_server(MAIN, &op, &config());
    let text = |text: &str| text.to_string();
    assert_eq!(
        step(AppCommand::ListSkills { cwds: vec![text("/a")], force_reload: true }),
        OpStep::Call(ServerCall::SkillsList { cwds: vec![text("/a")], force_reload: true })
    );
    assert_eq!(
        step(AppCommand::Compact),
        OpStep::Call(ServerCall::ThreadCompactStart { thread_id: MAIN })
    );
    assert_eq!(
        step(AppCommand::SetThreadName { name: text("n") }),
        OpStep::Call(ServerCall::ThreadSetName { thread_id: MAIN, name: text("n") })
    );
    assert_eq!(
        step(AppCommand::ThreadRollback { num_turns: 3 }),
        OpStep::Call(ServerCall::ThreadRollback { thread_id: MAIN, num_turns: 3 })
    );
    assert_eq!(
        step(AppCommand::Review { target: text("t") }),
        OpStep::Call(ServerCall::ReviewStart { thread_id: MAIN, target: text("t") })
    );
    assert_eq!(
        step(AppCommand::CleanBackgroundTerminals),
        OpStep::Call(ServerCall::BackgroundTerminalsClean { thread_id: MAIN })
    );
    assert_eq!(
        step(AppCommand::TerminateBackgroundTerminal { process_id: text("p") }),
        OpStep::Call(ServerCall::BackgroundTerminalTerminate {
            thread_id: MAIN,
            process_id: text("p"),
        })
    );
    assert_eq!(
        step(AppCommand::RealtimeConversationStart { transport: None, voice: Some(text("v")) }),
        OpStep::Call(ServerCall::RealtimeStart {
            thread_id: MAIN,
            transport: None,
            voice: Some(text("v")),
        })
    );
    assert_eq!(
        step(AppCommand::RealtimeConversationAudio { frame: text("f") }),
        OpStep::Call(ServerCall::RealtimeAudio { thread_id: MAIN, frame: text("f") })
    );
    assert_eq!(
        step(AppCommand::RealtimeConversationClose),
        OpStep::Call(ServerCall::RealtimeStop { thread_id: MAIN })
    );
    assert_eq!(
        step(AppCommand::RunUserShellCommand { command: text("ls") }),
        OpStep::Call(ServerCall::ShellCommand { thread_id: MAIN, command: text("ls") })
    );
    assert_eq!(step(AppCommand::ReloadUserConfig), OpStep::Call(ServerCall::ReloadUserConfig));
    assert_eq!(
        step(AppCommand::OverrideTurnContext { cwd: Some(text("/c")) }),
        OpStep::Call(ServerCall::RuntimeCwdUpdate { thread_id: MAIN, cwd: text("/c") })
    );
    assert_eq!(step(AppCommand::OverrideTurnContext { cwd: None }), OpStep::Done);
    assert_eq!(
        step(AppCommand::ApproveGuardianDeniedAction { event: text("e") }),
        OpStep::Call(ServerCall::ApproveGuardianDeniedAction {
            thread_id: MAIN,
            event: text("e"),
        })
    );
    assert_eq!(step(AppCommand::Shutdown), OpStep::Unsupported);
    assert_eq!(step(AppCommand::ExecApproval { id: text("i") }), OpStep::Unsupported);
}

#[test]
fn steering_is_retried_once() {
    let mut app = with_main();
    app.enqueue_thread_notification(MAIN, ServerNotification::TurnStarted { turn: turn("t") });
    let first =
        SteerAttempt { thread_id: MAIN, turn_id: "t".to_string(), retried: false };
    let mismatch = |id: &str| SteerReply::ExpectedTurnMismatch { actual_turn_id: id.to_string() };
    let turn = user_turn();
    let second = match app.steer_replied(&first, &turn, &config(), mismatch("review")) {
        SteerStep::Retry(attempt) => attempt,
        other => panic!("unexpected step: {other:?}"),
    };
    assert_eq!(
        second,
        SteerAttempt { thread_id: MAIN, turn_id: "review".to_string(), retried: true }
    );
    assert_eq!(app.active_turn_id_for_thread(MAIN), Some("review".to_string()));
    assert_eq!(
        app.steer_replied(&second, &turn, &config(), mismatch("again")),
        SteerStep::Fail
    );
    assert_eq!(app.active_turn_id_for_thread(MAIN), Some("again".to_string()));
    assert_eq!(app.steer_replied(&first, &turn, &config(), mismatch("t")), SteerStep::Fail);
    assert_eq!(
        app.steer_replied(&first, &turn, &config(), SteerReply::Accepted),
        SteerStep::Done
    );
    let refused = SteerReply::NotSteerable { message: "no".to_string() };
    assert_eq!(
        app.steer_replied(&first, &turn, &config(), refused),
        SteerStep::QueueRejected { message: "no".to_string() }
    );
    assert_eq!(app.steer_replied(&first, &turn, &config(), SteerReply::Failed), SteerStep::Fail);
    assert!(matches!(
        app.steer_replied(&first, &turn, &config(), SteerReply::Missing),
        SteerStep::Start(_)
    ));
    assert_eq!(app.active_turn_id_for_thread(MAIN), None);
}

#[test]
fn command_is_carried_on_after_it_was_tried_as_an_answer() {
    let mut app = with_main();
    app.enqueue_thread_request(AGENT, approval("call"));
    let answer = AppCommand::ExecApproval { id: "call".to_string() };
    let (step, effects) =
        app.submit_thread_op(AGENT, &answer, &config(), RequestResolution::Answered);
    assert_eq!(step, SubmitStep::Done);
    assert_eq!(
        effects,
        vec![waiting(&[]), AppEffect::ClearSideParentActionStatus { thread_id: AGENT }]
    );
    let failed = RequestResolution::AnswerFailed { error: "gone".to_string() };
    let (step, effects) = app.submit_thread_op(AGENT, &answer, &config(), failed);
    assert_eq!(step, SubmitStep::Submit(OpStep::Unsupported));
    assert_eq!(
        effects,
        vec![AppEffect::AddErrorMessage {
            message: "Failed to resolve app-server request for thread 22222222-0000-0000-0000-000000000000: gone".to_string(),
        }]
    );
    assert_eq!(
        app.finish_submission(AGENT, &answer, false),
        vec![AppEffect::AddErrorMessage {
            message: "Not available in TUI yet for thread 22222222-0000-0000-0000-000000000000.".to_string(),
        }]
    );
    app.mark_thread_store_closed_for_liveness(AGENT);
    let (step, _) =
        app.submit_thread_op(AGENT, &AppCommand::Compact, &config(), RequestResolution::NotPending);
    assert_eq!(step, SubmitStep::Done);
    let (step, _) =
        app.submit_thread_op(MAIN, &AppCommand::Compact, &config(), RequestResolution::NotPending);
    assert_eq!(
        step,
        SubmitStep::Submit(OpStep::Call(ServerCall::ThreadCompactStart { thread_id: MAIN }))
    );
    assert!(app.finish_submission(MAIN, &AppCommand::Compact, true).is_empty());
}

#[test]
fn command_without_a_thread_is_refused() {
    assert_eq!(with_main().submit_active_thread_op(), Ok(MAIN));
    assert_eq!(
        app().submit_active_thread_op(),
        Err(AppEffect::AddErrorMessage { message: "No active thread is available.".to_string() })
    );
}

#[test]
fn cleaned_terminals_leave_the_screen() {
    let mut app = with_main();
    assert_eq!(
        app.server_call_succeeded(MAIN, &AppCommand::CleanBackgroundTerminals),
        vec![no_terminals(Some(MAIN)), AppEffect::ClearShownTerminals]
    );
    assert_eq!(
        app.server_call_succeeded(AGENT, &AppCommand::CleanBackgroundTerminals),
        vec![no_terminals(Some(MAIN))]
    );
    assert!(app.server_call_succeeded(MAIN, &AppCommand::Compact).is_empty());
    assert_eq!(
        agent_threads::op_submission::skills_list_failed("failed to refresh skills", "why"),
        AppEffect::AddErrorMessage { message: "failed to refresh skills: why".to_string() }
    );
}

fn servers() -> Vec<McpServer> {
    vec![
        McpServer { name: "on".to_string(), enabled: true },
        McpServer { name: "off".to_string(), enabled: false },
        McpServer { name: "also".to_string(), enabled: true },
    ]
}

fn expected_servers() -> AppEffect {
    AppEffect::SetMcpStartupExpectedServers { names: vec!["on".to_string(), "also".to_string()] }
}

#[test]
fn server_events_are_told_apart() {
    let handle = agent_threads::server_events::handle_app_server_event;
    match handle(AppServerEvent::Lagged { skipped: 3 }, &servers()) {
        ServerEventStep::Done(effects) => {
            assert_eq!(effects, vec![expected_servers(), AppEffect::FinishMcpStartupAfterLag]);
        }
        other => panic!("unexpected step: {other:?}"),
    }
    match handle(AppServerEvent::Disconnected { message: "gone".to_string() }, &servers()) {
        ServerEventStep::Done(effects) => assert_eq!(
            effects,
            vec![
                AppEffect::AddErrorMessage { message: "gone".to_string() },
                AppEffect::FatalExitRequest { message: "gone".to_string() },
            ]
        ),
        other => panic!("unexpected step: {other:?}"),
    }
    assert!(matches!(
        handle(AppServerEvent::ServerNotification(ServerNotification::ThreadClosed), &servers()),
        ServerEventStep::Notification(ServerNotification::ThreadClosed)
    ));
    assert!(matches!(
        handle(AppServerEvent::ServerRequest(approval("c")), &servers()),
        ServerEventStep::Request(_)
    ));
}

#[test]
fn session_news_go_to_no_thread() {
    let mut app = with_main();
    let account = |auth_mode: Option<AuthMode>| ServerNotification::AccountUpdated {
        auth_mode,
        plan_type: Some("pro".to_string()),
    };
    for (auth_mode, is_chatgpt) in [
        (None, false),
        (Some(AuthMode::ApiKey), false),
        (Some(AuthMode::Chatgpt), true),
        (Some(AuthMode::ChatgptAuthTokens), true),
    ] {
        assert_eq!(
            app.handle_server_notification_event(
                account(auth_mode),
                NotificationTarget::Global,
                &servers()
            ),
            vec![AppEffect::UpdateAccountState {
                auth_mode,
                plan_type: Some("pro".to_string()),
                is_chatgpt,
            }]
        );
    }
    let notice = |kind: NoticeKind| ServerNotification::Notice { kind, payload: "p".to_string() };
    assert_eq!(
        app.handle_server_notification_event(
            notice(NoticeKind::AccountRateLimitsUpdated),
            NotificationTarget::Global,
            &servers()
        ),
        vec![AppEffect::UpdateRateLimits { payload: "p".to_string() }]
    );
    assert_eq!(
        app.handle_server_notification_event(
            notice(NoticeKind::ExternalAgentConfigImportCompleted),
            NotificationTarget::Global,
            &servers()
        ),
        vec![
            AppEffect::RefreshConfigAfterImport,
            AppEffect::RefreshPluginMentions,
            AppEffect::SubmitOp { op: AppCommand::ReloadUserConfig },
            AppEffect::FetchPluginsList,
        ]
    );
    assert_eq!(
        app.handle_server_notification_event(
            notice(NoticeKind::McpServerStatusUpdated),
            NotificationTarget::Global,
            &servers()
        ),
        vec![
            expected_servers(),
            AppEffect::HandleNotification {
                notification: notice(NoticeKind::McpServerStatusUpdated)
            },
        ]
    );
    let resolved = || ServerNotification::ServerRequestResolved { request_id: RequestId::Integer(7) };
    assert_eq!(
        app.handle_server_notification_event(
            resolved(),
            NotificationTarget::InvalidThreadId("?".to_string()),
            &servers()
        ),
        vec![AppEffect::DismissResolvedRequest { request_id: RequestId::Integer(7) }]
    );
}

#[test]
fn notifications_go_to_their_threads() {
    let mut app = app();
    let started = || ServerNotification::TurnStarted { turn: turn("t") };
    assert!(app
        .handle_server_notification_event(started(), NotificationTarget::Thread(AGENT), &servers())
        .is_empty());
    assert_eq!(app.pending_primary_events.len(), 1);
    let mut app = with_main();
    app.handle_server_notification_event(started(), NotificationTarget::Thread(AGENT), &servers());
    assert_eq!(app.active_turn_id_for_thread(AGENT), Some("t".to_string()));
    assert_eq!(app.active_turn_id_for_thread(MAIN), None);
    app.handle_server_notification_event(started(), NotificationTarget::Thread(MAIN), &servers());
    assert_eq!(app.active_turn_id_for_thread(MAIN), Some("t".to_string()));
}

#[test]
fn refused_requests_are_answered() {
    let mut app = with_main();
    let unsupported = || UnsupportedRequest {
        request_id: RequestId::Integer(9),
        message: "cannot".to_string(),
    };
    let refusal = vec![
        AppEffect::AddErrorMessage { message: "cannot".to_string() },
        AppEffect::RejectRequest {
            request_id: RequestId::Integer(9),
            message: "cannot".to_string(),
        },
    ];
    let (step, effects) =
        app.handle_server_request_event(&approval("c"), Some(unsupported()), Some(MAIN));
    assert_eq!(step, RequestStep::Rejected);
    assert_eq!(effects, refusal);
    assert_eq!(app.enqueue_noted_request(MAIN, approval("c"), Some(unsupported())), refusal);

    let (step, effects) = app.handle_server_request_event(&approval("c"), None, None);
    let message = "Threadless app-server requests are not available in TUI yet.".to_string();
    assert_eq!(step, RequestStep::Rejected);
    assert_eq!(
        effects,
        vec![
            AppEffect::AddErrorMessage { message: message.clone() },
            AppEffect::RejectRequest { request_id: RequestId::Integer(7), message },
        ]
    );

    let (step, effects) = app.handle_server_request_event(&approval("c"), None, Some(AGENT));
    assert_eq!(step, RequestStep::Note { thread_id: AGENT });
    assert!(effects.is_empty());
    app.agent_navigation.mark_closed(AGENT);
    let closed = AppEffect::RejectRequest {
        request_id: RequestId::Integer(7),
        message: "Thread 22222222-0000-0000-0000-000000000000 is closed.".to_string(),
    };
    assert_eq!(
        app.enqueue_noted_request(AGENT, approval("c"), None),
        vec![
            AppEffect::DiscardPendingRequest { request_id: RequestId::Integer(7) },
            closed.duplicate(),
        ]
    );
    let (step, effects) = app.handle_server_request_event(&approval("c"), None, Some(AGENT));
    assert_eq!(step, RequestStep::Rejected);
    assert_eq!(effects, vec![closed]);
}

#[test]
fn outbound_answers_are_noted_on_the_thread_on_screen() {
    let mut app = with_main();
    app.enqueue_thread_request(MAIN, approval("call"));
    let place = app.channel_place(MAIN);
    app.note_active_thread_outbound_op(&AppCommand::Compact);
    assert!(app.thread_event_channels[place].store.has_pending_thread_approvals());
    app.note_active_thread_outbound_op(&AppCommand::ExecApproval { id: "call".to_string() });
    assert!(!app.thread_event_channels[place].store.has_pending_thread_approvals());
}

#[test]
fn thread_comes_back_as_it_was_left() {
    let mut app = with_main();
    let mut input = ThreadInputState::background_tracking_only();
    input.composer = Some("a draft".to_string());
    input.track_background_terminal_start(
        &"call".to_string(),
        &Some("proc".to_string()),
        &"make".to_string(),
        None,
    );
    let terminals = input.terminals.duplicate();
    app.store_active_thread_receiver(Some(input));
    app.enqueue_thread_notification(MAIN, ServerNotification::TurnStarted { turn: turn("t") });
    let snapshot = app.activate_thread_for_replay(MAIN).expect("snapshot");
    let restored = snapshot.input_state.expect("input");
    assert_eq!(restored.composer, Some("a draft".to_string()));
    assert_eq!(restored.terminals, terminals);
    assert_eq!(snapshot.session, Some(session(MAIN)));
}

#[test]
fn agents_keep_their_places() {
    let mut app = with_main();
    app.agent_navigation.upsert(agent(AGENT, Some("Ada"), None));
    app.agent_navigation.upsert(agent(OTHER, None, None));
    app.agent_navigation.mark_closed(AGENT);
    app.agent_navigation.upsert(agent(MAIN, None, Some("lead")));
    let ids: Vec<ThreadId> =
        app.agent_navigation.entries.iter().map(|entry| entry.thread_id).collect();
    assert_eq!(ids, vec![MAIN, AGENT, OTHER]);
}
