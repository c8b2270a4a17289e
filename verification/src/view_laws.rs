//! What is read of each value: every part of it, under its own name.
use crate::active_thread::Failover;
use crate::agent_navigation::AgentEntry;
use crate::app_state::App;
use crate::effects::{
    AppEffect, AppEffectView, ApprovalRequest, ApprovalRequestView, ThreadInteractiveRequest,
    ThreadInteractiveRequestView,
};
use crate::input_state::{BackgroundTerminalActivitySummary, TrackedTerminal};
use crate::op_submission::{ServerCall, ServerCallView, SteerReply, SteerReplyView, TurnStart};
use crate::protocol::{
    AppCommand, AppCommandView, ElicitationRequest, ElicitationRequestView, FeedbackOutcome,
    FeedbackOutcomeView, FeedbackThreadEvent, FileUpdateChange, ServerNotification,
    ServerNotificationView, ServerRequest, ServerRequestView, StartedThread, ThreadItem,
    ThreadItemView, ThreadSessionState, Turn, UserInput, UserInputView, UserTurn,
};
use crate::replay::{AgentMetadata, RunningTerminal};
use crate::thread_events::ThreadEventStore;
use crate::thread_routing::NotificationOutcome;
use crate::user_shell::{
    CdLookup, CdLookupView, CommandCall, EnvVar, ExecOutput, ExecRequest, ShellEvent,
    ShellEventView, ShellSetup,
};
use vstd::prelude::*;

verus! {

/// Every [`Failover`] is read part by part as what it is.
pub proof fn law_failover_is_read_as_it_is(value: Failover)
    ensures
        value.deep_view().closed_thread_id == value.closed_thread_id,
        value.deep_view().primary_thread_id == value.primary_thread_id,
        value.deep_view().is_side == value.is_side,
        value.deep_view().wake_label == value.wake_label.deep_view(),
{
}

/// Every [`AgentEntry`] is read part by part as what it is.
pub proof fn law_agent_entry_is_read_as_it_is(value: AgentEntry)
    ensures
        value.deep_view().thread_id == value.thread_id,
        value.deep_view().agent_nickname == value.agent_nickname.deep_view(),
        value.deep_view().agent_role == value.agent_role.deep_view(),
        value.deep_view().is_closed == value.is_closed,
{
}

/// Every [`ApprovalRequest`], whatever its kind, is read part by part as what it is.
pub proof fn law_approval_request_is_read_as_it_is(whole: ApprovalRequest)
    ensures
        match whole {
            ApprovalRequest::Exec {
                thread_id,
                thread_label,
                id,
                command,
                reason,
                available_decisions,
                network_approval_context,
                additional_permissions,
            } => whole.deep_view() == (
            ApprovalRequestView::Exec {
                thread_id,
                thread_label: thread_label.deep_view(),
                id: id@,
                command: command.deep_view(),
                reason: reason.deep_view(),
                available_decisions: available_decisions.deep_view(),
                network_approval_context: network_approval_context.deep_view(),
                additional_permissions: additional_permissions.deep_view(),
            }),
            ApprovalRequest::ApplyPatch {
                thread_id,
                thread_label,
                id,
                reason,
                cwd,
                changes,
            } => whole.deep_view() == (
            ApprovalRequestView::ApplyPatch {
                thread_id,
                thread_label: thread_label.deep_view(),
                id: id@,
                reason: reason.deep_view(),
                cwd: cwd@,
                changes: changes.deep_view(),
            }),
            ApprovalRequest::McpElicitation {
                thread_id,
                thread_label,
                server_name,
                request_id,
                message,
            } => whole.deep_view() == (
            ApprovalRequestView::McpElicitation {
                thread_id,
                thread_label: thread_label.deep_view(),
                server_name: server_name@,
                request_id: request_id.deep_view(),
                message: message@,
            }),
            ApprovalRequest::Permissions {
                thread_id,
                thread_label,
                call_id,
                reason,
                permissions,
            } => whole.deep_view() == (
            ApprovalRequestView::Permissions {
                thread_id,
                thread_label: thread_label.deep_view(),
                call_id: call_id@,
                reason: reason.deep_view(),
                permissions: permissions@,
            }),
        },
{
}

/// Every [`ThreadInteractiveRequest`], whatever its kind, is read part by part as what it is.
pub proof fn law_thread_interactive_request_is_read_as_it_is(whole: ThreadInteractiveRequest)
    ensures
        match whole {
            ThreadInteractiveRequest::Approval(value) => whole.deep_view()
                == ThreadInteractiveRequestView::Approval(value.deep_view()),
            ThreadInteractiveRequest::AppLink(value) => whole.deep_view()
                == ThreadInteractiveRequestView::AppLink(value@),
            ThreadInteractiveRequest::McpServerElicitation(value) => whole.deep_view()
                == ThreadInteractiveRequestView::McpServerElicitation(value@),
        },
{
}

/// Every [`AppEffect`], whatever its kind, is read part by part as what it is.
pub proof fn law_app_effect_is_read_as_it_is(whole: AppEffect)
    ensures
        match whole {
            AppEffect::SendEvent { thread_id, event } => whole.deep_view() == (
            AppEffectView::SendEvent { thread_id, event: event.deep_view() }),
            AppEffect::EnqueueFeedback { thread_id, event } => whole.deep_view() == (
            AppEffectView::EnqueueFeedback { thread_id, event: event.deep_view() }),
            AppEffect::SubmitThreadOp { thread_id, op } => whole.deep_view() == (
            AppEffectView::SubmitThreadOp { thread_id, op: op.deep_view() }),
            AppEffect::SetSideParentStatus { thread_id, status } => whole.deep_view() == (
            AppEffectView::SetSideParentStatus { thread_id, status }),
            AppEffect::ClearSideParentActionStatus { thread_id } => whole.deep_view() == (
            AppEffectView::ClearSideParentActionStatus { thread_id }),
            AppEffect::ApplyNotificationStatus { thread_id, notification } => whole.deep_view() == (
            AppEffectView::ApplyNotificationStatus {
                thread_id,
                notification: notification.deep_view(),
            }),
            AppEffect::ApplyRequestStatus { thread_id, request } => whole.deep_view() == (
            AppEffectView::ApplyRequestStatus { thread_id, request: request.deep_view() }),
            AppEffect::SetBackgroundTerminals { current, terminals } => whole.deep_view() == (
            AppEffectView::SetBackgroundTerminals { current, terminals: terminals.deep_view() }),
            AppEffect::SetPendingThreadApprovals { labels } => whole.deep_view() == (
            AppEffectView::SetPendingThreadApprovals { labels: labels.deep_view() }),
            AppEffect::SubmitSubagentCompletionWakeup { thread_id, label } => whole.deep_view() == (
            AppEffectView::SubmitSubagentCompletionWakeup { thread_id, label: label@ }),
            AppEffect::PushInteractiveRequest { prompt } => whole.deep_view() == (
            AppEffectView::PushInteractiveRequest { prompt: prompt.deep_view() }),
            AppEffect::AddPatchPreview { cwd, changes } => whole.deep_view() == (
            AppEffectView::AddPatchPreview { cwd: cwd@, changes: changes.deep_view() }),
            AppEffect::DeclineElicitation {
                thread_id,
                server_name,
                request_id,
            } => whole.deep_view() == (
            AppEffectView::DeclineElicitation {
                thread_id,
                server_name: server_name@,
                request_id: request_id.deep_view(),
            }),
            AppEffect::AddErrorMessage { message } => whole.deep_view() == (
            AppEffectView::AddErrorMessage { message: message@ }),
            AppEffect::AddInfoMessage { message } => whole.deep_view() == (
            AppEffectView::AddInfoMessage { message: message@ }),
            AppEffect::AgentEntryChanged { thread_id } => whole.deep_view() == (
            AppEffectView::AgentEntryChanged { thread_id }),
            AppEffect::SetActiveAgentLabel { shown } => whole.deep_view() == (
            AppEffectView::SetActiveAgentLabel { shown: shown.deep_view() }),
            AppEffect::SetActiveSubagentCount { count } => whole.deep_view() == (
            AppEffectView::SetActiveSubagentCount { count }),
            AppEffect::SetSubagentSummaries { subagents } => whole.deep_view() == (
            AppEffectView::SetSubagentSummaries { subagents: subagents.deep_view() }),
            AppEffect::SyncSideThreadUi => whole.deep_view() == AppEffectView::SyncSideThreadUi,
            AppEffect::ShowSession { session, display } => whole.deep_view() == (
            AppEffectView::ShowSession { session: session.deep_view(), display }),
            AppEffect::ApplyRuntimeCwd { thread_id, cwd } => whole.deep_view() == (
            AppEffectView::ApplyRuntimeCwd { thread_id, cwd: cwd@ }),
            AppEffect::SetInitialUserMessageSuppressed { suppressed } => whole.deep_view() == (
            AppEffectView::SetInitialUserMessageSuppressed { suppressed }),
            AppEffect::SubmitInitialUserMessage => whole.deep_view()
                == AppEffectView::SubmitInitialUserMessage,
            AppEffect::BeginInitialHistoryReplayBuffer => whole.deep_view()
                == AppEffectView::BeginInitialHistoryReplayBuffer,
            AppEffect::BeginThreadSwitchHistoryReplayBuffer => whole.deep_view()
                == AppEffectView::BeginThreadSwitchHistoryReplayBuffer,
            AppEffect::EndInitialHistoryReplayBuffer => whole.deep_view()
                == AppEffectView::EndInitialHistoryReplayBuffer,
            AppEffect::ReplayTurns { turns, kind } => whole.deep_view() == (
            AppEffectView::ReplayTurns { turns: turns.deep_view(), kind }),
            AppEffect::ReplayEvent { event } => whole.deep_view() == (
            AppEffectView::ReplayEvent { event: event.deep_view() }),
            AppEffect::SetQueueAutosendSuppressed { suppressed } => whole.deep_view() == (
            AppEffectView::SetQueueAutosendSuppressed { suppressed }),
            AppEffect::RestoreInputState { input_state } => whole.deep_view() == (
            AppEffectView::RestoreInputState { input_state: input_state.deep_view() }),
            AppEffect::MarkReplayedTerminalsLive => whole.deep_view()
                == AppEffectView::MarkReplayedTerminalsLive,
            AppEffect::SendNextQueuedInput => whole.deep_view()
                == AppEffectView::SendNextQueuedInput,
            AppEffect::RefreshStatusLine => whole.deep_view() == AppEffectView::RefreshStatusLine,
            AppEffect::HandleNotification { notification } => whole.deep_view() == (
            AppEffectView::HandleNotification { notification: notification.deep_view() }),
            AppEffect::HandleRequest { request } => whole.deep_view() == (
            AppEffectView::HandleRequest { request: request.deep_view() }),
            AppEffect::HandleHistoryEntry { event } => whole.deep_view() == (
            AppEffectView::HandleHistoryEntry { event: event.deep_view() }),
            AppEffect::HandleFeedback { event } => whole.deep_view() == (
            AppEffectView::HandleFeedback { event: event.deep_view() }),
            AppEffect::RemoveShownTerminal { process_id } => whole.deep_view() == (
            AppEffectView::RemoveShownTerminal { process_id: process_id@ }),
            AppEffect::ClearShownTerminals => whole.deep_view()
                == AppEffectView::ClearShownTerminals,
            AppEffect::HandleRollbackSucceeded { num_turns } => whole.deep_view() == (
            AppEffectView::HandleRollbackSucceeded { num_turns }),
            AppEffect::SetMcpStartupExpectedServers { names } => whole.deep_view() == (
            AppEffectView::SetMcpStartupExpectedServers { names: names.deep_view() }),
            AppEffect::FinishMcpStartupAfterLag => whole.deep_view()
                == AppEffectView::FinishMcpStartupAfterLag,
            AppEffect::FatalExitRequest { message } => whole.deep_view() == (
            AppEffectView::FatalExitRequest { message: message@ }),
            AppEffect::DismissResolvedRequest { request_id } => whole.deep_view() == (
            AppEffectView::DismissResolvedRequest { request_id: request_id.deep_view() }),
            AppEffect::UpdateRateLimits { payload } => whole.deep_view() == (
            AppEffectView::UpdateRateLimits { payload: payload@ }),
            AppEffect::UpdateAccountState {
                auth_mode,
                plan_type,
                is_chatgpt,
            } => whole.deep_view() == (
            AppEffectView::UpdateAccountState {
                auth_mode,
                plan_type: plan_type.deep_view(),
                is_chatgpt,
            }),
            AppEffect::RefreshConfigAfterImport => whole.deep_view()
                == AppEffectView::RefreshConfigAfterImport,
            AppEffect::RefreshPluginMentions => whole.deep_view()
                == AppEffectView::RefreshPluginMentions,
            AppEffect::SubmitOp { op } => whole.deep_view() == (
            AppEffectView::SubmitOp { op: op.deep_view() }),
            AppEffect::FetchPluginsList => whole.deep_view() == AppEffectView::FetchPluginsList,
            AppEffect::RejectRequest { request_id, message } => whole.deep_view() == (
            AppEffectView::RejectRequest { request_id: request_id.deep_view(), message: message@ }),
            AppEffect::DiscardPendingRequest { request_id } => whole.deep_view() == (
            AppEffectView::DiscardPendingRequest { request_id: request_id.deep_view() }),
        },
{
}

/// Every [`TrackedTerminal`] is read part by part as what it is.
pub proof fn law_tracked_terminal_is_read_as_it_is(value: TrackedTerminal)
    ensures
        value.deep_view().call_id == value.call_id@,
        value.deep_view().process_id == value.process_id.deep_view(),
        value.deep_view().command == value.command@,
        value.deep_view().turn_id == value.turn_id.deep_view(),
        value.deep_view().turn_completed == value.turn_completed,
        value.deep_view().output == value.output@,
{
}

/// Every [`BackgroundTerminalActivitySummary`] is read part by part as what it is.
pub proof fn law_terminal_summary_is_read_as_it_is(value: BackgroundTerminalActivitySummary)
    ensures
        value.deep_view().thread_id == value.thread_id,
        value.deep_view().process_id == value.process_id@,
        value.deep_view().command_display == value.command_display@,
{
}

/// Every [`TurnStart`] is read part by part as what it is.
pub proof fn law_turn_start_is_read_as_it_is(value: TurnStart)
    ensures
        value.deep_view().thread_id == value.thread_id,
        value.deep_view().items == value.items.deep_view(),
        value.deep_view().cwd == value.cwd@,
        value.deep_view().approval_policy == value.approval_policy,
        value.deep_view().approvals_reviewer == value.approvals_reviewer,
        value.deep_view().permission_profile == value.permission_profile@,
        value.deep_view().active_permission_profile == value.active_permission_profile.deep_view(),
        value.deep_view().model == value.model@,
        value.deep_view().effort == value.effort.deep_view(),
        value.deep_view().summary == value.summary.deep_view(),
        value.deep_view().service_tier == value.service_tier.deep_view(),
        value.deep_view().collaboration_mode == value.collaboration_mode.deep_view(),
        value.deep_view().personality == value.personality.deep_view(),
        value.deep_view().final_output_json_schema == value.final_output_json_schema.deep_view(),
{
}

/// Every [`ServerCall`], whatever its kind, is read part by part as what it is.
pub proof fn law_server_call_is_read_as_it_is(whole: ServerCall)
    ensures
        match whole {
            ServerCall::TurnInterrupt { thread_id, turn_id } => whole.deep_view() == (
            ServerCallView::TurnInterrupt { thread_id, turn_id: turn_id@ }),
            ServerCall::StartupInterrupt { thread_id } => whole.deep_view() == (
            ServerCallView::StartupInterrupt { thread_id }),
            ServerCall::TurnSteer { thread_id, turn_id, items } => whole.deep_view() == (
            ServerCallView::TurnSteer { thread_id, turn_id: turn_id@, items: items.deep_view() }),
            ServerCall::TurnStart(value) => whole.deep_view()
                == ServerCallView::TurnStart(value.deep_view()),
            ServerCall::SkillsList { cwds, force_reload } => whole.deep_view() == (
            ServerCallView::SkillsList { cwds: cwds.deep_view(), force_reload }),
            ServerCall::ThreadCompactStart { thread_id } => whole.deep_view() == (
            ServerCallView::ThreadCompactStart { thread_id }),
            ServerCall::ThreadSetName { thread_id, name } => whole.deep_view() == (
            ServerCallView::ThreadSetName { thread_id, name: name@ }),
            ServerCall::ThreadRollback { thread_id, num_turns } => whole.deep_view() == (
            ServerCallView::ThreadRollback { thread_id, num_turns }),
            ServerCall::ReviewStart { thread_id, target } => whole.deep_view() == (
            ServerCallView::ReviewStart { thread_id, target: target@ }),
            ServerCall::BackgroundTerminalsClean { thread_id } => whole.deep_view() == (
            ServerCallView::BackgroundTerminalsClean { thread_id }),
            ServerCall::BackgroundTerminalTerminate {
                thread_id,
                process_id,
            } => whole.deep_view() == (
            ServerCallView::BackgroundTerminalTerminate { thread_id, process_id: process_id@ }),
            ServerCall::RealtimeStart { thread_id, transport, voice } => whole.deep_view() == (
            ServerCallView::RealtimeStart {
                thread_id,
                transport: transport.deep_view(),
                voice: voice.deep_view(),
            }),
            ServerCall::RealtimeAudio { thread_id, frame } => whole.deep_view() == (
            ServerCallView::RealtimeAudio { thread_id, frame: frame@ }),
            ServerCall::RealtimeStop { thread_id } => whole.deep_view() == (
            ServerCallView::RealtimeStop { thread_id }),
            ServerCall::ShellCommand { thread_id, command } => whole.deep_view() == (
            ServerCallView::ShellCommand { thread_id, command: command@ }),
            ServerCall::ReloadUserConfig => whole.deep_view() == ServerCallView::ReloadUserConfig,
            ServerCall::RuntimeCwdUpdate { thread_id, cwd } => whole.deep_view() == (
            ServerCallView::RuntimeCwdUpdate { thread_id, cwd: cwd@ }),
            ServerCall::ApproveGuardianDeniedAction { thread_id, event } => whole.deep_view() == (
            ServerCallView::ApproveGuardianDeniedAction { thread_id, event: event@ }),
        },
{
}

/// Every [`SteerReply`], whatever its kind, is read part by part as what it is.
pub proof fn law_steer_reply_is_read_as_it_is(whole: SteerReply)
    ensures
        match whole {
            SteerReply::Accepted => whole.deep_view() == SteerReplyView::Accepted,
            SteerReply::NotSteerable { message } => whole.deep_view() == (
            SteerReplyView::NotSteerable { message: message@ }),
            SteerReply::Missing => whole.deep_view() == SteerReplyView::Missing,
            SteerReply::ExpectedTurnMismatch { actual_turn_id } => whole.deep_view() == (
            SteerReplyView::ExpectedTurnMismatch { actual_turn_id: actual_turn_id@ }),
            SteerReply::Failed => whole.deep_view() == SteerReplyView::Failed,
        },
{
}

/// Every [`FileUpdateChange`] is read part by part as what it is.
pub proof fn law_file_update_change_is_read_as_it_is(value: FileUpdateChange)
    ensures
        value.deep_view().path == value.path@,
        value.deep_view().kind == value.kind.deep_view(),
        value.deep_view().diff == value.diff@,
{
}

/// Every [`ThreadItem`], whatever its kind, is read part by part as what it is.
pub proof fn law_thread_item_is_read_as_it_is(whole: ThreadItem)
    ensures
        match whole {
            ThreadItem::CommandExecution {
                id,
                command,
                process_id,
                source,
                status,
                aggregated_output,
                exit_code,
                payload,
            } => whole.deep_view() == (
            ThreadItemView::CommandExecution {
                id: id@,
                command: command@,
                process_id: process_id.deep_view(),
                source,
                status,
                aggregated_output: aggregated_output.deep_view(),
                exit_code,
                payload: payload@,
            }),
            ThreadItem::FileChange { id, changes, payload } => whole.deep_view() == (
            ThreadItemView::FileChange {
                id: id@,
                changes: changes.deep_view(),
                payload: payload@,
            }),
            ThreadItem::CollabAgentToolCall {
                id,
                receiver_thread_ids,
                payload,
            } => whole.deep_view() == (
            ThreadItemView::CollabAgentToolCall {
                id: id@,
                receiver_thread_ids: receiver_thread_ids.deep_view(),
                payload: payload@,
            }),
            ThreadItem::Other { id, payload } => whole.deep_view() == (
            ThreadItemView::Other { id: id@, payload: payload@ }),
        },
{
}

/// Every [`Turn`] is read part by part as what it is.
pub proof fn law_turn_is_read_as_it_is(value: Turn)
    ensures
        value.deep_view().id == value.id@,
        value.deep_view().status == value.status,
        value.deep_view().items == value.items.deep_view(),
        value.deep_view().payload == value.payload@,
{
}

/// Every [`StartedThread`] is read part by part as what it is.
pub proof fn law_started_thread_is_read_as_it_is(value: StartedThread)
    ensures
        value.deep_view().name == value.name.deep_view(),
        value.deep_view().model_provider == value.model_provider@,
        value.deep_view().cwd == value.cwd@,
        value.deep_view().path == value.path.deep_view(),
        value.deep_view().agent_nickname == value.agent_nickname.deep_view(),
        value.deep_view().agent_role == value.agent_role.deep_view(),
        value.deep_view().recorded_model == value.recorded_model.deep_view(),
        value.deep_view().payload == value.payload@,
{
}

/// Every [`ServerNotification`], whatever its kind, is read part by part as what it is.
pub proof fn law_server_notification_is_read_as_it_is(whole: ServerNotification)
    ensures
        match whole {
            ServerNotification::TurnStarted { turn } => whole.deep_view() == (
            ServerNotificationView::TurnStarted { turn: turn.deep_view() }),
            ServerNotification::TurnCompleted { turn } => whole.deep_view() == (
            ServerNotificationView::TurnCompleted { turn: turn.deep_view() }),
            ServerNotification::ThreadStarted { thread } => whole.deep_view() == (
            ServerNotificationView::ThreadStarted { thread: thread.deep_view() }),
            ServerNotification::ThreadClosed => whole.deep_view()
                == ServerNotificationView::ThreadClosed,
            ServerNotification::ItemStarted { turn_id, item } => whole.deep_view() == (
            ServerNotificationView::ItemStarted { turn_id: turn_id@, item: item.deep_view() }),
            ServerNotification::ItemCompleted { turn_id, item } => whole.deep_view() == (
            ServerNotificationView::ItemCompleted { turn_id: turn_id@, item: item.deep_view() }),
            ServerNotification::CommandExecutionOutputDelta {
                turn_id,
                item_id,
                delta,
            } => whole.deep_view() == (
            ServerNotificationView::CommandExecutionOutputDelta {
                turn_id: turn_id@,
                item_id: item_id@,
                delta: delta@,
            }),
            ServerNotification::ServerRequestResolved { request_id } => whole.deep_view() == (
            ServerNotificationView::ServerRequestResolved { request_id: request_id.deep_view() }),
            ServerNotification::AccountUpdated { auth_mode, plan_type } => whole.deep_view() == (
            ServerNotificationView::AccountUpdated { auth_mode, plan_type: plan_type.deep_view() }),
            ServerNotification::Notice { kind, payload } => whole.deep_view() == (
            ServerNotificationView::Notice { kind, payload: payload@ }),
        },
{
}

/// Every [`ElicitationRequest`], whatever its kind, is read part by part as what it is.
pub proof fn law_elicitation_request_is_read_as_it_is(whole: ElicitationRequest)
    ensures
        match whole {
            ElicitationRequest::Form { message } => whole.deep_view() == (
            ElicitationRequestView::Form { message: message@ }),
            ElicitationRequest::Url { url } => whole.deep_view() == (
            ElicitationRequestView::Url { url: url@ }),
        },
{
}

/// Every [`ServerRequest`], whatever its kind, is read part by part as what it is.
pub proof fn law_server_request_is_read_as_it_is(whole: ServerRequest)
    ensures
        match whole {
            ServerRequest::CommandExecutionRequestApproval {
                request_id,
                turn_id,
                item_id,
                approval_id,
                reason,
                command,
                network_approval_context,
                additional_permissions,
                available_decisions,
                default_decisions,
                payload,
            } => whole.deep_view() == (
            ServerRequestView::CommandExecutionRequestApproval {
                request_id: request_id.deep_view(),
                turn_id: turn_id@,
                item_id: item_id@,
                approval_id: approval_id.deep_view(),
                reason: reason.deep_view(),
                command: command.deep_view(),
                network_approval_context: network_approval_context.deep_view(),
                additional_permissions: additional_permissions.deep_view(),
                available_decisions: available_decisions.deep_view(),
                default_decisions: default_decisions.deep_view(),
                payload: payload@,
            }),
            ServerRequest::FileChangeRequestApproval {
                request_id,
                turn_id,
                item_id,
                reason,
                payload,
            } => whole.deep_view() == (
            ServerRequestView::FileChangeRequestApproval {
                request_id: request_id.deep_view(),
                turn_id: turn_id@,
                item_id: item_id@,
                reason: reason.deep_view(),
                payload: payload@,
            }),
            ServerRequest::PermissionsRequestApproval {
                request_id,
                turn_id,
                item_id,
                reason,
                permissions,
                payload,
            } => whole.deep_view() == (
            ServerRequestView::PermissionsRequestApproval {
                request_id: request_id.deep_view(),
                turn_id: turn_id@,
                item_id: item_id@,
                reason: reason.deep_view(),
                permissions: permissions@,
                payload: payload@,
            }),
            ServerRequest::McpServerElicitationRequest {
                request_id,
                server_name,
                request,
                app_link,
                form,
            } => whole.deep_view() == (
            ServerRequestView::McpServerElicitationRequest {
                request_id: request_id.deep_view(),
                server_name: server_name@,
                request: request.deep_view(),
                app_link: app_link.deep_view(),
                form: form.deep_view(),
            }),
            ServerRequest::ToolRequestUserInput {
                request_id,
                turn_id,
                item_id,
                payload,
            } => whole.deep_view() == (
            ServerRequestView::ToolRequestUserInput {
                request_id: request_id.deep_view(),
                turn_id: turn_id@,
                item_id: item_id@,
                payload: payload@,
            }),
            ServerRequest::Other { request_id, method, payload } => whole.deep_view() == (
            ServerRequestView::Other {
                request_id: request_id.deep_view(),
                method: method@,
                payload: payload@,
            }),
        },
{
}

/// Every [`FeedbackOutcome`], whatever its kind, is read part by part as what it is.
pub proof fn law_feedback_outcome_is_read_as_it_is(whole: FeedbackOutcome)
    ensures
        match whole {
            FeedbackOutcome::Sent(value) => whole.deep_view() == FeedbackOutcomeView::Sent(value@),
            FeedbackOutcome::Failed(value) => whole.deep_view()
                == FeedbackOutcomeView::Failed(value@),
        },
{
}

/// Every [`FeedbackThreadEvent`] is read part by part as what it is.
pub proof fn law_feedback_thread_event_is_read_as_it_is(value: FeedbackThreadEvent)
    ensures
        value.deep_view().category == value.category@,
        value.deep_view().include_logs == value.include_logs,
        value.deep_view().audience == value.audience@,
        value.deep_view().outcome == value.outcome.deep_view(),
{
}

/// Every [`ThreadSessionState`] is read part by part as what it is.
pub proof fn law_thread_session_state_is_read_as_it_is(value: ThreadSessionState)
    ensures
        value.deep_view().thread_id == value.thread_id,
        value.deep_view().forked_from_id == value.forked_from_id,
        value.deep_view().fork_parent_title == value.fork_parent_title.deep_view(),
        value.deep_view().thread_name == value.thread_name.deep_view(),
        value.deep_view().model == value.model@,
        value.deep_view().model_provider_id == value.model_provider_id@,
        value.deep_view().service_tier == value.service_tier.deep_view(),
        value.deep_view().approval_policy == value.approval_policy,
        value.deep_view().approvals_reviewer == value.approvals_reviewer,
        value.deep_view().permission_profile == value.permission_profile@,
        value.deep_view().active_permission_profile == value.active_permission_profile.deep_view(),
        value.deep_view().cwd == value.cwd@,
        value.deep_view().discovery_cwd == value.discovery_cwd.deep_view(),
        value.deep_view().instruction_source_paths == value.instruction_source_paths.deep_view(),
        value.deep_view().reasoning_effort == value.reasoning_effort.deep_view(),
        value.deep_view().message_history == value.message_history.deep_view(),
        value.deep_view().network_proxy == value.network_proxy.deep_view(),
        value.deep_view().rollout_path == value.rollout_path.deep_view(),
{
}

/// Every [`UserInput`], whatever its kind, is read part by part as what it is.
pub proof fn law_user_input_is_read_as_it_is(whole: UserInput)
    ensures
        match whole {
            UserInput::Text { text } => whole.deep_view() == (
            UserInputView::Text { text: text@ }),
            UserInput::Other { payload } => whole.deep_view() == (
            UserInputView::Other { payload: payload@ }),
        },
{
}

/// Every [`UserTurn`] is read part by part as what it is.
pub proof fn law_user_turn_is_read_as_it_is(value: UserTurn)
    ensures
        value.deep_view().items == value.items.deep_view(),
        value.deep_view().cwd == value.cwd@,
        value.deep_view().approval_policy == value.approval_policy,
        value.deep_view().approvals_reviewer == value.approvals_reviewer,
        value.deep_view().permission_profile == value.permission_profile@,
        value.deep_view().model == value.model@,
        value.deep_view().effort == value.effort.deep_view(),
        value.deep_view().summary == value.summary.deep_view(),
        value.deep_view().service_tier == value.service_tier.deep_view(),
        value.deep_view().final_output_json_schema == value.final_output_json_schema.deep_view(),
        value.deep_view().collaboration_mode == value.collaboration_mode.deep_view(),
        value.deep_view().personality == value.personality.deep_view(),
{
}

/// Every [`AppCommand`], whatever its kind, is read part by part as what it is.
pub proof fn law_app_command_is_read_as_it_is(whole: AppCommand)
    ensures
        match whole {
            AppCommand::Interrupt => whole.deep_view() == AppCommandView::Interrupt,
            AppCommand::UserTurn(value) => whole.deep_view()
                == AppCommandView::UserTurn(value.deep_view()),
            AppCommand::ListSkills { cwds, force_reload } => whole.deep_view() == (
            AppCommandView::ListSkills { cwds: cwds.deep_view(), force_reload }),
            AppCommand::Compact => whole.deep_view() == AppCommandView::Compact,
            AppCommand::SetThreadName { name } => whole.deep_view() == (
            AppCommandView::SetThreadName { name: name@ }),
            AppCommand::ThreadRollback { num_turns } => whole.deep_view() == (
            AppCommandView::ThreadRollback { num_turns }),
            AppCommand::Review { target } => whole.deep_view() == (
            AppCommandView::Review { target: target@ }),
            AppCommand::CleanBackgroundTerminals => whole.deep_view()
                == AppCommandView::CleanBackgroundTerminals,
            AppCommand::TerminateBackgroundTerminal { process_id } => whole.deep_view() == (
            AppCommandView::TerminateBackgroundTerminal { process_id: process_id@ }),
            AppCommand::RealtimeConversationStart { transport, voice } => whole.deep_view() == (
            AppCommandView::RealtimeConversationStart {
                transport: transport.deep_view(),
                voice: voice.deep_view(),
            }),
            AppCommand::RealtimeConversationAudio { frame } => whole.deep_view() == (
            AppCommandView::RealtimeConversationAudio { frame: frame@ }),
            AppCommand::RealtimeConversationClose => whole.deep_view()
                == AppCommandView::RealtimeConversationClose,
            AppCommand::RunUserShellCommand { command } => whole.deep_view() == (
            AppCommandView::RunUserShellCommand { command: command@ }),
            AppCommand::ReloadUserConfig => whole.deep_view() == AppCommandView::ReloadUserConfig,
            AppCommand::OverrideTurnContext { cwd } => whole.deep_view() == (
            AppCommandView::OverrideTurnContext { cwd: cwd.deep_view() }),
            AppCommand::ApproveGuardianDeniedAction { event } => whole.deep_view() == (
            AppCommandView::ApproveGuardianDeniedAction { event: event@ }),
            AppCommand::ExecApproval { id } => whole.deep_view() == (
            AppCommandView::ExecApproval { id: id@ }),
            AppCommand::PatchApproval { id } => whole.deep_view() == (
            AppCommandView::PatchApproval { id: id@ }),
            AppCommand::ResolveElicitation { server_name, request_id } => whole.deep_view() == (
            AppCommandView::ResolveElicitation {
                server_name: server_name@,
                request_id: request_id.deep_view(),
            }),
            AppCommand::RequestPermissionsResponse { id } => whole.deep_view() == (
            AppCommandView::RequestPermissionsResponse { id: id@ }),
            AppCommand::UserInputAnswer { id } => whole.deep_view() == (
            AppCommandView::UserInputAnswer { id: id@ }),
            AppCommand::Shutdown => whole.deep_view() == AppCommandView::Shutdown,
            AppCommand::Other { payload } => whole.deep_view() == (
            AppCommandView::Other { payload: payload@ }),
        },
{
}

/// Every [`RunningTerminal`] is read part by part as what it is.
pub proof fn law_running_terminal_is_read_as_it_is(value: RunningTerminal)
    ensures
        value.deep_view().command_display == value.command_display.deep_view(),
        value.deep_view().call_id == value.call_id.deep_view(),
{
}

/// Every [`AgentMetadata`] is read part by part as what it is.
pub proof fn law_agent_metadata_is_read_as_it_is(value: AgentMetadata)
    ensures
        value.deep_view().agent_nickname == value.agent_nickname.deep_view(),
        value.deep_view().agent_role == value.agent_role.deep_view(),
        value.deep_view().not_loaded == value.not_loaded,
{
}

/// Every [`NotificationOutcome`] is read part by part as what it is.
pub proof fn law_notification_outcome_is_read_as_it_is(value: NotificationOutcome)
    ensures
        value.deep_view().should_send == value.should_send,
        value.deep_view().pending_status == value.pending_status,
        value.deep_view().wakeup_op == value.wakeup_op.deep_view(),
        value.deep_view().drop_notification == value.drop_notification,
{
}

/// Every [`ExecOutput`] is read part by part as what it is.
pub proof fn law_exec_output_is_read_as_it_is(value: ExecOutput)
    ensures
        value.deep_view().exit_code == value.exit_code,
        value.deep_view().stdout == value.stdout@,
        value.deep_view().stderr == value.stderr@,
        value.deep_view().aggregated_output == value.aggregated_output@,
        value.deep_view().duration_nanos == value.duration_nanos,
        value.deep_view().timed_out == value.timed_out,
{
}

/// Every [`CommandCall`] is read part by part as what it is.
pub proof fn law_command_call_is_read_as_it_is(value: CommandCall)
    ensures
        value.deep_view().call_id == value.call_id@,
        value.deep_view().turn_id == value.turn_id@,
        value.deep_view().command == value.command.deep_view(),
        value.deep_view().parsed_command == value.parsed_command.deep_view(),
        value.deep_view().source == value.source,
{
}

/// Every [`ShellEvent`], whatever its kind, is read part by part as what it is.
pub proof fn law_shell_event_is_read_as_it_is(whole: ShellEvent)
    ensures
        match whole {
            ShellEvent::TurnStarted { turn_id } => whole.deep_view() == (
            ShellEventView::TurnStarted { turn_id: turn_id@ }),
            ShellEvent::ExecCommandBegin { call, cwd } => whole.deep_view() == (
            ShellEventView::ExecCommandBegin { call: call.deep_view(), cwd: cwd@ }),
            ShellEvent::ExecCommandEnd {
                call,
                cwd,
                output,
                formatted_output,
                status,
            } => whole.deep_view() == (
            ShellEventView::ExecCommandEnd {
                call: call.deep_view(),
                cwd: cwd@,
                output: output.deep_view(),
                formatted_output: formatted_output@,
                status,
            }),
        },
{
}

/// Every [`EnvVar`] is read part by part as what it is.
pub proof fn law_env_var_is_read_as_it_is(value: EnvVar)
    ensures
        value.deep_view().name == value.name@,
        value.deep_view().value == value.value@,
{
}

/// Every [`ExecRequest`] is read part by part as what it is.
pub proof fn law_exec_request_is_read_as_it_is(value: ExecRequest)
    ensures
        value.deep_view().command == value.command.deep_view(),
        value.deep_view().cwd == value.cwd@,
        value.deep_view().env == value.env.deep_view(),
        value.deep_view().expiration_ms == value.expiration_ms,
        value.deep_view().capture_policy == value.capture_policy,
        value.deep_view().permission_profile == value.permission_profile.deep_view(),
        value.deep_view().sandboxed == value.sandboxed,
        value.deep_view().managed_network == value.managed_network,
{
}

/// Every [`CdLookup`], whatever its kind, is read part by part as what it is.
pub proof fn law_cd_lookup_is_read_as_it_is(whole: CdLookup)
    ensures
        match whole {
            CdLookup::Failed { message } => whole.deep_view() == (
            CdLookupView::Failed { message: message@ }),
            CdLookup::NotAbsolute { error } => whole.deep_view() == (
            CdLookupView::NotAbsolute { error: error@ }),
            CdLookup::Found { path } => whole.deep_view() == (
            CdLookupView::Found { path: path@ }),
        },
{
}

/// Every [`ShellSetup`] is read part by part as what it is.
pub proof fn law_shell_setup_is_read_as_it_is(value: ShellSetup)
    ensures
        value.deep_view().turn_id == value.turn_id@,
        value.deep_view().shell_type == value.shell_type,
        value.deep_view().display_command == value.display_command.deep_view(),
        value.deep_view().parsed_command == value.parsed_command.deep_view(),
        value.deep_view().env == value.env.deep_view(),
{
}

/// An [`App`] is read part by part as what it is.
pub proof fn law_app_is_read_as_it_is(value: App)
    ensures
        value@.channel_capacity == value.channel_capacity,
        value@.config_cwd == value.config_cwd@,
        value@.primary_thread_id == value.primary_thread_id,
        value@.primary_session == value.primary_session_configured.deep_view(),
        value@.active_thread_id == value.active_thread_id,
        value@.has_active_receiver == value.has_active_receiver,
        value@.widget_thread_id == value.widget_thread_id,
        value@.channels == value.thread_event_channels.deep_view(),
        value@.agents == value.agent_navigation@,
        value@.side_threads == value.side_threads@,
        value@.discarded == value.discarded_side_thread_ids@,
        value@.asked == value.agent_metadata_asked@,
        value@.pending_primary_events == value.pending_primary_events.deep_view(),
        value@.pending_subagent_wakeups == value.pending_subagent_completion_wakeups.deep_view(),
        value@.pending_shutdown_exit_thread_id == value.pending_shutdown_exit_thread_id,
{
}

/// A [`ThreadEventStore`] is read part by part as what it is.
pub proof fn law_store_is_read_as_it_is(value: ThreadEventStore)
    ensures
        value@.session == value.session.deep_view(),
        value@.turns == value.turns.deep_view(),
        value@.buffer == value.buffer.deep_view(),
        value@.pending == value.pending_interactive_replay@,
        value@.active_turn_id == value.active_turn_id.deep_view(),
        value@.input_state == value.input_state.deep_view(),
        value@.capacity == value.capacity,
        value@.active == value.active,
        value@.closed == value.closed,
        value@.wakeups == value.pending_offscreen_wakeup_prompts.deep_view(),
        value@.wakeup_in_flight == value.offscreen_wakeup_in_flight,
        value@.stopped == value.stopped_background_processes@,
{
}

} // verus!
