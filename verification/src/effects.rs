//! What a decision about threads asks of the surroundings: of the screen, of the server and of
//! the channels that carry events.
use crate::collections::Duplicate;
use crate::input_state::{
    BackgroundTerminalActivitySummary, BackgroundTerminalActivitySummaryView, ThreadInputState,
    ThreadInputStateView,
};
use crate::protocol::{
    AppCommand, AppCommandView, AuthMode, FileUpdateChange, FileUpdateChangeView, RequestId,
    RequestIdView, ServerNotification, ServerNotificationView, ServerRequest, ServerRequestView,
    ThreadBufferedEvent, ThreadBufferedEventView, ThreadSessionState, ThreadSessionStateView, Turn,
    TurnView,
};
use crate::thread_events::SideParentStatus;
use crate::thread_id::ThreadId;
use vstd::prelude::*;

verus! {

/// Why turns or events are shown again.
#[derive(Debug, Clone, Copy, PartialEq, Eq, Structural)]
pub enum ReplayKind {
    /// A session is resumed.
    ResumeInitialMessages,
    /// The user comes back to a thread.
    ThreadSnapshot,
}

/// How a session is announced.
#[derive(Debug, Clone, Copy, PartialEq, Eq, Structural)]
pub enum SessionDisplay {
    Normal,
    /// Without notices.
    Quiet,
    /// As a side conversation.
    Side,
}

/// A subagent that has ended and that the main agent was not told of.
#[derive(Debug, PartialEq, Eq)]
pub struct PendingSubagentCompletionWakeup {
    pub thread_id: ThreadId,
    pub label: String,
}

/// What a [`PendingSubagentCompletionWakeup`] means.
#[verifier::ext_equal]
pub ghost struct PendingSubagentCompletionWakeupView {
    pub thread_id: ThreadId,
    pub label: Seq<char>,
}

impl DeepView for PendingSubagentCompletionWakeup {
    type V = PendingSubagentCompletionWakeupView;

    open spec fn deep_view(&self) -> PendingSubagentCompletionWakeupView {
        PendingSubagentCompletionWakeupView {
            thread_id: self.thread_id,
            label: self.label@,
        }
    }
}

impl Duplicate for PendingSubagentCompletionWakeup {
    fn duplicate(&self) -> PendingSubagentCompletionWakeup {
        PendingSubagentCompletionWakeup {
            thread_id: self.thread_id,
            label: self.label.clone(),
        }
    }
}

/// What a list of subagents shows of one of them.
#[derive(Debug, PartialEq, Eq)]
pub struct SubagentActivitySummary {
    pub thread_id: ThreadId,
    pub label: String,
    pub is_closed: bool,
}

/// What a [`SubagentActivitySummary`] means.
#[verifier::ext_equal]
pub ghost struct SubagentActivitySummaryView {
    pub thread_id: ThreadId,
    pub label: Seq<char>,
    pub is_closed: bool,
}

impl DeepView for SubagentActivitySummary {
    type V = SubagentActivitySummaryView;

    open spec fn deep_view(&self) -> SubagentActivitySummaryView {
        SubagentActivitySummaryView {
            thread_id: self.thread_id,
            label: self.label@,
            is_closed: self.is_closed,
        }
    }
}

impl Duplicate for SubagentActivitySummary {
    fn duplicate(&self) -> SubagentActivitySummary {
        SubagentActivitySummary {
            thread_id: self.thread_id,
            label: self.label.clone(),
            is_closed: self.is_closed,
        }
    }
}

/// Something that the user is asked to allow.
#[derive(Debug, PartialEq, Eq)]
pub enum ApprovalRequest {
    Exec {
        thread_id: ThreadId,
        thread_label: Option<String>,
        id: String,
        command: Vec<String>,
        reason: Option<String>,
        available_decisions: Vec<String>,
        network_approval_context: Option<String>,
        additional_permissions: Option<String>,
    },
    ApplyPatch {
        thread_id: ThreadId,
        thread_label: Option<String>,
        id: String,
        reason: Option<String>,
        cwd: String,
        changes: Vec<FileUpdateChange>,
    },
    McpElicitation {
        thread_id: ThreadId,
        thread_label: Option<String>,
        server_name: String,
        request_id: RequestId,
        message: String,
    },
    Permissions {
        thread_id: ThreadId,
        thread_label: Option<String>,
        call_id: String,
        reason: Option<String>,
        permissions: String,
    },
}

/// What a [`ApprovalRequest`] means.
#[verifier::ext_equal]
pub ghost enum ApprovalRequestView {
    Exec {
        thread_id: ThreadId,
        thread_label: Option<Seq<char>>,
        id: Seq<char>,
        command: Seq<Seq<char>>,
        reason: Option<Seq<char>>,
        available_decisions: Seq<Seq<char>>,
        network_approval_context: Option<Seq<char>>,
        additional_permissions: Option<Seq<char>>,
    },
    ApplyPatch {
        thread_id: ThreadId,
        thread_label: Option<Seq<char>>,
        id: Seq<char>,
        reason: Option<Seq<char>>,
        cwd: Seq<char>,
        changes: Seq<FileUpdateChangeView>,
    },
    McpElicitation {
        thread_id: ThreadId,
        thread_label: Option<Seq<char>>,
        server_name: Seq<char>,
        request_id: RequestIdView,
        message: Seq<char>,
    },
    Permissions {
        thread_id: ThreadId,
        thread_label: Option<Seq<char>>,
        call_id: Seq<char>,
        reason: Option<Seq<char>>,
        permissions: Seq<char>,
    },
}

impl DeepView for ApprovalRequest {
    type V = ApprovalRequestView;

    open spec fn deep_view(&self) -> ApprovalRequestView {
        match self {
            ApprovalRequest::Exec { thread_id, thread_label, id, command, reason, available_decisions, network_approval_context, additional_permissions } => ApprovalRequestView::Exec {
                thread_id: *thread_id,
                thread_label: thread_label.deep_view(),
                id: id@,
                command: command.deep_view(),
                reason: reason.deep_view(),
                available_decisions: available_decisions.deep_view(),
                network_approval_context: network_approval_context.deep_view(),
                additional_permissions: additional_permissions.deep_view(),
            },
            ApprovalRequest::ApplyPatch { thread_id, thread_label, id, reason, cwd, changes } => ApprovalRequestView::ApplyPatch {
                thread_id: *thread_id,
                thread_label: thread_label.deep_view(),
                id: id@,
                reason: reason.deep_view(),
                cwd: cwd@,
                changes: changes.deep_view(),
            },
            ApprovalRequest::McpElicitation { thread_id, thread_label, server_name, request_id, message } => ApprovalRequestView::McpElicitation {
                thread_id: *thread_id,
                thread_label: thread_label.deep_view(),
                server_name: server_name@,
                request_id: request_id.deep_view(),
                message: message@,
            },
            ApprovalRequest::Permissions { thread_id, thread_label, call_id, reason, permissions } => ApprovalRequestView::Permissions {
                thread_id: *thread_id,
                thread_label: thread_label.deep_view(),
                call_id: call_id@,
                reason: reason.deep_view(),
                permissions: permissions@,
            },
        }
    }
}

impl Duplicate for ApprovalRequest {
    fn duplicate(&self) -> ApprovalRequest {
        match self {
            ApprovalRequest::Exec { thread_id, thread_label, id, command, reason, available_decisions, network_approval_context, additional_permissions } => ApprovalRequest::Exec {
                thread_id: *thread_id,
                thread_label: thread_label.duplicate(),
                id: id.clone(),
                command: command.duplicate(),
                reason: reason.duplicate(),
                available_decisions: available_decisions.duplicate(),
                network_approval_context: network_approval_context.duplicate(),
                additional_permissions: additional_permissions.duplicate(),
            },
            ApprovalRequest::ApplyPatch { thread_id, thread_label, id, reason, cwd, changes } => ApprovalRequest::ApplyPatch {
                thread_id: *thread_id,
                thread_label: thread_label.duplicate(),
                id: id.clone(),
                reason: reason.duplicate(),
                cwd: cwd.clone(),
                changes: changes.duplicate(),
            },
            ApprovalRequest::McpElicitation { thread_id, thread_label, server_name, request_id, message } => ApprovalRequest::McpElicitation {
                thread_id: *thread_id,
                thread_label: thread_label.duplicate(),
                server_name: server_name.clone(),
                request_id: request_id.duplicate(),
                message: message.clone(),
            },
            ApprovalRequest::Permissions { thread_id, thread_label, call_id, reason, permissions } => ApprovalRequest::Permissions {
                thread_id: *thread_id,
                thread_label: thread_label.duplicate(),
                call_id: call_id.clone(),
                reason: reason.duplicate(),
                permissions: permissions.clone(),
            },
        }
    }
}

/// A question to the user, as it is shown.
#[derive(Debug, PartialEq, Eq)]
pub enum ThreadInteractiveRequest {
    Approval(ApprovalRequest),
    AppLink(String),
    McpServerElicitation(String),
}

/// What a [`ThreadInteractiveRequest`] means.
#[verifier::ext_equal]
pub ghost enum ThreadInteractiveRequestView {
    Approval(ApprovalRequestView),
    AppLink(Seq<char>),
    McpServerElicitation(Seq<char>),
}

impl DeepView for ThreadInteractiveRequest {
    type V = ThreadInteractiveRequestView;

    open spec fn deep_view(&self) -> ThreadInteractiveRequestView {
        match self {
            ThreadInteractiveRequest::Approval(value) => ThreadInteractiveRequestView::Approval(value.deep_view()),
            ThreadInteractiveRequest::AppLink(value) => ThreadInteractiveRequestView::AppLink(value@),
            ThreadInteractiveRequest::McpServerElicitation(value) => ThreadInteractiveRequestView::McpServerElicitation(value@),
        }
    }
}

impl Duplicate for ThreadInteractiveRequest {
    fn duplicate(&self) -> ThreadInteractiveRequest {
        match self {
            ThreadInteractiveRequest::Approval(value) => ThreadInteractiveRequest::Approval(value.duplicate()),
            ThreadInteractiveRequest::AppLink(value) => ThreadInteractiveRequest::AppLink(value.clone()),
            ThreadInteractiveRequest::McpServerElicitation(value) => ThreadInteractiveRequest::McpServerElicitation(value.clone()),
        }
    }
}

/// What becomes of a request of a thread that is not on screen.
#[derive(Debug, PartialEq, Eq)]
pub enum RequestPresentation {
    /// It is shown.
    Show(ThreadInteractiveRequest),
    /// It cannot be shown, and is declined for the user.
    DeclineElicitation {
        thread_id: ThreadId,
        server_name: String,
        request_id: RequestId,
    },
    /// It waits until its thread is on screen.
    Nothing,
}

/// What a [`RequestPresentation`] means.
#[verifier::ext_equal]
pub ghost enum RequestPresentationView {
    Show(ThreadInteractiveRequestView),
    DeclineElicitation {
        thread_id: ThreadId,
        server_name: Seq<char>,
        request_id: RequestIdView,
    },
    Nothing,
}

impl DeepView for RequestPresentation {
    type V = RequestPresentationView;

    open spec fn deep_view(&self) -> RequestPresentationView {
        match self {
            RequestPresentation::Show(value) => RequestPresentationView::Show(value.deep_view()),
            RequestPresentation::DeclineElicitation { thread_id, server_name, request_id } => RequestPresentationView::DeclineElicitation {
                thread_id: *thread_id,
                server_name: server_name@,
                request_id: request_id.deep_view(),
            },
            RequestPresentation::Nothing => RequestPresentationView::Nothing,
        }
    }
}

impl Duplicate for RequestPresentation {
    fn duplicate(&self) -> RequestPresentation {
        match self {
            RequestPresentation::Show(value) => RequestPresentation::Show(value.duplicate()),
            RequestPresentation::DeclineElicitation { thread_id, server_name, request_id } => RequestPresentation::DeclineElicitation {
                thread_id: *thread_id,
                server_name: server_name.clone(),
                request_id: request_id.duplicate(),
            },
            RequestPresentation::Nothing => RequestPresentation::Nothing,
        }
    }
}

/// A step that the surroundings carry out.
#[derive(Debug, PartialEq, Eq)]
pub enum AppEffect {
    /// Send an event through the thread's channel.
    SendEvent {
        thread_id: ThreadId,
        event: ThreadBufferedEvent,
    },
    /// Hand the outcome of feedback to the thread.
    EnqueueFeedback {
        thread_id: ThreadId,
        event: ThreadBufferedEvent,
    },
    /// Submit a command on a thread.
    SubmitThreadOp {
        thread_id: ThreadId,
        op: AppCommand,
    },
    /// Show what the parent of a side conversation waits for.
    SetSideParentStatus {
        thread_id: ThreadId,
        status: SideParentStatus,
    },
    /// Show that the parent of a side conversation waits for nothing.
    ClearSideParentActionStatus {
        thread_id: ThreadId,
    },
    /// Show what a notification tells of the parent of a side conversation, where it tells anything.
    ApplyNotificationStatus {
        thread_id: ThreadId,
        notification: ServerNotification,
    },
    /// Show what a request tells of the parent of a side conversation, where it tells anything.
    ApplyRequestStatus {
        thread_id: ThreadId,
        request: ServerRequest,
    },
    /// List the running terminals: those of the thread on screen, then these.
    SetBackgroundTerminals {
        current: Option<ThreadId>,
        terminals: Vec<BackgroundTerminalActivitySummary>,
    },
    /// List the threads that wait for the user.
    SetPendingThreadApprovals {
        labels: Vec<String>,
    },
    /// Tell the agent on screen that a subagent has ended.
    SubmitSubagentCompletionWakeup {
        thread_id: ThreadId,
        label: String,
    },
    /// Ask the user.
    PushInteractiveRequest {
        prompt: ThreadInteractiveRequest,
    },
    /// Show the changes of a patch.
    AddPatchPreview {
        cwd: String,
        changes: Vec<FileUpdateChange>,
    },
    /// Decline a request of a tool server.
    DeclineElicitation {
        thread_id: ThreadId,
        server_name: String,
        request_id: RequestId,
    },
    AddErrorMessage {
        message: String,
    },
    AddInfoMessage {
        message: String,
    },
    /// Show anew what is known of an agent.
    AgentEntryChanged {
        thread_id: ThreadId,
    },
    /// Name the thread on screen.
    SetActiveAgentLabel {
        shown: Option<String>,
    },
    SetActiveSubagentCount {
        count: usize,
    },
    /// List the subagents.
    SetSubagentSummaries {
        subagents: Vec<SubagentActivitySummary>,
    },
    /// Show anew where side conversations stand.
    SyncSideThreadUi,
    /// Announce a session.
    ShowSession {
        session: ThreadSessionState,
        display: SessionDisplay,
    },
    /// Move the session to a directory.
    ApplyRuntimeCwd {
        thread_id: ThreadId,
        cwd: String,
    },
    /// Hold back, or no longer hold back, the first message.
    SetInitialUserMessageSuppressed {
        suppressed: bool,
    },
    /// Submit the first message, where one waits.
    SubmitInitialUserMessage,
    BeginInitialHistoryReplayBuffer,
    BeginThreadSwitchHistoryReplayBuffer,
    EndInitialHistoryReplayBuffer,
    /// Show turns again.
    ReplayTurns {
        turns: Vec<Turn>,
        kind: ReplayKind,
    },
    /// Show an event again.
    ReplayEvent {
        event: ThreadBufferedEvent,
    },
    /// Hold back, or no longer hold back, queued input.
    SetQueueAutosendSuppressed {
        suppressed: bool,
    },
    /// Put back what was kept of the input.
    RestoreInputState {
        input_state: Option<ThreadInputState>,
    },
    /// Count the terminals that were shown again as running.
    MarkReplayedTerminalsLive,
    SendNextQueuedInput,
    RefreshStatusLine,
    /// Show a notification.
    HandleNotification {
        notification: ServerNotification,
    },
    /// Show a request.
    HandleRequest {
        request: ServerRequest,
    },
    /// Show an entry of the message history.
    HandleHistoryEntry {
        event: ThreadBufferedEvent,
    },
    /// Show the outcome of feedback.
    HandleFeedback {
        event: ThreadBufferedEvent,
    },
    /// Take a terminal off the screen.
    RemoveShownTerminal {
        process_id: String,
    },
    /// Take all terminals off the screen.
    ClearShownTerminals,
    HandleRollbackSucceeded {
        num_turns: u32,
    },
    /// Name the tool servers whose start is waited for.
    SetMcpStartupExpectedServers {
        names: Vec<String>,
    },
    /// Stop waiting for tool servers, because events were lost.
    FinishMcpStartupAfterLag,
    /// Leave.
    FatalExitRequest {
        message: String,
    },
    /// Forget a request that was resolved, and take it off the screen.
    DismissResolvedRequest {
        request_id: RequestId,
    },
    /// Show how much of the limits is used up.
    UpdateRateLimits {
        payload: String,
    },
    /// Show how the user is signed in.
    UpdateAccountState {
        auth_mode: Option<AuthMode>,
        plan_type: Option<String>,
        is_chatgpt: bool,
    },
    /// Read the settings again.
    RefreshConfigAfterImport,
    RefreshPluginMentions,
    /// Submit a command on the thread on screen.
    SubmitOp {
        op: AppCommand,
    },
    FetchPluginsList,
    /// Tell the server that a request is not answered.
    RejectRequest {
        request_id: RequestId,
        message: String,
    },
    /// Forget a request.
    DiscardPendingRequest {
        request_id: RequestId,
    },
}

/// What a [`AppEffect`] means.
#[verifier::ext_equal]
pub ghost enum AppEffectView {
    SendEvent {
        thread_id: ThreadId,
        event: ThreadBufferedEventView,
    },
    EnqueueFeedback {
        thread_id: ThreadId,
        event: ThreadBufferedEventView,
    },
    SubmitThreadOp {
        thread_id: ThreadId,
        op: AppCommandView,
    },
    SetSideParentStatus {
        thread_id: ThreadId,
        status: SideParentStatus,
    },
    ClearSideParentActionStatus {
        thread_id: ThreadId,
    },
    ApplyNotificationStatus {
        thread_id: ThreadId,
        notification: ServerNotificationView,
    },
    ApplyRequestStatus {
        thread_id: ThreadId,
        request: ServerRequestView,
    },
    SetBackgroundTerminals {
        current: Option<ThreadId>,
        terminals: Seq<BackgroundTerminalActivitySummaryView>,
    },
    SetPendingThreadApprovals {
        labels: Seq<Seq<char>>,
    },
    SubmitSubagentCompletionWakeup {
        thread_id: ThreadId,
        label: Seq<char>,
    },
    PushInteractiveRequest {
        prompt: ThreadInteractiveRequestView,
    },
    AddPatchPreview {
        cwd: Seq<char>,
        changes: Seq<FileUpdateChangeView>,
    },
    DeclineElicitation {
        thread_id: ThreadId,
        server_name: Seq<char>,
        request_id: RequestIdView,
    },
    AddErrorMessage {
        message: Seq<char>,
    },
    AddInfoMessage {
        message: Seq<char>,
    },
    AgentEntryChanged {
        thread_id: ThreadId,
    },
    SetActiveAgentLabel {
        shown: Option<Seq<char>>,
    },
    SetActiveSubagentCount {
        count: usize,
    },
    SetSubagentSummaries {
        subagents: Seq<SubagentActivitySummaryView>,
    },
    SyncSideThreadUi,
    ShowSession {
        session: ThreadSessionStateView,
        display: SessionDisplay,
    },
    ApplyRuntimeCwd {
        thread_id: ThreadId,
        cwd: Seq<char>,
    },
    SetInitialUserMessageSuppressed {
        suppressed: bool,
    },
    SubmitInitialUserMessage,
    BeginInitialHistoryReplayBuffer,
    BeginThreadSwitchHistoryReplayBuffer,
    EndInitialHistoryReplayBuffer,
    ReplayTurns {
        turns: Seq<TurnView>,
        kind: ReplayKind,
    },
    ReplayEvent {
        event: ThreadBufferedEventView,
    },
    SetQueueAutosendSuppressed {
        suppressed: bool,
    },
    RestoreInputState {
        input_state: Option<ThreadInputStateView>,
    },
    MarkReplayedTerminalsLive,
    SendNextQueuedInput,
    RefreshStatusLine,
    HandleNotification {
        notification: ServerNotificationView,
    },
    HandleRequest {
        request: ServerRequestView,
    },
    HandleHistoryEntry {
        event: ThreadBufferedEventView,
    },
    HandleFeedback {
        event: ThreadBufferedEventView,
    },
    RemoveShownTerminal {
        process_id: Seq<char>,
    },
    ClearShownTerminals,
    HandleRollbackSucceeded {
        num_turns: u32,
    },
    SetMcpStartupExpectedServers {
        names: Seq<Seq<char>>,
    },
    FinishMcpStartupAfterLag,
    FatalExitRequest {
        message: Seq<char>,
    },
    DismissResolvedRequest {
        request_id: RequestIdView,
    },
    UpdateRateLimits {
        payload: Seq<char>,
    },
    UpdateAccountState {
        auth_mode: Option<AuthMode>,
        plan_type: Option<Seq<char>>,
        is_chatgpt: bool,
    },
    RefreshConfigAfterImport,
    RefreshPluginMentions,
    SubmitOp {
        op: AppCommandView,
    },
    FetchPluginsList,
    RejectRequest {
        request_id: RequestIdView,
        message: Seq<char>,
    },
    DiscardPendingRequest {
        request_id: RequestIdView,
    },
}

impl DeepView for AppEffect {
    type V = AppEffectView;

    open spec fn deep_view(&self) -> AppEffectView {
        match self {
            AppEffect::SendEvent { thread_id, event } => AppEffectView::SendEvent {
                thread_id: *thread_id,
                event: event.deep_view(),
            },
            AppEffect::EnqueueFeedback { thread_id, event } => AppEffectView::EnqueueFeedback {
                thread_id: *thread_id,
                event: event.deep_view(),
            },
            AppEffect::SubmitThreadOp { thread_id, op } => AppEffectView::SubmitThreadOp {
                thread_id: *thread_id,
                op: op.deep_view(),
            },
            AppEffect::SetSideParentStatus { thread_id, status } => AppEffectView::SetSideParentStatus {
                thread_id: *thread_id,
                status: *status,
            },
            AppEffect::ClearSideParentActionStatus { thread_id } => AppEffectView::ClearSideParentActionStatus {
                thread_id: *thread_id,
            },
            AppEffect::ApplyNotificationStatus { thread_id, notification } => AppEffectView::ApplyNotificationStatus {
                thread_id: *thread_id,
                notification: notification.deep_view(),
            },
            AppEffect::ApplyRequestStatus { thread_id, request } => AppEffectView::ApplyRequestStatus {
                thread_id: *thread_id,
                request: request.deep_view(),
            },
            AppEffect::SetBackgroundTerminals { current, terminals } => AppEffectView::SetBackgroundTerminals {
                current: *current,
                terminals: terminals.deep_view(),
            },
            AppEffect::SetPendingThreadApprovals { labels } => AppEffectView::SetPendingThreadApprovals {
                labels: labels.deep_view(),
            },
            AppEffect::SubmitSubagentCompletionWakeup { thread_id, label } => AppEffectView::SubmitSubagentCompletionWakeup {
                thread_id: *thread_id,
                label: label@,
            },
            AppEffect::PushInteractiveRequest { prompt } => AppEffectView::PushInteractiveRequest {
                prompt: prompt.deep_view(),
            },
            AppEffect::AddPatchPreview { cwd, changes } => AppEffectView::AddPatchPreview {
                cwd: cwd@,
                changes: changes.deep_view(),
            },
            AppEffect::DeclineElicitation { thread_id, server_name, request_id } => AppEffectView::DeclineElicitation {
                thread_id: *thread_id,
                server_name: server_name@,
                request_id: request_id.deep_view(),
            },
            AppEffect::AddErrorMessage { message } => AppEffectView::AddErrorMessage {
                message: message@,
            },
            AppEffect::AddInfoMessage { message } => AppEffectView::AddInfoMessage {
                message: message@,
            },
            AppEffect::AgentEntryChanged { thread_id } => AppEffectView::AgentEntryChanged {
                thread_id: *thread_id,
            },
            AppEffect::SetActiveAgentLabel { shown } => AppEffectView::SetActiveAgentLabel {
                shown: shown.deep_view(),
            },
            AppEffect::SetActiveSubagentCount { count } => AppEffectView::SetActiveSubagentCount {
                count: *count,
            },
            AppEffect::SetSubagentSummaries { subagents } => AppEffectView::SetSubagentSummaries {
                subagents: subagents.deep_view(),
            },
            AppEffect::SyncSideThreadUi => AppEffectView::SyncSideThreadUi,
            AppEffect::ShowSession { session, display } => AppEffectView::ShowSession {
                session: session.deep_view(),
                display: *display,
            },
            AppEffect::ApplyRuntimeCwd { thread_id, cwd } => AppEffectView::ApplyRuntimeCwd {
                thread_id: *thread_id,
                cwd: cwd@,
            },
            AppEffect::SetInitialUserMessageSuppressed { suppressed } => AppEffectView::SetInitialUserMessageSuppressed {
                suppressed: *suppressed,
            },
            AppEffect::SubmitInitialUserMessage => AppEffectView::SubmitInitialUserMessage,
            AppEffect::BeginInitialHistoryReplayBuffer => AppEffectView::BeginInitialHistoryReplayBuffer,
            AppEffect::BeginThreadSwitchHistoryReplayBuffer => AppEffectView::BeginThreadSwitchHistoryReplayBuffer,
            AppEffect::EndInitialHistoryReplayBuffer => AppEffectView::EndInitialHistoryReplayBuffer,
            AppEffect::ReplayTurns { turns, kind } => AppEffectView::ReplayTurns {
                turns: turns.deep_view(),
                kind: *kind,
            },
            AppEffect::ReplayEvent { event } => AppEffectView::ReplayEvent {
                event: event.deep_view(),
            },
            AppEffect::SetQueueAutosendSuppressed { suppressed } => AppEffectView::SetQueueAutosendSuppressed {
                suppressed: *suppressed,
            },
            AppEffect::RestoreInputState { input_state } => AppEffectView::RestoreInputState {
                input_state: input_state.deep_view(),
            },
            AppEffect::MarkReplayedTerminalsLive => AppEffectView::MarkReplayedTerminalsLive,
            AppEffect::SendNextQueuedInput => AppEffectView::SendNextQueuedInput,
            AppEffect::RefreshStatusLine => AppEffectView::RefreshStatusLine,
            AppEffect::HandleNotification { notification } => AppEffectView::HandleNotification {
                notification: notification.deep_view(),
            },
            AppEffect::HandleRequest { request } => AppEffectView::HandleRequest {
                request: request.deep_view(),
            },
            AppEffect::HandleHistoryEntry { event } => AppEffectView::HandleHistoryEntry {
                event: event.deep_view(),
            },
            AppEffect::HandleFeedback { event } => AppEffectView::HandleFeedback {
                event: event.deep_view(),
            },
            AppEffect::RemoveShownTerminal { process_id } => AppEffectView::RemoveShownTerminal {
                process_id: process_id@,
            },
            AppEffect::ClearShownTerminals => AppEffectView::ClearShownTerminals,
            AppEffect::HandleRollbackSucceeded { num_turns } => AppEffectView::HandleRollbackSucceeded {
                num_turns: *num_turns,
            },
            AppEffect::SetMcpStartupExpectedServers { names } => AppEffectView::SetMcpStartupExpectedServers {
                names: names.deep_view(),
            },
            AppEffect::FinishMcpStartupAfterLag => AppEffectView::FinishMcpStartupAfterLag,
            AppEffect::FatalExitRequest { message } => AppEffectView::FatalExitRequest {
                message: message@,
            },
            AppEffect::DismissResolvedRequest { request_id } => AppEffectView::DismissResolvedRequest {
                request_id: request_id.deep_view(),
            },
            AppEffect::UpdateRateLimits { payload } => AppEffectView::UpdateRateLimits {
                payload: payload@,
            },
            AppEffect::UpdateAccountState { auth_mode, plan_type, is_chatgpt } => AppEffectView::UpdateAccountState {
                auth_mode: *auth_mode,
                plan_type: plan_type.deep_view(),
                is_chatgpt: *is_chatgpt,
            },
            AppEffect::RefreshConfigAfterImport => AppEffectView::RefreshConfigAfterImport,
            AppEffect::RefreshPluginMentions => AppEffectView::RefreshPluginMentions,
            AppEffect::SubmitOp { op } => AppEffectView::SubmitOp {
                op: op.deep_view(),
            },
            AppEffect::FetchPluginsList => AppEffectView::FetchPluginsList,
            AppEffect::RejectRequest { request_id, message } => AppEffectView::RejectRequest {
                request_id: request_id.deep_view(),
                message: message@,
            },
            AppEffect::DiscardPendingRequest { request_id } => AppEffectView::DiscardPendingRequest {
                request_id: request_id.deep_view(),
            },
        }
    }
}

impl Duplicate for AppEffect {
    fn duplicate(&self) -> AppEffect {
        match self {
            AppEffect::SendEvent { thread_id, event } => AppEffect::SendEvent {
                thread_id: *thread_id,
                event: event.duplicate(),
            },
            AppEffect::EnqueueFeedback { thread_id, event } => AppEffect::EnqueueFeedback {
                thread_id: *thread_id,
                event: event.duplicate(),
            },
            AppEffect::SubmitThreadOp { thread_id, op } => AppEffect::SubmitThreadOp {
                thread_id: *thread_id,
                op: op.duplicate(),
            },
            AppEffect::SetSideParentStatus { thread_id, status } => AppEffect::SetSideParentStatus {
                thread_id: *thread_id,
                status: *status,
            },
            AppEffect::ClearSideParentActionStatus { thread_id } => AppEffect::ClearSideParentActionStatus {
                thread_id: *thread_id,
            },
            AppEffect::ApplyNotificationStatus { thread_id, notification } => AppEffect::ApplyNotificationStatus {
                thread_id: *thread_id,
                notification: notification.duplicate(),
            },
            AppEffect::ApplyRequestStatus { thread_id, request } => AppEffect::ApplyRequestStatus {
                thread_id: *thread_id,
                request: request.duplicate(),
            },
            AppEffect::SetBackgroundTerminals { current, terminals } => AppEffect::SetBackgroundTerminals {
                current: *current,
                terminals: terminals.duplicate(),
            },
            AppEffect::SetPendingThreadApprovals { labels } => AppEffect::SetPendingThreadApprovals {
                labels: labels.duplicate(),
            },
            AppEffect::SubmitSubagentCompletionWakeup { thread_id, label } => AppEffect::SubmitSubagentCompletionWakeup {
                thread_id: *thread_id,
                label: label.clone(),
            },
            AppEffect::PushInteractiveRequest { prompt } => AppEffect::PushInteractiveRequest {
                prompt: prompt.duplicate(),
            },
            AppEffect::AddPatchPreview { cwd, changes } => AppEffect::AddPatchPreview {
                cwd: cwd.clone(),
                changes: changes.duplicate(),
            },
            AppEffect::DeclineElicitation { thread_id, server_name, request_id } => AppEffect::DeclineElicitation {
                thread_id: *thread_id,
                server_name: server_name.clone(),
                request_id: request_id.duplicate(),
            },
            AppEffect::AddErrorMessage { message } => AppEffect::AddErrorMessage {
                message: message.clone(),
            },
            AppEffect::AddInfoMessage { message } => AppEffect::AddInfoMessage {
                message: message.clone(),
            },
            AppEffect::AgentEntryChanged { thread_id } => AppEffect::AgentEntryChanged {
                thread_id: *thread_id,
            },
            AppEffect::SetActiveAgentLabel { shown } => AppEffect::SetActiveAgentLabel {
                shown: shown.duplicate(),
            },
            AppEffect::SetActiveSubagentCount { count } => AppEffect::SetActiveSubagentCount {
                count: *count,
            },
            AppEffect::SetSubagentSummaries { subagents } => AppEffect::SetSubagentSummaries {
                subagents: subagents.duplicate(),
            },
            AppEffect::SyncSideThreadUi => AppEffect::SyncSideThreadUi,
            AppEffect::ShowSession { session, display } => AppEffect::ShowSession {
                session: session.duplicate(),
                display: *display,
            },
            AppEffect::ApplyRuntimeCwd { thread_id, cwd } => AppEffect::ApplyRuntimeCwd {
                thread_id: *thread_id,
                cwd: cwd.clone(),
            },
            AppEffect::SetInitialUserMessageSuppressed { suppressed } => AppEffect::SetInitialUserMessageSuppressed {
                suppressed: *suppressed,
            },
            AppEffect::SubmitInitialUserMessage => AppEffect::SubmitInitialUserMessage,
            AppEffect::BeginInitialHistoryReplayBuffer => AppEffect::BeginInitialHistoryReplayBuffer,
            AppEffect::BeginThreadSwitchHistoryReplayBuffer => AppEffect::BeginThreadSwitchHistoryReplayBuffer,
            AppEffect::EndInitialHistoryReplayBuffer => AppEffect::EndInitialHistoryReplayBuffer,
            AppEffect::ReplayTurns { turns, kind } => AppEffect::ReplayTurns {
                turns: turns.duplicate(),
                kind: *kind,
            },
            AppEffect::ReplayEvent { event } => AppEffect::ReplayEvent {
                event: event.duplicate(),
            },
            AppEffect::SetQueueAutosendSuppressed { suppressed } => AppEffect::SetQueueAutosendSuppressed {
                suppressed: *suppressed,
            },
            AppEffect::RestoreInputState { input_state } => AppEffect::RestoreInputState {
                input_state: input_state.duplicate(),
            },
            AppEffect::MarkReplayedTerminalsLive => AppEffect::MarkReplayedTerminalsLive,
            AppEffect::SendNextQueuedInput => AppEffect::SendNextQueuedInput,
            AppEffect::RefreshStatusLine => AppEffect::RefreshStatusLine,
            AppEffect::HandleNotification { notification } => AppEffect::HandleNotification {
                notification: notification.duplicate(),
            },
            AppEffect::HandleRequest { request } => AppEffect::HandleRequest {
                request: request.duplicate(),
            },
            AppEffect::HandleHistoryEntry { event } => AppEffect::HandleHistoryEntry {
                event: event.duplicate(),
            },
            AppEffect::HandleFeedback { event } => AppEffect::HandleFeedback {
                event: event.duplicate(),
            },
            AppEffect::RemoveShownTerminal { process_id } => AppEffect::RemoveShownTerminal {
                process_id: process_id.clone(),
            },
            AppEffect::ClearShownTerminals => AppEffect::ClearShownTerminals,
            AppEffect::HandleRollbackSucceeded { num_turns } => AppEffect::HandleRollbackSucceeded {
                num_turns: *num_turns,
            },
            AppEffect::SetMcpStartupExpectedServers { names } => AppEffect::SetMcpStartupExpectedServers {
                names: names.duplicate(),
            },
            AppEffect::FinishMcpStartupAfterLag => AppEffect::FinishMcpStartupAfterLag,
            AppEffect::FatalExitRequest { message } => AppEffect::FatalExitRequest {
                message: message.clone(),
            },
            AppEffect::DismissResolvedRequest { request_id } => AppEffect::DismissResolvedRequest {
                request_id: request_id.duplicate(),
            },
            AppEffect::UpdateRateLimits { payload } => AppEffect::UpdateRateLimits {
                payload: payload.clone(),
            },
            AppEffect::UpdateAccountState { auth_mode, plan_type, is_chatgpt } => AppEffect::UpdateAccountState {
                auth_mode: *auth_mode,
                plan_type: plan_type.duplicate(),
                is_chatgpt: *is_chatgpt,
            },
            AppEffect::RefreshConfigAfterImport => AppEffect::RefreshConfigAfterImport,
            AppEffect::RefreshPluginMentions => AppEffect::RefreshPluginMentions,
            AppEffect::SubmitOp { op } => AppEffect::SubmitOp {
                op: op.duplicate(),
            },
            AppEffect::FetchPluginsList => AppEffect::FetchPluginsList,
            AppEffect::RejectRequest { request_id, message } => AppEffect::RejectRequest {
                request_id: request_id.duplicate(),
                message: message.clone(),
            },
            AppEffect::DiscardPendingRequest { request_id } => AppEffect::DiscardPendingRequest {
                request_id: request_id.duplicate(),
            },
        }
    }
}

/// The list of no effects.
pub fn no_effects() -> (effects: Vec<AppEffect>)
    ensures
        effects.deep_view() == Seq::<AppEffectView>::empty(),
{
    let effects: Vec<AppEffect> = Vec::new();
    assert(effects.deep_view() =~= Seq::<AppEffectView>::empty());
    effects
}

/// Adds one effect.
pub fn push_effect(effects: &mut Vec<AppEffect>, effect: AppEffect)
    ensures
        final(effects).deep_view() == old(effects).deep_view().push(effect.deep_view()),
{
    let ghost before = effects.deep_view();
    effects.push(effect);
    assert(effects.deep_view() =~= before.push(effect.deep_view()));
}

/// Adds effects.
pub fn push_effects(effects: &mut Vec<AppEffect>, more: Vec<AppEffect>)
    ensures
        final(effects).deep_view() == old(effects).deep_view() + more.deep_view(),
{
    let ghost all = more.deep_view();
    let ghost first = effects.deep_view();
    let mut i: usize = 0;
    assert(first + all.take(0) =~= first);
    while i < more.len()
        invariant
            i <= more@.len(),
            all == more.deep_view(),
            effects.deep_view() == first + all.take(i as int),
        decreases more@.len() - i,
    {
        push_effect(effects, more[i].duplicate());
        assert(first + all.take(i + 1) =~= (first + all.take(i as int)).push(all[i as int]));
        i = i + 1;
    }
    assert(all.take(i as int) =~= all);
}

} // verus!
