//! The messages that an agent server and its client exchange about threads.
//!
//! Each type holds the parts of a message that decisions depend on. What is only carried from
//! the server to the screen is kept as text.
use crate::collections::Duplicate;
use crate::thread_id::ThreadId;
use vstd::prelude::*;

verus! {

/// How far a turn has come.
#[derive(Debug, Clone, Copy, PartialEq, Eq, Structural)]
pub enum TurnStatus {
    Completed,
    Interrupted,
    Failed,
    InProgress,
}

/// How far a command has come.
#[derive(Debug, Clone, Copy, PartialEq, Eq, Structural)]
pub enum CommandExecutionStatus {
    InProgress,
    Completed,
    Failed,
    Declined,
}

/// Who runs a command. The two `UnifiedExec` sources are terminals that can outlive their turn.
#[derive(Debug, Clone, Copy, PartialEq, Eq, Structural)]
pub enum CommandExecutionSource {
    Agent,
    UserShell,
    UnifiedExecStartup,
    UnifiedExecInteraction,
}

/// When the agent asks before it acts.
#[derive(Debug, Clone, Copy, PartialEq, Eq, Structural)]
pub enum AskForApproval {
    UnlessTrusted,
    OnFailure,
    OnRequest,
    Never,
}

/// Who answers when the agent asks.
#[derive(Debug, Clone, Copy, PartialEq, Eq, Structural)]
pub enum ApprovalsReviewer {
    User,
    AutoReview,
}

/// How the user is signed in.
#[derive(Debug, Clone, Copy, PartialEq, Eq, Structural)]
pub enum AuthMode {
    ApiKey,
    Chatgpt,
    ChatgptAuthTokens,
}

/// The kinds of notification of which nothing but the kind is read.
#[derive(Debug, Clone, Copy, PartialEq, Eq, Structural)]
pub enum NoticeKind {
    HookStarted,
    HookCompleted,
    ThreadNameUpdated,
    ThreadTokenUsageUpdated,
    ThreadGoalUpdated,
    ThreadGoalCleared,
    ThreadArchived,
    ThreadUnarchived,
    McpServerStatusUpdated,
    AccountRateLimitsUpdated,
    ExternalAgentConfigImportCompleted,
    Warning,
    Other,
}

/// What a request is answered by.
#[derive(Debug, PartialEq, Eq)]
pub enum RequestId {
    Integer(i64),
    Text(String),
}

/// What a [`RequestId`] means.
#[verifier::ext_equal]
pub ghost enum RequestIdView {
    Integer(i64),
    Text(Seq<char>),
}

impl DeepView for RequestId {
    type V = RequestIdView;

    open spec fn deep_view(&self) -> RequestIdView {
        match self {
            RequestId::Integer(value) => RequestIdView::Integer(*value),
            RequestId::Text(value) => RequestIdView::Text(value@),
        }
    }
}

impl Duplicate for RequestId {
    fn duplicate(&self) -> RequestId {
        match self {
            RequestId::Integer(value) => RequestId::Integer(*value),
            RequestId::Text(value) => RequestId::Text(value.clone()),
        }
    }
}

/// What a patch does to a file.
#[derive(Debug, PartialEq, Eq)]
pub enum PatchChangeKind {
    Add,
    Delete,
    Update {
        move_path: Option<String>,
    },
}

/// What a [`PatchChangeKind`] means.
#[verifier::ext_equal]
pub ghost enum PatchChangeKindView {
    Add,
    Delete,
    Update {
        move_path: Option<Seq<char>>,
    },
}

impl DeepView for PatchChangeKind {
    type V = PatchChangeKindView;

    open spec fn deep_view(&self) -> PatchChangeKindView {
        match self {
            PatchChangeKind::Add => PatchChangeKindView::Add,
            PatchChangeKind::Delete => PatchChangeKindView::Delete,
            PatchChangeKind::Update { move_path } => PatchChangeKindView::Update {
                move_path: move_path.deep_view(),
            },
        }
    }
}

impl Duplicate for PatchChangeKind {
    fn duplicate(&self) -> PatchChangeKind {
        match self {
            PatchChangeKind::Add => PatchChangeKind::Add,
            PatchChangeKind::Delete => PatchChangeKind::Delete,
            PatchChangeKind::Update { move_path } => PatchChangeKind::Update {
                move_path: move_path.duplicate(),
            },
        }
    }
}

/// One file that a patch changes.
#[derive(Debug, PartialEq, Eq)]
pub struct FileUpdateChange {
    pub path: String,
    pub kind: PatchChangeKind,
    pub diff: String,
}

/// What a [`FileUpdateChange`] means.
#[verifier::ext_equal]
pub ghost struct FileUpdateChangeView {
    pub path: Seq<char>,
    pub kind: PatchChangeKindView,
    pub diff: Seq<char>,
}

impl DeepView for FileUpdateChange {
    type V = FileUpdateChangeView;

    open spec fn deep_view(&self) -> FileUpdateChangeView {
        FileUpdateChangeView {
            path: self.path@,
            kind: self.kind.deep_view(),
            diff: self.diff@,
        }
    }
}

impl Duplicate for FileUpdateChange {
    fn duplicate(&self) -> FileUpdateChange {
        FileUpdateChange {
            path: self.path.clone(),
            kind: self.kind.duplicate(),
            diff: self.diff.clone(),
        }
    }
}

/// One item of a turn.
#[derive(Debug, PartialEq, Eq)]
pub enum ThreadItem {
    CommandExecution {
        id: String,
        command: String,
        process_id: Option<String>,
        source: CommandExecutionSource,
        status: CommandExecutionStatus,
        aggregated_output: Option<String>,
        exit_code: Option<i32>,
        /// The directory, the parts of the command and how long it took.
        payload: String,
    },
    FileChange {
        id: String,
        changes: Vec<FileUpdateChange>,
        /// How far the patch has come.
        payload: String,
    },
    CollabAgentToolCall {
        id: String,
        receiver_thread_ids: Vec<String>,
        /// What is asked of the receivers, and how far they have come.
        payload: String,
    },
    Other {
        id: String,
        payload: String,
    },
}

/// What a [`ThreadItem`] means.
#[verifier::ext_equal]
pub ghost enum ThreadItemView {
    CommandExecution {
        id: Seq<char>,
        command: Seq<char>,
        process_id: Option<Seq<char>>,
        source: CommandExecutionSource,
        status: CommandExecutionStatus,
        aggregated_output: Option<Seq<char>>,
        exit_code: Option<i32>,
        payload: Seq<char>,
    },
    FileChange {
        id: Seq<char>,
        changes: Seq<FileUpdateChangeView>,
        payload: Seq<char>,
    },
    CollabAgentToolCall {
        id: Seq<char>,
        receiver_thread_ids: Seq<Seq<char>>,
        payload: Seq<char>,
    },
    Other {
        id: Seq<char>,
        payload: Seq<char>,
    },
}

impl DeepView for ThreadItem {
    type V = ThreadItemView;

    open spec fn deep_view(&self) -> ThreadItemView {
        match self {
            ThreadItem::CommandExecution { id, command, process_id, source, status, aggregated_output, exit_code, payload } => ThreadItemView::CommandExecution {
                id: id@,
                command: command@,
                process_id: process_id.deep_view(),
                source: *source,
                status: *status,
                aggregated_output: aggregated_output.deep_view(),
                exit_code: *exit_code,
                payload: payload@,
            },
            ThreadItem::FileChange { id, changes, payload } => ThreadItemView::FileChange {
                id: id@,
                changes: changes.deep_view(),
                payload: payload@,
            },
            ThreadItem::CollabAgentToolCall { id, receiver_thread_ids, payload } => ThreadItemView::CollabAgentToolCall {
                id: id@,
                receiver_thread_ids: receiver_thread_ids.deep_view(),
                payload: payload@,
            },
            ThreadItem::Other { id, payload } => ThreadItemView::Other {
                id: id@,
                payload: payload@,
            },
        }
    }
}

impl Duplicate for ThreadItem {
    fn duplicate(&self) -> ThreadItem {
        match self {
            ThreadItem::CommandExecution { id, command, process_id, source, status, aggregated_output, exit_code, payload } => ThreadItem::CommandExecution {
                id: id.clone(),
                command: command.clone(),
                process_id: process_id.duplicate(),
                source: *source,
                status: *status,
                aggregated_output: aggregated_output.duplicate(),
                exit_code: *exit_code,
                payload: payload.clone(),
            },
            ThreadItem::FileChange { id, changes, payload } => ThreadItem::FileChange {
                id: id.clone(),
                changes: changes.duplicate(),
                payload: payload.clone(),
            },
            ThreadItem::CollabAgentToolCall { id, receiver_thread_ids, payload } => ThreadItem::CollabAgentToolCall {
                id: id.clone(),
                receiver_thread_ids: receiver_thread_ids.duplicate(),
                payload: payload.clone(),
            },
            ThreadItem::Other { id, payload } => ThreadItem::Other {
                id: id.clone(),
                payload: payload.clone(),
            },
        }
    }
}

/// One exchange between the user and the agent.
#[derive(Debug, PartialEq, Eq)]
pub struct Turn {
    pub id: String,
    pub status: TurnStatus,
    pub items: Vec<ThreadItem>,
    /// How the turn failed, where it did, and its times.
    pub payload: String,
}

/// What a [`Turn`] means.
#[verifier::ext_equal]
pub ghost struct TurnView {
    pub id: Seq<char>,
    pub status: TurnStatus,
    pub items: Seq<ThreadItemView>,
    pub payload: Seq<char>,
}

impl DeepView for Turn {
    type V = TurnView;

    open spec fn deep_view(&self) -> TurnView {
        TurnView {
            id: self.id@,
            status: self.status,
            items: self.items.deep_view(),
            payload: self.payload@,
        }
    }
}

impl Duplicate for Turn {
    fn duplicate(&self) -> Turn {
        Turn {
            id: self.id.clone(),
            status: self.status,
            items: self.items.duplicate(),
            payload: self.payload.clone(),
        }
    }
}

/// What the server says of a thread that it has started.
#[derive(Debug, PartialEq, Eq)]
pub struct StartedThread {
    pub name: Option<String>,
    pub model_provider: String,
    pub cwd: String,
    pub path: Option<String>,
    pub agent_nickname: Option<String>,
    pub agent_role: Option<String>,
    /// The model that the record of the thread names, where there is one.
    pub recorded_model: Option<String>,
    /// What else the server says of it.
    pub payload: String,
}

/// What a [`StartedThread`] means.
#[verifier::ext_equal]
pub ghost struct StartedThreadView {
    pub name: Option<Seq<char>>,
    pub model_provider: Seq<char>,
    pub cwd: Seq<char>,
    pub path: Option<Seq<char>>,
    pub agent_nickname: Option<Seq<char>>,
    pub agent_role: Option<Seq<char>>,
    pub recorded_model: Option<Seq<char>>,
    pub payload: Seq<char>,
}

impl DeepView for StartedThread {
    type V = StartedThreadView;

    open spec fn deep_view(&self) -> StartedThreadView {
        StartedThreadView {
            name: self.name.deep_view(),
            model_provider: self.model_provider@,
            cwd: self.cwd@,
            path: self.path.deep_view(),
            agent_nickname: self.agent_nickname.deep_view(),
            agent_role: self.agent_role.deep_view(),
            recorded_model: self.recorded_model.deep_view(),
            payload: self.payload@,
        }
    }
}

impl Duplicate for StartedThread {
    fn duplicate(&self) -> StartedThread {
        StartedThread {
            name: self.name.duplicate(),
            model_provider: self.model_provider.clone(),
            cwd: self.cwd.clone(),
            path: self.path.duplicate(),
            agent_nickname: self.agent_nickname.duplicate(),
            agent_role: self.agent_role.duplicate(),
            recorded_model: self.recorded_model.duplicate(),
            payload: self.payload.clone(),
        }
    }
}

/// Something that the server tells of a thread or of the whole session.
#[derive(Debug, PartialEq, Eq)]
pub enum ServerNotification {
    TurnStarted {
        turn: Turn,
    },
    TurnCompleted {
        turn: Turn,
    },
    ThreadStarted {
        thread: StartedThread,
    },
    ThreadClosed,
    ItemStarted {
        turn_id: String,
        item: ThreadItem,
    },
    ItemCompleted {
        turn_id: String,
        item: ThreadItem,
    },
    CommandExecutionOutputDelta {
        turn_id: String,
        item_id: String,
        delta: String,
    },
    ServerRequestResolved {
        request_id: RequestId,
    },
    AccountUpdated {
        auth_mode: Option<AuthMode>,
        plan_type: Option<String>,
    },
    /// A notification of which only the kind is read.
    Notice {
        kind: NoticeKind,
        payload: String,
    },
}

/// What a [`ServerNotification`] means.
#[verifier::ext_equal]
pub ghost enum ServerNotificationView {
    TurnStarted {
        turn: TurnView,
    },
    TurnCompleted {
        turn: TurnView,
    },
    ThreadStarted {
        thread: StartedThreadView,
    },
    ThreadClosed,
    ItemStarted {
        turn_id: Seq<char>,
        item: ThreadItemView,
    },
    ItemCompleted {
        turn_id: Seq<char>,
        item: ThreadItemView,
    },
    CommandExecutionOutputDelta {
        turn_id: Seq<char>,
        item_id: Seq<char>,
        delta: Seq<char>,
    },
    ServerRequestResolved {
        request_id: RequestIdView,
    },
    AccountUpdated {
        auth_mode: Option<AuthMode>,
        plan_type: Option<Seq<char>>,
    },
    Notice {
        kind: NoticeKind,
        payload: Seq<char>,
    },
}

impl DeepView for ServerNotification {
    type V = ServerNotificationView;

    open spec fn deep_view(&self) -> ServerNotificationView {
        match self {
            ServerNotification::TurnStarted { turn } => ServerNotificationView::TurnStarted {
                turn: turn.deep_view(),
            },
            ServerNotification::TurnCompleted { turn } => ServerNotificationView::TurnCompleted {
                turn: turn.deep_view(),
            },
            ServerNotification::ThreadStarted { thread } => ServerNotificationView::ThreadStarted {
                thread: thread.deep_view(),
            },
            ServerNotification::ThreadClosed => ServerNotificationView::ThreadClosed,
            ServerNotification::ItemStarted { turn_id, item } => ServerNotificationView::ItemStarted {
                turn_id: turn_id@,
                item: item.deep_view(),
            },
            ServerNotification::ItemCompleted { turn_id, item } => ServerNotificationView::ItemCompleted {
                turn_id: turn_id@,
                item: item.deep_view(),
            },
            ServerNotification::CommandExecutionOutputDelta { turn_id, item_id, delta } => ServerNotificationView::CommandExecutionOutputDelta {
                turn_id: turn_id@,
                item_id: item_id@,
                delta: delta@,
            },
            ServerNotification::ServerRequestResolved { request_id } => ServerNotificationView::ServerRequestResolved {
                request_id: request_id.deep_view(),
            },
            ServerNotification::AccountUpdated { auth_mode, plan_type } => ServerNotificationView::AccountUpdated {
                auth_mode: *auth_mode,
                plan_type: plan_type.deep_view(),
            },
            ServerNotification::Notice { kind, payload } => ServerNotificationView::Notice {
                kind: *kind,
                payload: payload@,
            },
        }
    }
}

impl Duplicate for ServerNotification {
    fn duplicate(&self) -> ServerNotification {
        match self {
            ServerNotification::TurnStarted { turn } => ServerNotification::TurnStarted {
                turn: turn.duplicate(),
            },
            ServerNotification::TurnCompleted { turn } => ServerNotification::TurnCompleted {
                turn: turn.duplicate(),
            },
            ServerNotification::ThreadStarted { thread } => ServerNotification::ThreadStarted {
                thread: thread.duplicate(),
            },
            ServerNotification::ThreadClosed => ServerNotification::ThreadClosed,
            ServerNotification::ItemStarted { turn_id, item } => ServerNotification::ItemStarted {
                turn_id: turn_id.clone(),
                item: item.duplicate(),
            },
            ServerNotification::ItemCompleted { turn_id, item } => ServerNotification::ItemCompleted {
                turn_id: turn_id.clone(),
                item: item.duplicate(),
            },
            ServerNotification::CommandExecutionOutputDelta { turn_id, item_id, delta } => ServerNotification::CommandExecutionOutputDelta {
                turn_id: turn_id.clone(),
                item_id: item_id.clone(),
                delta: delta.clone(),
            },
            ServerNotification::ServerRequestResolved { request_id } => ServerNotification::ServerRequestResolved {
                request_id: request_id.duplicate(),
            },
            ServerNotification::AccountUpdated { auth_mode, plan_type } => ServerNotification::AccountUpdated {
                auth_mode: *auth_mode,
                plan_type: plan_type.duplicate(),
            },
            ServerNotification::Notice { kind, payload } => ServerNotification::Notice {
                kind: *kind,
                payload: payload.clone(),
            },
        }
    }
}

/// How a tool server asks the user for something.
#[derive(Debug, PartialEq, Eq)]
pub enum ElicitationRequest {
    Form {
        message: String,
    },
    Url {
        url: String,
    },
}

/// What a [`ElicitationRequest`] means.
#[verifier::ext_equal]
pub ghost enum ElicitationRequestView {
    Form {
        message: Seq<char>,
    },
    Url {
        url: Seq<char>,
    },
}

impl DeepView for ElicitationRequest {
    type V = ElicitationRequestView;

    open spec fn deep_view(&self) -> ElicitationRequestView {
        match self {
            ElicitationRequest::Form { message } => ElicitationRequestView::Form {
                message: message@,
            },
            ElicitationRequest::Url { url } => ElicitationRequestView::Url {
                url: url@,
            },
        }
    }
}

impl Duplicate for ElicitationRequest {
    fn duplicate(&self) -> ElicitationRequest {
        match self {
            ElicitationRequest::Form { message } => ElicitationRequest::Form {
                message: message.clone(),
            },
            ElicitationRequest::Url { url } => ElicitationRequest::Url {
                url: url.clone(),
            },
        }
    }
}

/// Something that the server asks of the user.
#[derive(Debug, PartialEq, Eq)]
pub enum ServerRequest {
    CommandExecutionRequestApproval {
        request_id: RequestId,
        turn_id: String,
        item_id: String,
        approval_id: Option<String>,
        reason: Option<String>,
        /// The words of the command.
        command: Option<Vec<String>>,
        network_approval_context: Option<String>,
        additional_permissions: Option<String>,
        /// The decisions to offer, where the request names them.
        available_decisions: Option<Vec<String>>,
        /// The decisions to offer where the request names none.
        default_decisions: Vec<String>,
        /// The directory, the parts of the command and the rules it proposes.
        payload: String,
    },
    FileChangeRequestApproval {
        request_id: RequestId,
        turn_id: String,
        item_id: String,
        reason: Option<String>,
        /// The directory that writing is asked for.
        payload: String,
    },
    PermissionsRequestApproval {
        request_id: RequestId,
        turn_id: String,
        item_id: String,
        reason: Option<String>,
        permissions: String,
        /// The directory that they are asked for.
        payload: String,
    },
    McpServerElicitationRequest {
        request_id: RequestId,
        server_name: String,
        request: ElicitationRequest,
        /// The request as a link to an app, where it is one.
        app_link: Option<String>,
        /// The request as a form to fill in, where it is one.
        form: Option<String>,
    },
    ToolRequestUserInput {
        request_id: RequestId,
        turn_id: String,
        item_id: String,
        /// The questions, and what may be answered.
        payload: String,
    },
    Other {
        request_id: RequestId,
        method: String,
        payload: String,
    },
}

/// What a [`ServerRequest`] means.
#[verifier::ext_equal]
pub ghost enum ServerRequestView {
    CommandExecutionRequestApproval {
        request_id: RequestIdView,
        turn_id: Seq<char>,
        item_id: Seq<char>,
        approval_id: Option<Seq<char>>,
        reason: Option<Seq<char>>,
        command: Option<Seq<Seq<char>>>,
        network_approval_context: Option<Seq<char>>,
        additional_permissions: Option<Seq<char>>,
        available_decisions: Option<Seq<Seq<char>>>,
        default_decisions: Seq<Seq<char>>,
        payload: Seq<char>,
    },
    FileChangeRequestApproval {
        request_id: RequestIdView,
        turn_id: Seq<char>,
        item_id: Seq<char>,
        reason: Option<Seq<char>>,
        payload: Seq<char>,
    },
    PermissionsRequestApproval {
        request_id: RequestIdView,
        turn_id: Seq<char>,
        item_id: Seq<char>,
        reason: Option<Seq<char>>,
        permissions: Seq<char>,
        payload: Seq<char>,
    },
    McpServerElicitationRequest {
        request_id: RequestIdView,
        server_name: Seq<char>,
        request: ElicitationRequestView,
        app_link: Option<Seq<char>>,
        form: Option<Seq<char>>,
    },
    ToolRequestUserInput {
        request_id: RequestIdView,
        turn_id: Seq<char>,
        item_id: Seq<char>,
        payload: Seq<char>,
    },
    Other {
        request_id: RequestIdView,
        method: Seq<char>,
        payload: Seq<char>,
    },
}

impl DeepView for ServerRequest {
    type V = ServerRequestView;

    open spec fn deep_view(&self) -> ServerRequestView {
        match self {
            ServerRequest::CommandExecutionRequestApproval { request_id, turn_id, item_id, approval_id, reason, command, network_approval_context, additional_permissions, available_decisions, default_decisions, payload } => ServerRequestView::CommandExecutionRequestApproval {
                request_id: request_id.deep_view(),
                turn_id: turn_id@,
                item_id: item_id@,
                approval_id: approval_id.deep_view(),
                reason: reason.deep_view(),
                command: command.deep_view(),
                network_approval_context: network_approval_context.deep_view(),
                additional_permissions: additional_permissions.deep_view(),
                available_decisions: available_decisions.deep_view(),
                default_decisions: default_decisions.deep_view(),
                payload: payload@,
            },
            ServerRequest::FileChangeRequestApproval { request_id, turn_id, item_id, reason, payload } => ServerRequestView::FileChangeRequestApproval {
                request_id: request_id.deep_view(),
                turn_id: turn_id@,
                item_id: item_id@,
                reason: reason.deep_view(),
                payload: payload@,
            },
            ServerRequest::PermissionsRequestApproval { request_id, turn_id, item_id, reason, permissions, payload } => ServerRequestView::PermissionsRequestApproval {
                request_id: request_id.deep_view(),
                turn_id: turn_id@,
                item_id: item_id@,
                reason: reason.deep_view(),
                permissions: permissions@,
                payload: payload@,
            },
            ServerRequest::McpServerElicitationRequest { request_id, server_name, request, app_link, form } => ServerRequestView::McpServerElicitationRequest {
                request_id: request_id.deep_view(),
                server_name: server_name@,
                request: request.deep_view(),
                app_link: app_link.deep_view(),
                form: form.deep_view(),
            },
            ServerRequest::ToolRequestUserInput { request_id, turn_id, item_id, payload } => ServerRequestView::ToolRequestUserInput {
                request_id: request_id.deep_view(),
                turn_id: turn_id@,
                item_id: item_id@,
                payload: payload@,
            },
            ServerRequest::Other { request_id, method, payload } => ServerRequestView::Other {
                request_id: request_id.deep_view(),
                method: method@,
                payload: payload@,
            },
        }
    }
}

impl Duplicate for ServerRequest {
    fn duplicate(&self) -> ServerRequest {
        match self {
            ServerRequest::CommandExecutionRequestApproval { request_id, turn_id, item_id, approval_id, reason, command, network_approval_context, additional_permissions, available_decisions, default_decisions, payload } => ServerRequest::CommandExecutionRequestApproval {
                request_id: request_id.duplicate(),
                turn_id: turn_id.clone(),
                item_id: item_id.clone(),
                approval_id: approval_id.duplicate(),
                reason: reason.duplicate(),
                command: command.duplicate(),
                network_approval_context: network_approval_context.duplicate(),
                additional_permissions: additional_permissions.duplicate(),
                available_decisions: available_decisions.duplicate(),
                default_decisions: default_decisions.duplicate(),
                payload: payload.clone(),
            },
            ServerRequest::FileChangeRequestApproval { request_id, turn_id, item_id, reason, payload } => ServerRequest::FileChangeRequestApproval {
                request_id: request_id.duplicate(),
                turn_id: turn_id.clone(),
                item_id: item_id.clone(),
                reason: reason.duplicate(),
                payload: payload.clone(),
            },
            ServerRequest::PermissionsRequestApproval { request_id, turn_id, item_id, reason, permissions, payload } => ServerRequest::PermissionsRequestApproval {
                request_id: request_id.duplicate(),
                turn_id: turn_id.clone(),
                item_id: item_id.clone(),
                reason: reason.duplicate(),
                permissions: permissions.clone(),
                payload: payload.clone(),
            },
            ServerRequest::McpServerElicitationRequest { request_id, server_name, request, app_link, form } => ServerRequest::McpServerElicitationRequest {
                request_id: request_id.duplicate(),
                server_name: server_name.clone(),
                request: request.duplicate(),
                app_link: app_link.duplicate(),
                form: form.duplicate(),
            },
            ServerRequest::ToolRequestUserInput { request_id, turn_id, item_id, payload } => ServerRequest::ToolRequestUserInput {
                request_id: request_id.duplicate(),
                turn_id: turn_id.clone(),
                item_id: item_id.clone(),
                payload: payload.clone(),
            },
            ServerRequest::Other { request_id, method, payload } => ServerRequest::Other {
                request_id: request_id.duplicate(),
                method: method.clone(),
                payload: payload.clone(),
            },
        }
    }
}

/// An entry of the prompt history, as looked up for a thread.
#[derive(Debug, PartialEq, Eq)]
pub struct HistoryLookupResponse {
    pub offset: usize,
    pub log_id: u64,
    pub entry: Option<String>,
}

/// What a [`HistoryLookupResponse`] means.
#[verifier::ext_equal]
pub ghost struct HistoryLookupResponseView {
    pub offset: usize,
    pub log_id: u64,
    pub entry: Option<Seq<char>>,
}

impl DeepView for HistoryLookupResponse {
    type V = HistoryLookupResponseView;

    open spec fn deep_view(&self) -> HistoryLookupResponseView {
        HistoryLookupResponseView {
            offset: self.offset,
            log_id: self.log_id,
            entry: self.entry.deep_view(),
        }
    }
}

impl Duplicate for HistoryLookupResponse {
    fn duplicate(&self) -> HistoryLookupResponse {
        HistoryLookupResponse {
            offset: self.offset,
            log_id: self.log_id,
            entry: self.entry.duplicate(),
        }
    }
}

/// How the upload of feedback ended.
#[derive(Debug, PartialEq, Eq)]
pub enum FeedbackOutcome {
    Sent(String),
    Failed(String),
}

/// What a [`FeedbackOutcome`] means.
#[verifier::ext_equal]
pub ghost enum FeedbackOutcomeView {
    Sent(Seq<char>),
    Failed(Seq<char>),
}

impl DeepView for FeedbackOutcome {
    type V = FeedbackOutcomeView;

    open spec fn deep_view(&self) -> FeedbackOutcomeView {
        match self {
            FeedbackOutcome::Sent(value) => FeedbackOutcomeView::Sent(value@),
            FeedbackOutcome::Failed(value) => FeedbackOutcomeView::Failed(value@),
        }
    }
}

impl Duplicate for FeedbackOutcome {
    fn duplicate(&self) -> FeedbackOutcome {
        match self {
            FeedbackOutcome::Sent(value) => FeedbackOutcome::Sent(value.clone()),
            FeedbackOutcome::Failed(value) => FeedbackOutcome::Failed(value.clone()),
        }
    }
}

/// Feedback that the user has given on a thread.
#[derive(Debug, PartialEq, Eq)]
pub struct FeedbackThreadEvent {
    pub category: String,
    pub include_logs: bool,
    pub audience: String,
    pub outcome: FeedbackOutcome,
}

/// What a [`FeedbackThreadEvent`] means.
#[verifier::ext_equal]
pub ghost struct FeedbackThreadEventView {
    pub category: Seq<char>,
    pub include_logs: bool,
    pub audience: Seq<char>,
    pub outcome: FeedbackOutcomeView,
}

impl DeepView for FeedbackThreadEvent {
    type V = FeedbackThreadEventView;

    open spec fn deep_view(&self) -> FeedbackThreadEventView {
        FeedbackThreadEventView {
            category: self.category@,
            include_logs: self.include_logs,
            audience: self.audience@,
            outcome: self.outcome.deep_view(),
        }
    }
}

impl Duplicate for FeedbackThreadEvent {
    fn duplicate(&self) -> FeedbackThreadEvent {
        FeedbackThreadEvent {
            category: self.category.clone(),
            include_logs: self.include_logs,
            audience: self.audience.clone(),
            outcome: self.outcome.duplicate(),
        }
    }
}

/// Something that happened on a thread and is kept until the thread is shown.
#[derive(Debug, PartialEq, Eq)]
pub enum ThreadBufferedEvent {
    Notification(ServerNotification),
    Request(ServerRequest),
    HistoryEntryResponse(HistoryLookupResponse),
    FeedbackSubmission(FeedbackThreadEvent),
}

/// What a [`ThreadBufferedEvent`] means.
#[verifier::ext_equal]
pub ghost enum ThreadBufferedEventView {
    Notification(ServerNotificationView),
    Request(ServerRequestView),
    HistoryEntryResponse(HistoryLookupResponseView),
    FeedbackSubmission(FeedbackThreadEventView),
}

impl DeepView for ThreadBufferedEvent {
    type V = ThreadBufferedEventView;

    open spec fn deep_view(&self) -> ThreadBufferedEventView {
        match self {
            ThreadBufferedEvent::Notification(value) => ThreadBufferedEventView::Notification(value.deep_view()),
            ThreadBufferedEvent::Request(value) => ThreadBufferedEventView::Request(value.deep_view()),
            ThreadBufferedEvent::HistoryEntryResponse(value) => ThreadBufferedEventView::HistoryEntryResponse(value.deep_view()),
            ThreadBufferedEvent::FeedbackSubmission(value) => ThreadBufferedEventView::FeedbackSubmission(value.deep_view()),
        }
    }
}

impl Duplicate for ThreadBufferedEvent {
    fn duplicate(&self) -> ThreadBufferedEvent {
        match self {
            ThreadBufferedEvent::Notification(value) => ThreadBufferedEvent::Notification(value.duplicate()),
            ThreadBufferedEvent::Request(value) => ThreadBufferedEvent::Request(value.duplicate()),
            ThreadBufferedEvent::HistoryEntryResponse(value) => ThreadBufferedEvent::HistoryEntryResponse(value.duplicate()),
            ThreadBufferedEvent::FeedbackSubmission(value) => ThreadBufferedEvent::FeedbackSubmission(value.duplicate()),
        }
    }
}

/// The settings that the turns of a thread run under.
#[derive(Debug, PartialEq, Eq)]
pub struct ThreadSessionState {
    pub thread_id: ThreadId,
    /// The thread that this one was forked from.
    pub forked_from_id: Option<ThreadId>,
    pub fork_parent_title: Option<String>,
    pub thread_name: Option<String>,
    pub model: String,
    pub model_provider_id: String,
    pub service_tier: Option<String>,
    pub approval_policy: AskForApproval,
    pub approvals_reviewer: ApprovalsReviewer,
    pub permission_profile: String,
    pub active_permission_profile: Option<String>,
    pub cwd: String,
    pub discovery_cwd: Option<String>,
    pub instruction_source_paths: Vec<String>,
    pub reasoning_effort: Option<String>,
    pub message_history: Option<String>,
    pub network_proxy: Option<String>,
    pub rollout_path: Option<String>,
}

/// What a [`ThreadSessionState`] means.
#[verifier::ext_equal]
pub ghost struct ThreadSessionStateView {
    pub thread_id: ThreadId,
    pub forked_from_id: Option<ThreadId>,
    pub fork_parent_title: Option<Seq<char>>,
    pub thread_name: Option<Seq<char>>,
    pub model: Seq<char>,
    pub model_provider_id: Seq<char>,
    pub service_tier: Option<Seq<char>>,
    pub approval_policy: AskForApproval,
    pub approvals_reviewer: ApprovalsReviewer,
    pub permission_profile: Seq<char>,
    pub active_permission_profile: Option<Seq<char>>,
    pub cwd: Seq<char>,
    pub discovery_cwd: Option<Seq<char>>,
    pub instruction_source_paths: Seq<Seq<char>>,
    pub reasoning_effort: Option<Seq<char>>,
    pub message_history: Option<Seq<char>>,
    pub network_proxy: Option<Seq<char>>,
    pub rollout_path: Option<Seq<char>>,
}

impl DeepView for ThreadSessionState {
    type V = ThreadSessionStateView;

    open spec fn deep_view(&self) -> ThreadSessionStateView {
        ThreadSessionStateView {
            thread_id: self.thread_id,
            forked_from_id: self.forked_from_id,
            fork_parent_title: self.fork_parent_title.deep_view(),
            thread_name: self.thread_name.deep_view(),
            model: self.model@,
            model_provider_id: self.model_provider_id@,
            service_tier: self.service_tier.deep_view(),
            approval_policy: self.approval_policy,
            approvals_reviewer: self.approvals_reviewer,
            permission_profile: self.permission_profile@,
            active_permission_profile: self.active_permission_profile.deep_view(),
            cwd: self.cwd@,
            discovery_cwd: self.discovery_cwd.deep_view(),
            instruction_source_paths: self.instruction_source_paths.deep_view(),
            reasoning_effort: self.reasoning_effort.deep_view(),
            message_history: self.message_history.deep_view(),
            network_proxy: self.network_proxy.deep_view(),
            rollout_path: self.rollout_path.deep_view(),
        }
    }
}

impl Duplicate for ThreadSessionState {
    fn duplicate(&self) -> ThreadSessionState {
        ThreadSessionState {
            thread_id: self.thread_id,
            forked_from_id: self.forked_from_id,
            fork_parent_title: self.fork_parent_title.duplicate(),
            thread_name: self.thread_name.duplicate(),
            model: self.model.clone(),
            model_provider_id: self.model_provider_id.clone(),
            service_tier: self.service_tier.duplicate(),
            approval_policy: self.approval_policy,
            approvals_reviewer: self.approvals_reviewer,
            permission_profile: self.permission_profile.clone(),
            active_permission_profile: self.active_permission_profile.duplicate(),
            cwd: self.cwd.clone(),
            discovery_cwd: self.discovery_cwd.duplicate(),
            instruction_source_paths: self.instruction_source_paths.duplicate(),
            reasoning_effort: self.reasoning_effort.duplicate(),
            message_history: self.message_history.duplicate(),
            network_proxy: self.network_proxy.duplicate(),
            rollout_path: self.rollout_path.duplicate(),
        }
    }
}

/// One piece of what the user sends.
#[derive(Debug, PartialEq, Eq)]
pub enum UserInput {
    Text {
        text: String,
    },
    Other {
        payload: String,
    },
}

/// What a [`UserInput`] means.
#[verifier::ext_equal]
pub ghost enum UserInputView {
    Text {
        text: Seq<char>,
    },
    Other {
        payload: Seq<char>,
    },
}

impl DeepView for UserInput {
    type V = UserInputView;

    open spec fn deep_view(&self) -> UserInputView {
        match self {
            UserInput::Text { text } => UserInputView::Text {
                text: text@,
            },
            UserInput::Other { payload } => UserInputView::Other {
                payload: payload@,
            },
        }
    }
}

impl Duplicate for UserInput {
    fn duplicate(&self) -> UserInput {
        match self {
            UserInput::Text { text } => UserInput::Text {
                text: text.clone(),
            },
            UserInput::Other { payload } => UserInput::Other {
                payload: payload.clone(),
            },
        }
    }
}

/// A turn that the user, or a wakeup in place of the user, starts.
#[derive(Debug, PartialEq, Eq)]
pub struct UserTurn {
    pub items: Vec<UserInput>,
    pub cwd: String,
    pub approval_policy: AskForApproval,
    pub approvals_reviewer: Option<ApprovalsReviewer>,
    pub permission_profile: String,
    pub model: String,
    pub effort: Option<String>,
    pub summary: Option<String>,
    pub service_tier: Option<Option<String>>,
    pub final_output_json_schema: Option<String>,
    pub collaboration_mode: Option<String>,
    pub personality: Option<String>,
}

/// What a [`UserTurn`] means.
#[verifier::ext_equal]
pub ghost struct UserTurnView {
    pub items: Seq<UserInputView>,
    pub cwd: Seq<char>,
    pub approval_policy: AskForApproval,
    pub approvals_reviewer: Option<ApprovalsReviewer>,
    pub permission_profile: Seq<char>,
    pub model: Seq<char>,
    pub effort: Option<Seq<char>>,
    pub summary: Option<Seq<char>>,
    pub service_tier: Option<Option<Seq<char>>>,
    pub final_output_json_schema: Option<Seq<char>>,
    pub collaboration_mode: Option<Seq<char>>,
    pub personality: Option<Seq<char>>,
}

impl DeepView for UserTurn {
    type V = UserTurnView;

    open spec fn deep_view(&self) -> UserTurnView {
        UserTurnView {
            items: self.items.deep_view(),
            cwd: self.cwd@,
            approval_policy: self.approval_policy,
            approvals_reviewer: self.approvals_reviewer,
            permission_profile: self.permission_profile@,
            model: self.model@,
            effort: self.effort.deep_view(),
            summary: self.summary.deep_view(),
            service_tier: self.service_tier.deep_view(),
            final_output_json_schema: self.final_output_json_schema.deep_view(),
            collaboration_mode: self.collaboration_mode.deep_view(),
            personality: self.personality.deep_view(),
        }
    }
}

impl Duplicate for UserTurn {
    fn duplicate(&self) -> UserTurn {
        UserTurn {
            items: self.items.duplicate(),
            cwd: self.cwd.clone(),
            approval_policy: self.approval_policy,
            approvals_reviewer: self.approvals_reviewer,
            permission_profile: self.permission_profile.clone(),
            model: self.model.clone(),
            effort: self.effort.duplicate(),
            summary: self.summary.duplicate(),
            service_tier: self.service_tier.duplicate(),
            final_output_json_schema: self.final_output_json_schema.duplicate(),
            collaboration_mode: self.collaboration_mode.duplicate(),
            personality: self.personality.duplicate(),
        }
    }
}

/// Something that the user asks of a thread.
#[derive(Debug, PartialEq, Eq)]
pub enum AppCommand {
    Interrupt,
    UserTurn(UserTurn),
    ListSkills {
        cwds: Vec<String>,
        force_reload: bool,
    },
    Compact,
    SetThreadName {
        name: String,
    },
    ThreadRollback {
        num_turns: u32,
    },
    Review {
        target: String,
    },
    CleanBackgroundTerminals,
    TerminateBackgroundTerminal {
        process_id: String,
    },
    RealtimeConversationStart {
        transport: Option<String>,
        voice: Option<String>,
    },
    RealtimeConversationAudio {
        frame: String,
    },
    RealtimeConversationClose,
    RunUserShellCommand {
        command: String,
    },
    ReloadUserConfig,
    OverrideTurnContext {
        cwd: Option<String>,
    },
    ApproveGuardianDeniedAction {
        event: String,
    },
    ExecApproval {
        id: String,
    },
    PatchApproval {
        id: String,
    },
    ResolveElicitation {
        server_name: String,
        request_id: RequestId,
    },
    RequestPermissionsResponse {
        id: String,
    },
    UserInputAnswer {
        id: String,
    },
    Shutdown,
    Other {
        payload: String,
    },
}

/// What a [`AppCommand`] means.
#[verifier::ext_equal]
pub ghost enum AppCommandView {
    Interrupt,
    UserTurn(UserTurnView),
    ListSkills {
        cwds: Seq<Seq<char>>,
        force_reload: bool,
    },
    Compact,
    SetThreadName {
        name: Seq<char>,
    },
    ThreadRollback {
        num_turns: u32,
    },
    Review {
        target: Seq<char>,
    },
    CleanBackgroundTerminals,
    TerminateBackgroundTerminal {
        process_id: Seq<char>,
    },
    RealtimeConversationStart {
        transport: Option<Seq<char>>,
        voice: Option<Seq<char>>,
    },
    RealtimeConversationAudio {
        frame: Seq<char>,
    },
    RealtimeConversationClose,
    RunUserShellCommand {
        command: Seq<char>,
    },
    ReloadUserConfig,
    OverrideTurnContext {
        cwd: Option<Seq<char>>,
    },
    ApproveGuardianDeniedAction {
        event: Seq<char>,
    },
    ExecApproval {
        id: Seq<char>,
    },
    PatchApproval {
        id: Seq<char>,
    },
    ResolveElicitation {
        server_name: Seq<char>,
        request_id: RequestIdView,
    },
    RequestPermissionsResponse {
        id: Seq<char>,
    },
    UserInputAnswer {
        id: Seq<char>,
    },
    Shutdown,
    Other {
        payload: Seq<char>,
    },
}

impl DeepView for AppCommand {
    type V = AppCommandView;

    open spec fn deep_view(&self) -> AppCommandView {
        match self {
            AppCommand::Interrupt => AppCommandView::Interrupt,
            AppCommand::UserTurn(value) => AppCommandView::UserTurn(value.deep_view()),
            AppCommand::ListSkills { cwds, force_reload } => AppCommandView::ListSkills {
                cwds: cwds.deep_view(),
                force_reload: *force_reload,
            },
            AppCommand::Compact => AppCommandView::Compact,
            AppCommand::SetThreadName { name } => AppCommandView::SetThreadName {
                name: name@,
            },
            AppCommand::ThreadRollback { num_turns } => AppCommandView::ThreadRollback {
                num_turns: *num_turns,
            },
            AppCommand::Review { target } => AppCommandView::Review {
                target: target@,
            },
            AppCommand::CleanBackgroundTerminals => AppCommandView::CleanBackgroundTerminals,
            AppCommand::TerminateBackgroundTerminal { process_id } => AppCommandView::TerminateBackgroundTerminal {
                process_id: process_id@,
            },
            AppCommand::RealtimeConversationStart { transport, voice } => AppCommandView::RealtimeConversationStart {
                transport: transport.deep_view(),
                voice: voice.deep_view(),
            },
            AppCommand::RealtimeConversationAudio { frame } => AppCommandView::RealtimeConversationAudio {
                frame: frame@,
            },
            AppCommand::RealtimeConversationClose => AppCommandView::RealtimeConversationClose,
            AppCommand::RunUserShellCommand { command } => AppCommandView::RunUserShellCommand {
                command: command@,
            },
            AppCommand::ReloadUserConfig => AppCommandView::ReloadUserConfig,
            AppCommand::OverrideTurnContext { cwd } => AppCommandView::OverrideTurnContext {
                cwd: cwd.deep_view(),
            },
            AppCommand::ApproveGuardianDeniedAction { event } => AppCommandView::ApproveGuardianDeniedAction {
                event: event@,
            },
            AppCommand::ExecApproval { id } => AppCommandView::ExecApproval {
                id: id@,
            },
            AppCommand::PatchApproval { id } => AppCommandView::PatchApproval {
                id: id@,
            },
            AppCommand::ResolveElicitation { server_name, request_id } => AppCommandView::ResolveElicitation {
                server_name: server_name@,
                request_id: request_id.deep_view(),
            },
            AppCommand::RequestPermissionsResponse { id } => AppCommandView::RequestPermissionsResponse {
                id: id@,
            },
            AppCommand::UserInputAnswer { id } => AppCommandView::UserInputAnswer {
                id: id@,
            },
            AppCommand::Shutdown => AppCommandView::Shutdown,
            AppCommand::Other { payload } => AppCommandView::Other {
                payload: payload@,
            },
        }
    }
}

impl Duplicate for AppCommand {
    fn duplicate(&self) -> AppCommand {
        match self {
            AppCommand::Interrupt => AppCommand::Interrupt,
            AppCommand::UserTurn(value) => AppCommand::UserTurn(value.duplicate()),
            AppCommand::ListSkills { cwds, force_reload } => AppCommand::ListSkills {
                cwds: cwds.duplicate(),
                force_reload: *force_reload,
            },
            AppCommand::Compact => AppCommand::Compact,
            AppCommand::SetThreadName { name } => AppCommand::SetThreadName {
                name: name.clone(),
            },
            AppCommand::ThreadRollback { num_turns } => AppCommand::ThreadRollback {
                num_turns: *num_turns,
            },
            AppCommand::Review { target } => AppCommand::Review {
                target: target.clone(),
            },
            AppCommand::CleanBackgroundTerminals => AppCommand::CleanBackgroundTerminals,
            AppCommand::TerminateBackgroundTerminal { process_id } => AppCommand::TerminateBackgroundTerminal {
                process_id: process_id.clone(),
            },
            AppCommand::RealtimeConversationStart { transport, voice } => AppCommand::RealtimeConversationStart {
                transport: transport.duplicate(),
                voice: voice.duplicate(),
            },
            AppCommand::RealtimeConversationAudio { frame } => AppCommand::RealtimeConversationAudio {
                frame: frame.clone(),
            },
            AppCommand::RealtimeConversationClose => AppCommand::RealtimeConversationClose,
            AppCommand::RunUserShellCommand { command } => AppCommand::RunUserShellCommand {
                command: command.clone(),
            },
            AppCommand::ReloadUserConfig => AppCommand::ReloadUserConfig,
            AppCommand::OverrideTurnContext { cwd } => AppCommand::OverrideTurnContext {
                cwd: cwd.duplicate(),
            },
            AppCommand::ApproveGuardianDeniedAction { event } => AppCommand::ApproveGuardianDeniedAction {
                event: event.clone(),
            },
            AppCommand::ExecApproval { id } => AppCommand::ExecApproval {
                id: id.clone(),
            },
            AppCommand::PatchApproval { id } => AppCommand::PatchApproval {
                id: id.clone(),
            },
            AppCommand::ResolveElicitation { server_name, request_id } => AppCommand::ResolveElicitation {
                server_name: server_name.clone(),
                request_id: request_id.duplicate(),
            },
            AppCommand::RequestPermissionsResponse { id } => AppCommand::RequestPermissionsResponse {
                id: id.clone(),
            },
            AppCommand::UserInputAnswer { id } => AppCommand::UserInputAnswer {
                id: id.clone(),
            },
            AppCommand::Shutdown => AppCommand::Shutdown,
            AppCommand::Other { payload } => AppCommand::Other {
                payload: payload.clone(),
            },
        }
    }
}

} // verus!
