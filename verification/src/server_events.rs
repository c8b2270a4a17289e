//! What the server sends: notifications, requests, and the news that the connection is gone.
use crate::agent_navigation::same_id;
use crate::app_state::{App, AppView};
use crate::collections::Duplicate;
use crate::effects::{no_effects, push_effect, push_effects, AppEffect, AppEffectView};
use crate::protocol::{
    AppCommand, AppCommandView, AuthMode, NoticeKind, RequestId, RequestIdView, ServerNotification,
    ServerNotificationView, ServerRequest, ServerRequestView,
};
use crate::thread_id::{id_text, ThreadId};
use crate::thread_routing::ThreadRequestEnqueueResult;
use vstd::prelude::*;
use vstd::string::StringExecFns;

verus! {

/// A tool server in the settings.
#[derive(Debug, PartialEq, Eq)]
pub struct McpServer {
    pub name: String,
    pub enabled: bool,
}

/// What a [`McpServer`] means.
#[verifier::ext_equal]
pub ghost struct McpServerView {
    pub name: Seq<char>,
    pub enabled: bool,
}

impl DeepView for McpServer {
    type V = McpServerView;

    open spec fn deep_view(&self) -> McpServerView {
        McpServerView {
            name: self.name@,
            enabled: self.enabled,
        }
    }
}

impl Duplicate for McpServer {
    fn duplicate(&self) -> McpServer {
        McpServer {
            name: self.name.clone(),
            enabled: self.enabled,
        }
    }
}

/// What a notification is about.
#[derive(Debug, PartialEq, Eq)]
pub enum NotificationTarget {
    Thread(ThreadId),
    /// A thread, by a text that is no id.
    InvalidThreadId(String),
    /// No thread.
    Global,
}

/// What a [`NotificationTarget`] means.
#[verifier::ext_equal]
pub ghost enum NotificationTargetView {
    Thread(ThreadId),
    InvalidThreadId(Seq<char>),
    Global,
}

impl DeepView for NotificationTarget {
    type V = NotificationTargetView;

    open spec fn deep_view(&self) -> NotificationTargetView {
        match self {
            NotificationTarget::Thread(value) => NotificationTargetView::Thread(*value),
            NotificationTarget::InvalidThreadId(value) => NotificationTargetView::InvalidThreadId(value@),
            NotificationTarget::Global => NotificationTargetView::Global,
        }
    }
}

impl Duplicate for NotificationTarget {
    fn duplicate(&self) -> NotificationTarget {
        match self {
            NotificationTarget::Thread(value) => NotificationTarget::Thread(*value),
            NotificationTarget::InvalidThreadId(value) => NotificationTarget::InvalidThreadId(value.clone()),
            NotificationTarget::Global => NotificationTarget::Global,
        }
    }
}

/// A request that the client cannot answer.
#[derive(Debug, PartialEq, Eq)]
pub struct UnsupportedRequest {
    pub request_id: RequestId,
    pub message: String,
}

/// What a [`UnsupportedRequest`] means.
#[verifier::ext_equal]
pub ghost struct UnsupportedRequestView {
    pub request_id: RequestIdView,
    pub message: Seq<char>,
}

impl DeepView for UnsupportedRequest {
    type V = UnsupportedRequestView;

    open spec fn deep_view(&self) -> UnsupportedRequestView {
        UnsupportedRequestView {
            request_id: self.request_id.deep_view(),
            message: self.message@,
        }
    }
}

impl Duplicate for UnsupportedRequest {
    fn duplicate(&self) -> UnsupportedRequest {
        UnsupportedRequest {
            request_id: self.request_id.duplicate(),
            message: self.message.clone(),
        }
    }
}

/// What becomes of a request.
#[derive(Debug, PartialEq, Eq)]
pub enum RequestStep {
    /// It is not answered, which the server is told.
    Rejected,
    /// It is noted as a request of this thread.
    Note {
        thread_id: ThreadId,
    },
}

/// What a [`RequestStep`] means.
#[verifier::ext_equal]
pub ghost enum RequestStepView {
    Rejected,
    Note {
        thread_id: ThreadId,
    },
}

impl DeepView for RequestStep {
    type V = RequestStepView;

    open spec fn deep_view(&self) -> RequestStepView {
        match self {
            RequestStep::Rejected => RequestStepView::Rejected,
            RequestStep::Note { thread_id } => RequestStepView::Note {
                thread_id: *thread_id,
            },
        }
    }
}

impl Duplicate for RequestStep {
    fn duplicate(&self) -> RequestStep {
        match self {
            RequestStep::Rejected => RequestStep::Rejected,
            RequestStep::Note { thread_id } => RequestStep::Note {
                thread_id: *thread_id,
            },
        }
    }
}

/// What the server sends.
#[derive(Debug, PartialEq, Eq)]
pub enum AppServerEvent {
    /// Some events were lost.
    Lagged {
        skipped: usize,
    },
    ServerNotification(ServerNotification),
    ServerRequest(ServerRequest),
    /// The connection is gone.
    Disconnected {
        message: String,
    },
}

/// What a [`AppServerEvent`] means.
#[verifier::ext_equal]
pub ghost enum AppServerEventView {
    Lagged {
        skipped: usize,
    },
    ServerNotification(ServerNotificationView),
    ServerRequest(ServerRequestView),
    Disconnected {
        message: Seq<char>,
    },
}

impl DeepView for AppServerEvent {
    type V = AppServerEventView;

    open spec fn deep_view(&self) -> AppServerEventView {
        match self {
            AppServerEvent::Lagged { skipped } => AppServerEventView::Lagged {
                skipped: *skipped,
            },
            AppServerEvent::ServerNotification(value) => AppServerEventView::ServerNotification(value.deep_view()),
            AppServerEvent::ServerRequest(value) => AppServerEventView::ServerRequest(value.deep_view()),
            AppServerEvent::Disconnected { message } => AppServerEventView::Disconnected {
                message: message@,
            },
        }
    }
}

impl Duplicate for AppServerEvent {
    fn duplicate(&self) -> AppServerEvent {
        match self {
            AppServerEvent::Lagged { skipped } => AppServerEvent::Lagged {
                skipped: *skipped,
            },
            AppServerEvent::ServerNotification(value) => AppServerEvent::ServerNotification(value.duplicate()),
            AppServerEvent::ServerRequest(value) => AppServerEvent::ServerRequest(value.duplicate()),
            AppServerEvent::Disconnected { message } => AppServerEvent::Disconnected {
                message: message.clone(),
            },
        }
    }
}

/// The names of the tool servers that are enabled.
pub open spec fn enabled_names(servers: Seq<McpServerView>) -> Seq<Seq<char>> {
    servers.filter(|server: McpServerView| server.enabled).map_values(
        |server: McpServerView| server.name,
    )
}

/// What a request is answered by.
pub open spec fn request_id_of(request: ServerRequestView) -> RequestIdView {
    match request {
        ServerRequestView::CommandExecutionRequestApproval { request_id, .. } => request_id,
        ServerRequestView::FileChangeRequestApproval { request_id, .. } => request_id,
        ServerRequestView::PermissionsRequestApproval { request_id, .. } => request_id,
        ServerRequestView::McpServerElicitationRequest { request_id, .. } => request_id,
        ServerRequestView::ToolRequestUserInput { request_id, .. } => request_id,
        ServerRequestView::Other { request_id, .. } => request_id,
    }
}

/// The message for a request of a closed thread.
pub open spec fn closed_message(thread_id: ThreadId) -> Seq<char> {
    "Thread "@ + id_text(thread_id) + " is closed."@
}

/// The steps that turn a request down, which the user is told too.
pub open spec fn turned_down(unsupported: UnsupportedRequestView) -> Seq<AppEffectView> {
    seq![
        AppEffectView::AddErrorMessage { message: unsupported.message },
        AppEffectView::RejectRequest {
            request_id: unsupported.request_id,
            message: unsupported.message,
        },
    ]
}

/// The steps for a notification that is about the whole session and about nothing else, where it
/// is one.
pub open spec fn session_news(notification: ServerNotificationView) -> Option<Seq<AppEffectView>> {
    match notification {
        ServerNotificationView::AccountUpdated { auth_mode, plan_type } => Some(
            seq![
                AppEffectView::UpdateAccountState {
                    auth_mode,
                    plan_type,
                    is_chatgpt: auth_mode == Some(AuthMode::Chatgpt) || auth_mode == Some(
                        AuthMode::ChatgptAuthTokens,
                    ),
                },
            ],
        ),
        ServerNotificationView::Notice { kind, payload } => match kind {
            NoticeKind::AccountRateLimitsUpdated => Some(
                seq![AppEffectView::UpdateRateLimits { payload }],
            ),
            NoticeKind::ExternalAgentConfigImportCompleted => Some(
                seq![
                    AppEffectView::RefreshConfigAfterImport,
                    AppEffectView::RefreshPluginMentions,
                    AppEffectView::SubmitOp { op: AppCommandView::ReloadUserConfig },
                    AppEffectView::FetchPluginsList,
                ],
            ),
            _ => None,
        },
        _ => None,
    }
}

/// The steps that come before a notification is passed on.
pub open spec fn before_passing_on(
    notification: ServerNotificationView,
    servers: Seq<McpServerView>,
) -> Seq<AppEffectView> {
    match notification {
        ServerNotificationView::ServerRequestResolved { request_id } => seq![
            AppEffectView::DismissResolvedRequest { request_id },
        ],
        ServerNotificationView::Notice { kind, .. } => if kind
            == NoticeKind::McpServerStatusUpdated {
            seq![AppEffectView::SetMcpStartupExpectedServers { names: enabled_names(servers) }]
        } else {
            Seq::empty()
        },
        _ => Seq::empty(),
    }
}

impl AppView {
    /// Once a notification was passed on to its thread. What comes in while the primary thread is
    /// not known is taken to be for it.
    pub open spec fn passed_on(self, notification: ServerNotificationView, target: NotificationTargetView) -> (
        AppView,
        Seq<AppEffectView>,
    ) {
        match target {
            NotificationTargetView::Thread(thread_id) => if self.primary_thread_id == Some(
                thread_id,
            ) || self.primary_thread_id is None {
                self.primary_notified(notification)
            } else {
                self.notified(thread_id, notification)
            },
            NotificationTargetView::InvalidThreadId(_) => (self, Seq::empty()),
            NotificationTargetView::Global => (
                self,
                seq![AppEffectView::HandleNotification { notification }],
            ),
        }
    }

    /// Once a notification has come from the server.
    pub open spec fn server_notified(
        self,
        notification: ServerNotificationView,
        target: NotificationTargetView,
        servers: Seq<McpServerView>,
    ) -> (AppView, Seq<AppEffectView>) {
        match session_news(notification) {
            Some(effects) => (self, effects),
            None => {
                let (next, effects) = self.passed_on(notification, target);
                (next, before_passing_on(notification, servers) + effects)
            },
        }
    }

    /// What becomes of a request before it is noted. `unsupported` tells whether the client cannot
    /// answer it, and `thread_id` which thread it came from.
    pub open spec fn request_begun(
        self,
        request: ServerRequestView,
        unsupported: Option<UnsupportedRequestView>,
        thread_id: Option<ThreadId>,
    ) -> (RequestStepView, Seq<AppEffectView>) {
        match (unsupported, thread_id) {
            (Some(unsupported), _) => (RequestStepView::Rejected, turned_down(unsupported)),
            (None, None) => (
                RequestStepView::Rejected,
                turned_down(
                    UnsupportedRequestView {
                        request_id: request_id_of(request),
                        message: "Threadless app-server requests are not available in TUI yet."@,
                    },
                ),
            ),
            (None, Some(thread_id)) => if self.is_closed(thread_id) {
                (
                    RequestStepView::Rejected,
                    seq![
                        AppEffectView::RejectRequest {
                            request_id: request_id_of(request),
                            message: closed_message(thread_id),
                        },
                    ],
                )
            } else {
                (RequestStepView::Note { thread_id }, Seq::empty())
            },
        }
    }

    /// Once a request was noted. `unsupported` tells whether it turned out to be one that the
    /// client cannot answer.
    pub open spec fn request_ended(
        self,
        thread_id: ThreadId,
        request: ServerRequestView,
        unsupported: Option<UnsupportedRequestView>,
    ) -> (AppView, Seq<AppEffectView>) {
        match unsupported {
            Some(unsupported) => (self, turned_down(unsupported)),
            None => {
                let (next, effects, result) = if self.primary_thread_id == Some(thread_id)
                    || self.primary_thread_id is None {
                    self.primary_requested(request)
                } else {
                    self.requested(thread_id, request)
                };
                (
                    next,
                    if result == ThreadRequestEnqueueResult::ThreadClosed {
                        effects + seq![
                            AppEffectView::DiscardPendingRequest {
                                request_id: request_id_of(request),
                            },
                            AppEffectView::RejectRequest {
                                request_id: request_id_of(request),
                                message: closed_message(thread_id),
                            },
                        ]
                    } else {
                        effects
                    },
                )
            },
        }
    }
}

/// The names of the tool servers that are enabled: those whose start the client waits for.
pub fn refresh_mcp_startup_expected_servers_from_config(servers: &Vec<McpServer>) -> (effect: AppEffect)
    ensures
        effect.deep_view() == (AppEffectView::SetMcpStartupExpectedServers {
            names: enabled_names(servers.deep_view()),
        }),
{
    let ghost all = servers.deep_view();
    let ghost keep = |server: McpServerView| server.enabled;
    let ghost name = |server: McpServerView| server.name;
    let mut names: Vec<String> = Vec::new();
    let mut i: usize = 0;
    assert(all.take(0).filter(keep).map_values(name) =~= Seq::<Seq<char>>::empty()) by {
        reveal(Seq::filter);
    }
    assert(names.deep_view() =~= Seq::<Seq<char>>::empty());
    while i < servers.len()
        invariant
            i <= servers@.len(),
            all == servers.deep_view(),
            keep == (|server: McpServerView| server.enabled),
            name == (|server: McpServerView| server.name),
            names.deep_view() == all.take(i as int).filter(keep).map_values(name),
        decreases servers@.len() - i,
    {
        let ghost kept = all.take(i as int).filter(keep);
        let ghost before = names.deep_view();
        proof {
            assert(servers@[i as int].deep_view() == all[i as int]);
            assert(all.take(i + 1).drop_last() =~= all.take(i as int));
            assert(all.take(i + 1).filter(keep) == (if keep(all[i as int]) {
                kept.push(all[i as int])
            } else {
                kept
            })) by {
                reveal(Seq::filter);
            }
        }
        if servers[i].enabled {
            names.push(servers[i].name.clone());
            assert(names.deep_view() =~= before.push(name(all[i as int])));
            assert(kept.push(all[i as int]).map_values(name) =~= before.push(name(all[i as int])));
        }
        i = i + 1;
    }
    assert(all.take(i as int) =~= all);
    AppEffect::SetMcpStartupExpectedServers { names }
}

/// What a request is answered by.
pub fn request_id(request: &ServerRequest) -> (id: RequestId)
    ensures
        id.deep_view() == request_id_of(request.deep_view()),
{
    match request {
        ServerRequest::CommandExecutionRequestApproval { request_id, .. } => request_id.duplicate(),
        ServerRequest::FileChangeRequestApproval { request_id, .. } => request_id.duplicate(),
        ServerRequest::PermissionsRequestApproval { request_id, .. } => request_id.duplicate(),
        ServerRequest::McpServerElicitationRequest { request_id, .. } => request_id.duplicate(),
        ServerRequest::ToolRequestUserInput { request_id, .. } => request_id.duplicate(),
        ServerRequest::Other { request_id, .. } => request_id.duplicate(),
    }
}

/// The message for a request of a closed thread.
fn thread_closed_message(thread_id: ThreadId) -> (message: String)
    ensures
        message@ == closed_message(thread_id),
{
    let id = thread_id.to_text();
    "Thread ".to_owned().concat(id.as_str()).concat(" is closed.")
}

/// Turns a request down, and tells the user.
fn turn_down(unsupported: UnsupportedRequest) -> (effects: Vec<AppEffect>)
    ensures
        effects.deep_view() == turned_down(unsupported.deep_view()),
{
    let mut effects = no_effects();
    push_effect(
        &mut effects,
        AppEffect::AddErrorMessage { message: unsupported.message.clone() },
    );
    push_effect(
        &mut effects,
        AppEffect::RejectRequest {
            request_id: unsupported.request_id,
            message: unsupported.message,
        },
    );
    assert(effects.deep_view() =~= turned_down(unsupported.deep_view()));
    effects
}

/// The steps for a notification that is about the whole session and about nothing else.
fn take_session_news(notification: &ServerNotification) -> (news: Option<Vec<AppEffect>>)
    ensures
        news.deep_view() == session_news(notification.deep_view()),
{
    let mut effects = no_effects();
    match notification {
        ServerNotification::AccountUpdated { auth_mode, plan_type } => {
            let is_chatgpt = match auth_mode {
                Some(mode) => *mode == AuthMode::Chatgpt || *mode == AuthMode::ChatgptAuthTokens,
                None => false,
            };
            push_effect(
                &mut effects,
                AppEffect::UpdateAccountState {
                    auth_mode: *auth_mode,
                    plan_type: plan_type.duplicate(),
                    is_chatgpt,
                },
            );
        },
        ServerNotification::Notice { kind, payload } => match kind {
            NoticeKind::AccountRateLimitsUpdated => {
                push_effect(
                    &mut effects,
                    AppEffect::UpdateRateLimits { payload: payload.clone() },
                );
            },
            NoticeKind::ExternalAgentConfigImportCompleted => {
                push_effect(&mut effects, AppEffect::RefreshConfigAfterImport);
                push_effect(&mut effects, AppEffect::RefreshPluginMentions);
                push_effect(&mut effects, AppEffect::SubmitOp { op: AppCommand::ReloadUserConfig });
                push_effect(&mut effects, AppEffect::FetchPluginsList);
            },
            _ => {
                return None;
            },
        },
        _ => {
            return None;
        },
    }
    assert(effects.deep_view() =~= session_news(notification.deep_view())->0);
    Some(effects)
}

/// The steps that come before a notification is passed on.
fn prepare_passing_on(notification: &ServerNotification, servers: &Vec<McpServer>) -> (effects: Vec<
    AppEffect,
>)
    ensures
        effects.deep_view() == before_passing_on(notification.deep_view(), servers.deep_view()),
{
    let mut effects = no_effects();
    match notification {
        ServerNotification::ServerRequestResolved { request_id } => {
            push_effect(
                &mut effects,
                AppEffect::DismissResolvedRequest { request_id: request_id.duplicate() },
            );
        },
        ServerNotification::Notice { kind, .. } => {
            if *kind == NoticeKind::McpServerStatusUpdated {
                push_effect(
                    &mut effects,
                    refresh_mcp_startup_expected_servers_from_config(servers),
                );
            }
        },
        _ => {},
    }
    assert(effects.deep_view() =~= before_passing_on(
        notification.deep_view(),
        servers.deep_view(),
    ));
    effects
}

/// The steps after events were lost: the client stops waiting for tool servers, whose news may be
/// among what was lost.
pub fn handle_lag(servers: &Vec<McpServer>) -> (effects: Vec<AppEffect>)
    ensures
        effects.deep_view() == seq![
            AppEffectView::SetMcpStartupExpectedServers {
                names: enabled_names(servers.deep_view()),
            },
            AppEffectView::FinishMcpStartupAfterLag,
        ],
{
    let mut effects = no_effects();
    push_effect(&mut effects, refresh_mcp_startup_expected_servers_from_config(servers));
    push_effect(&mut effects, AppEffect::FinishMcpStartupAfterLag);
    assert(effects.deep_view() =~= seq![
        AppEffectView::SetMcpStartupExpectedServers { names: enabled_names(servers.deep_view()) },
        AppEffectView::FinishMcpStartupAfterLag,
    ]);
    effects
}

/// The steps once the connection is gone: the user is told why, and the client leaves.
pub fn handle_disconnect(message: String) -> (effects: Vec<AppEffect>)
    ensures
        effects.deep_view() == seq![
            AppEffectView::AddErrorMessage { message: message@ },
            AppEffectView::FatalExitRequest { message: message@ },
        ],
{
    let mut effects = no_effects();
    push_effect(&mut effects, AppEffect::AddErrorMessage { message: message.clone() });
    push_effect(&mut effects, AppEffect::FatalExitRequest { message });
    assert(effects.deep_view() =~= seq![
        AppEffectView::AddErrorMessage { message: message@ },
        AppEffectView::FatalExitRequest { message: message@ },
    ]);
    effects
}

/// What becomes of something that the server sends.
#[derive(Debug)]
pub enum ServerEventStep {
    /// The steps for it are these.
    Done(Vec<AppEffect>),
    /// It is a notification, see [`App::handle_server_notification_event`].
    Notification(ServerNotification),
    /// It is a request, see [`App::handle_server_request_event`].
    Request(ServerRequest),
}

/// Takes what the server sends.
pub fn handle_app_server_event(event: AppServerEvent, servers: &Vec<McpServer>) -> (step: ServerEventStep)
    ensures
        match event {
            AppServerEvent::Lagged { .. } => step matches ServerEventStep::Done(effects)
                && effects.deep_view() == seq![
                AppEffectView::SetMcpStartupExpectedServers {
                    names: enabled_names(servers.deep_view()),
                },
                AppEffectView::FinishMcpStartupAfterLag,
            ],
            AppServerEvent::ServerNotification(notification) => step == ServerEventStep::Notification(
                notification,
            ),
            AppServerEvent::ServerRequest(request) => step == ServerEventStep::Request(request),
            AppServerEvent::Disconnected { message } => step matches ServerEventStep::Done(effects)
                && effects.deep_view() == seq![
                AppEffectView::AddErrorMessage { message: message@ },
                AppEffectView::FatalExitRequest { message: message@ },
            ],
        },
{
    match event {
        AppServerEvent::Lagged { .. } => ServerEventStep::Done(handle_lag(servers)),
        AppServerEvent::ServerNotification(notification) => ServerEventStep::Notification(
            notification,
        ),
        AppServerEvent::ServerRequest(request) => ServerEventStep::Request(request),
        AppServerEvent::Disconnected { message } => ServerEventStep::Done(
            handle_disconnect(message),
        ),
    }
}

impl App {
    /// Takes a notification from the server: news of the whole session are shown, and everything
    /// else goes to the thread that it is about.
    pub fn handle_server_notification_event(
        &mut self,
        notification: ServerNotification,
        target: NotificationTarget,
        servers: &Vec<McpServer>,
    ) -> (effects: Vec<AppEffect>)
        ensures
            (final(self)@, effects.deep_view()) == old(self)@.server_notified(
                notification.deep_view(),
                target.deep_view(),
                servers.deep_view(),
            ),
    {
        if let Some(effects) = take_session_news(&notification) {
            return effects;
        }
        let mut effects = prepare_passing_on(&notification, servers);
        let passing_on = match target {
            NotificationTarget::Thread(thread_id) => {
                if same_id(self.primary_thread_id, thread_id) || self.primary_thread_id.is_none() {
                    self.enqueue_primary_thread_notification(notification)
                } else {
                    self.enqueue_thread_notification(thread_id, notification)
                }
            },
            NotificationTarget::InvalidThreadId(_) => no_effects(),
            NotificationTarget::Global => {
                let mut showing = no_effects();
                push_effect(&mut showing, AppEffect::HandleNotification { notification });
                assert(showing.deep_view() =~= seq![
                    AppEffectView::HandleNotification { notification: notification.deep_view() },
                ]);
                showing
            },
        };
        push_effects(&mut effects, passing_on);
        effects
    }

    /// Takes a request from the server, up to where it is noted: one that the client cannot
    /// answer, that comes from no thread or from a closed one, is turned down.
    pub fn handle_server_request_event(
        &self,
        request: &ServerRequest,
        unsupported: Option<UnsupportedRequest>,
        thread_id: Option<ThreadId>,
    ) -> (step: (RequestStep, Vec<AppEffect>))
        ensures
            (step.0.deep_view(), step.1.deep_view()) == self@.request_begun(
                request.deep_view(),
                unsupported.deep_view(),
                thread_id,
            ),
    {
        if let Some(unsupported) = unsupported {
            return (RequestStep::Rejected, turn_down(unsupported));
        }
        let thread_id = match thread_id {
            Some(thread_id) => thread_id,
            None => {
                let unsupported = UnsupportedRequest {
                    request_id: request_id(request),
                    message: "Threadless app-server requests are not available in TUI yet.".to_owned(
                    ),
                };
                return (RequestStep::Rejected, turn_down(unsupported));
            },
        };
        let mut effects = no_effects();
        if self.thread_is_closed_or_marked_closed(thread_id) {
            push_effect(
                &mut effects,
                AppEffect::RejectRequest {
                    request_id: request_id(request),
                    message: thread_closed_message(thread_id),
                },
            );
            assert(effects.deep_view() =~= self@.request_begun(
                request.deep_view(),
                unsupported.deep_view(),
                Some(thread_id),
            ).1);
            return (RequestStep::Rejected, effects);
        }
        (RequestStep::Note { thread_id }, effects)
    }

    /// Takes a request that was noted to its thread. Where the thread turns out to be closed, the
    /// request is forgotten and turned down.
    pub fn enqueue_noted_request(
        &mut self,
        thread_id: ThreadId,
        request: ServerRequest,
        unsupported: Option<UnsupportedRequest>,
    ) -> (effects: Vec<AppEffect>)
        ensures
            (final(self)@, effects.deep_view()) == old(self)@.request_ended(
                thread_id,
                request.deep_view(),
                unsupported.deep_view(),
            ),
    {
        if let Some(unsupported) = unsupported {
            return turn_down(unsupported);
        }
        let id = request_id(&request);
        let (mut effects, result) = if same_id(self.primary_thread_id, thread_id)
            || self.primary_thread_id.is_none() {
            self.enqueue_primary_thread_request(request)
        } else {
            self.enqueue_thread_request(thread_id, request)
        };
        match result {
            ThreadRequestEnqueueResult::Enqueued => {},
            ThreadRequestEnqueueResult::ThreadClosed => {
                let ghost before = effects.deep_view();
                push_effect(
                    &mut effects,
                    AppEffect::DiscardPendingRequest { request_id: id.duplicate() },
                );
                push_effect(
                    &mut effects,
                    AppEffect::RejectRequest {
                        request_id: id,
                        message: thread_closed_message(thread_id),
                    },
                );
                assert(effects.deep_view() =~= before + seq![
                    AppEffectView::DiscardPendingRequest {
                        request_id: request_id_of(request.deep_view()),
                    },
                    AppEffectView::RejectRequest {
                        request_id: request_id_of(request.deep_view()),
                        message: closed_message(thread_id),
                    },
                ]);
            },
        }
        effects
    }
}

} // verus!
