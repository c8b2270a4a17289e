//! What becomes of what the server sends.
use crate::agent_navigation::{entry_of, AgentEntryView};
use crate::app_state::AppView;
use crate::effects::AppEffectView;
use crate::interactive::presented;
use crate::protocol::{
    AppCommandView, AuthMode, HistoryLookupResponseView, NoticeKind, ServerNotificationView,
    ServerRequestView, StartedThreadView, ThreadBufferedEventView, ThreadSessionStateView,
};
use crate::server_events::{
    enabled_names, request_id_of, McpServerView, NotificationTargetView, RequestStepView,
    UnsupportedRequestView,
};
use crate::thread_events::ThreadEventStoreView;
use crate::thread_id::{id_text, ThreadId};
use crate::thread_routing::{
    outcome_shown, started_agent, started_session, woken, NotificationOutcomeView,
    ThreadRequestEnqueueResult,
};
use vstd::prelude::*;

verus! {

/// A store takes a notification in: it is kept, unless what it says of a terminal has it dropped. A
/// session that was inferred counts where none was known. A prompt that the notification has led to
/// is started, or else the oldest that waits, where the thread has become idle. The screen is sent
/// the notification where the thread is on it and the notification was kept, and is told what the
/// thread waits for.
pub proof fn law_notification_is_taken_in(
    store: ThreadEventStoreView,
    inferred: Option<ThreadSessionStateView>,
    notification: ServerNotificationView,
)
    ensures
        ({
            let known = ThreadEventStoreView {
                session: if store.session is Some {
                    store.session
                } else {
                    inferred
                },
                ..store
            };
            let (watched, result) = known.watched(notification);
            let (next, outcome) = store.taken_in(inferred, notification);
            let kept = watched.notified(notification);
            &&& outcome.drop_notification == result.drop_notification
            &&& outcome.should_send == (next.active && !result.drop_notification)
            &&& outcome.pending_status == next.waits_for()
            &&& result.wakeup_text is Some && result.drop_notification ==> (next, outcome.wakeup_op)
                == watched.wakeup_started(result.wakeup_text)
            &&& result.wakeup_text is Some && !result.drop_notification ==> (
                next,
                outcome.wakeup_op,
            ) == kept.wakeup_started(result.wakeup_text)
            &&& result.wakeup_text is None && result.drop_notification ==> (next, outcome.wakeup_op)
                == watched.wakeup_taken().0.wakeup_started(watched.wakeup_taken().1)
            &&& result.wakeup_text is None && !result.drop_notification ==> (
                next,
                outcome.wakeup_op,
            ) == kept.wakeup_taken().0.wakeup_started(kept.wakeup_taken().1)
        }),
{
    if store.session is None && inferred is None {
        assert(ThreadEventStoreView { session: inferred, ..store } =~= store);
    }
}

/// A notification of a thread that is on screen and waits for nothing is sent to it; the status of
/// its side conversation is told by what it waits for, or else by the notification, unless that was
/// dropped. A prompt that is started goes to the server as a command on the thread.
pub proof fn law_outcome_is_shown(
    thread_id: ThreadId,
    notification: ServerNotificationView,
    outcome: NotificationOutcomeView,
    op: AppCommandView,
)
    ensures
        ({
            let shown = outcome_shown(thread_id, notification, outcome);
            let sent = AppEffectView::SendEvent {
                thread_id,
                event: ThreadBufferedEventView::Notification(notification),
            };
            let from: int = if outcome.should_send {
                1
            } else {
                0
            };
            &&& outcome.should_send ==> shown.len() > 0 && shown[0] == sent
            &&& outcome.pending_status is Some ==> shown.len() == from + 1 && shown[from] == (
            AppEffectView::SetSideParentStatus {
                thread_id,
                status: outcome.pending_status->0,
            })
            &&& outcome.pending_status is None && !outcome.drop_notification ==> shown.len() == from
                + 1 && shown[from] == (AppEffectView::ApplyNotificationStatus {
                thread_id,
                notification,
            })
            &&& outcome.pending_status is None && outcome.drop_notification ==> shown.len() == from
        }),
        woken(thread_id, None).len() == 0,
        woken(thread_id, Some(op)) == seq![AppEffectView::SubmitThreadOp { thread_id, op }],
{
}

/// The session of a thread that has started is the primary one, but for what the notification says:
/// its id, its name, its provider, its directory and its record. Its model is the recorded one;
/// where there is a record without it, none is known. There is no message history yet.
pub proof fn law_started_thread_inherits_the_session(
    primary: ThreadSessionStateView,
    thread_id: ThreadId,
    thread: StartedThreadView,
)
    ensures
        ({
            let session = started_session(
                primary,
                thread_id,
                ServerNotificationView::ThreadStarted { thread },
            );
            &&& session.thread_id == thread_id
            &&& session.thread_name == thread.name
            &&& session.model_provider_id == thread.model_provider
            &&& session.cwd == thread.cwd
            &&& session.rollout_path == thread.path
            &&& session.message_history is None
            &&& thread.recorded_model is Some ==> session.model == thread.recorded_model->0
            &&& thread.recorded_model is None && thread.path is Some ==> session.model.len() == 0
            &&& thread.recorded_model is None && thread.path is None ==> session.model
                == primary.model
            &&& session.service_tier == primary.service_tier
            &&& session.approval_policy == primary.approval_policy
            &&& session.approvals_reviewer == primary.approvals_reviewer
            &&& session.permission_profile == primary.permission_profile
            &&& session.active_permission_profile == primary.active_permission_profile
            &&& session.reasoning_effort == primary.reasoning_effort
            &&& session.forked_from_id == primary.forked_from_id
            &&& session.fork_parent_title == primary.fork_parent_title
            &&& session.discovery_cwd == primary.discovery_cwd
            &&& session.instruction_source_paths == primary.instruction_source_paths
            &&& session.network_proxy == primary.network_proxy
        }),
        ({
            let entry: AgentEntryView = started_agent(
                thread_id,
                ServerNotificationView::ThreadStarted { thread },
            );
            &&& entry.thread_id == thread_id
            &&& entry.agent_nickname == thread.agent_nickname
            &&& entry.agent_role == thread.agent_role
            &&& !entry.is_closed
        }),
{
}

/// Only the start of a thread, once the primary session is known, tells a session and an agent.
pub proof fn law_only_a_start_tells_a_session(
    app: AppView,
    thread_id: ThreadId,
    notification: ServerNotificationView,
)
    ensures
        ({
            let (next, inferred, effects) = app.session_inferred(thread_id, notification);
            if notification is ThreadStarted && app.primary_session is Some {
                &&& inferred == Some(
                    started_session(app.primary_session->0, thread_id, notification),
                )
                &&& next == app.with_agent(started_agent(thread_id, notification))
                &&& effects == seq![AppEffectView::AgentEntryChanged { thread_id }]
            } else {
                next == app && inferred is None && effects.len() == 0
            }
        }),
{
}

/// What comes in for a discarded thread is ignored, and so is the end of a thread that nobody has
/// heard of; nothing else is.
pub proof fn law_what_is_ignored(
    app: AppView,
    thread_id: ThreadId,
    notification: ServerNotificationView,
)
    ensures
        app.ignores(thread_id, notification) <==> app.discarded.contains(thread_id) || (
        notification is ThreadClosed && app.primary_thread_id != Some(thread_id) && app.store_of(
            thread_id,
        ) is None && entry_of(app.agents, thread_id) is None && !app.is_side(thread_id)),
        app.ignores(thread_id, notification) ==> app.notified(thread_id, notification).0 == app
            && app.notified(thread_id, notification).1.len() == 0,
{
}

/// A notification that is not ignored goes to the store of its thread, which is made where there is
/// none. The end of a subagent that is not on screen is told to the main agent. The steps come in
/// this order: what was learnt of a session, what the notification shows, the end of the subagent,
/// the prompt, and the lists.
pub proof fn law_notification_is_routed_to_its_thread(
    app: AppView,
    thread_id: ThreadId,
    notification: ServerNotificationView,
)
    requires
        !app.ignores(thread_id, notification),
    ensures
        ({
            let (known, inferred, learning) = app.session_inferred(thread_id, notification);
            let ensured = known.with_channel_for(thread_id);
            let (store, outcome) = ensured.store_of(thread_id)->0.taken_in(inferred, notification);
            let kept = ensured.with_store(thread_id, store);
            let tells = notification is ThreadClosed && kept.active_thread_id != Some(thread_id)
                && kept.should_wake_primary(thread_id);
            let (next, effects) = app.notified(thread_id, notification);
            &&& tells ==> next == kept.subagent_closed(thread_id).0
            &&& !tells ==> next == kept
            &&& effects == learning + outcome_shown(thread_id, notification, outcome) + (if tells {
                kept.subagent_closed(thread_id).1
            } else {
                Seq::empty()
            }) + woken(thread_id, outcome.wakeup_op) + seq![
                next.terminals_listed(),
                next.approvals_listed(),
            ]
        }),
{
}

/// A request for a closed thread is turned down and changes nothing that is kept. Any other is kept
/// in the store of its thread. Where the thread is on screen, the request is sent to it; else it is
/// put to the user, unless a side conversation is on screen, or declined for them. Then the status
/// of the thread and the list of those that wait are shown.
pub proof fn law_request_is_routed_to_its_thread(
    app: AppView,
    thread_id: ThreadId,
    request: ServerRequestView,
)
    ensures
        ({
            let (next, effects, result) = app.requested(thread_id, request);
            let ensured = app.with_channel_for(thread_id);
            let before = ensured.store_of(thread_id)->0;
            let gone = app.discarded.contains(thread_id) || (entry_of(
                app.agents,
                thread_id,
            ) is Some && entry_of(app.agents, thread_id)->0.is_closed);
            &&& gone ==> next == app && effects.len() == 0 && result
                == ThreadRequestEnqueueResult::ThreadClosed
            &&& !gone && before.closed ==> next == ensured && effects.len() == 0 && result
                == ThreadRequestEnqueueResult::ThreadClosed
            &&& !gone && !before.closed ==> {
                let store = before.requested(request);
                let kept = ensured.with_store(thread_id, store);
                let shown = kept.presentation_of(thread_id, request);
                let elsewhere = kept.active_thread_id != Some(thread_id);
                &&& result == ThreadRequestEnqueueResult::Enqueued
                &&& next == kept
                &&& effects == (if elsewhere && shown is DeclineElicitation {
                    presented(shown)
                } else {
                    Seq::empty()
                }) + (if store.active {
                    seq![
                        AppEffectView::SendEvent {
                            thread_id,
                            event: ThreadBufferedEventView::Request(request),
                        },
                    ]
                } else if elsewhere && shown is Show && kept.side_parent() is None {
                    presented(shown)
                } else {
                    Seq::empty()
                }) + seq![
                    (match store.waits_for() {
                        Some(status) => AppEffectView::SetSideParentStatus { thread_id, status },
                        None => AppEffectView::ApplyRequestStatus { thread_id, request },
                    }),
                    kept.approvals_listed(),
                ]
            }
        }),
{
}

/// An entry of the message history is kept for its thread and, where the thread is on screen, sent
/// to it; a closed thread gets none.
pub proof fn law_history_entry_is_routed_to_its_thread(
    app: AppView,
    thread_id: ThreadId,
    response: HistoryLookupResponseView,
)
    ensures
        app.is_closed(thread_id) ==> app.history_looked_up(thread_id, response).0 == app
            && app.history_looked_up(thread_id, response).1.len() == 0,
        !app.is_closed(thread_id) ==> {
            let (next, effects) = app.history_looked_up(thread_id, response);
            let ensured = app.with_channel_for(thread_id);
            let event = ThreadBufferedEventView::HistoryEntryResponse(response);
            let store = ensured.store_of(thread_id)->0.buffered(event);
            &&& next == ensured.with_store(thread_id, store)
            &&& store.active ==> effects == seq![AppEffectView::SendEvent { thread_id, event }]
            &&& !store.active ==> effects.len() == 0
        },
{
}

/// What has waited for the primary thread is taken in event by event, each as if it came then, and
/// in its order.
pub proof fn law_waiting_events_are_taken_in_order(
    app: AppView,
    thread_id: ThreadId,
    events: Seq<ThreadBufferedEventView>,
    event: ThreadBufferedEventView,
)
    ensures
        app.events_taken_in(thread_id, Seq::empty()).0 == app,
        app.events_taken_in(thread_id, Seq::empty()).1.len() == 0,
        ({
            let (before, effects) = app.events_taken_in(thread_id, events);
            let (next, more) = app.events_taken_in(thread_id, events.push(event));
            &&& event matches ThreadBufferedEventView::Notification(notification) ==> next
                == before.notified(thread_id, notification).0 && more == effects + before.notified(
                thread_id,
                notification,
            ).1
            &&& event matches ThreadBufferedEventView::Request(request) ==> next
                == before.requested(thread_id, request).0 && more == effects + before.requested(
                thread_id,
                request,
            ).1
            &&& event matches ThreadBufferedEventView::HistoryEntryResponse(response) ==> next
                == before.history_looked_up(thread_id, response).0 && more == effects
                + before.history_looked_up(thread_id, response).1
            &&& event is FeedbackSubmission ==> next == before && more == effects + seq![
                AppEffectView::EnqueueFeedback { thread_id, event },
            ]
        }),
{
    assert(events.push(event).drop_last() =~= events);
}

/// What comes in for the primary thread goes to it where it is known, and waits at the end of the
/// list where it is not.
pub proof fn law_primary_thread_gets_its_events(
    app: AppView,
    notification: ServerNotificationView,
    request: ServerRequestView,
)
    ensures
        match app.primary_thread_id {
            Some(primary) => {
                &&& app.primary_notified(notification) == app.notified(primary, notification)
                &&& app.primary_requested(request) == app.requested(primary, request)
            },
            None => {
                &&& app.primary_notified(notification).0 == (AppView {
                    pending_primary_events: app.pending_primary_events.push(
                        ThreadBufferedEventView::Notification(notification),
                    ),
                    ..app
                })
                &&& app.primary_notified(notification).1.len() == 0
                &&& app.primary_requested(request).0 == (AppView {
                    pending_primary_events: app.pending_primary_events.push(
                        ThreadBufferedEventView::Request(request),
                    ),
                    ..app
                })
                &&& app.primary_requested(request).1.len() == 0
                &&& app.primary_requested(request).2 == ThreadRequestEnqueueResult::Enqueued
            },
        },
{
}

/// A notification for a thread goes to that thread, or waits while the primary thread is not known;
/// one for the whole session goes to the screen; one for what is no thread is dropped.
pub proof fn law_notification_goes_to_its_target(
    app: AppView,
    notification: ServerNotificationView,
    thread_id: ThreadId,
    text: Seq<char>,
)
    ensures
        app.primary_thread_id is None ==> app.passed_on(
            notification,
            NotificationTargetView::Thread(thread_id),
        ) == app.primary_notified(notification),
        app.primary_thread_id is Some ==> app.passed_on(
            notification,
            NotificationTargetView::Thread(thread_id),
        ) == app.notified(thread_id, notification),
        app.passed_on(notification, NotificationTargetView::InvalidThreadId(text)).0 == app,
        app.passed_on(notification, NotificationTargetView::InvalidThreadId(text)).1.len() == 0,
        app.passed_on(notification, NotificationTargetView::Global) == (
            app,
            seq![AppEffectView::HandleNotification { notification }],
        ),
{
}

/// News of the account and of an import are for the session alone and go no further. Before a
/// notification is passed on, a request that it resolves is taken off the screen, and where tool
/// servers have news, those that are enabled are expected.
pub proof fn law_news_of_the_session(
    app: AppView,
    notification: ServerNotificationView,
    target: NotificationTargetView,
    servers: Seq<McpServerView>,
)
    ensures
        ({
            let (next, effects) = app.server_notified(notification, target, servers);
            match notification {
                ServerNotificationView::AccountUpdated { auth_mode, plan_type } => {
                    &&& next == app
                    &&& effects.len() == 1
                    &&& effects[0] == (AppEffectView::UpdateAccountState {
                        auth_mode,
                        plan_type,
                        is_chatgpt: auth_mode is Some && (auth_mode->0 == AuthMode::Chatgpt
                            || auth_mode->0 == AuthMode::ChatgptAuthTokens),
                    })
                },
                ServerNotificationView::Notice { kind, payload } => if kind
                    == NoticeKind::AccountRateLimitsUpdated {
                    next == app && effects == seq![AppEffectView::UpdateRateLimits { payload }]
                } else if kind == NoticeKind::ExternalAgentConfigImportCompleted {
                    next == app && effects == seq![
                        AppEffectView::RefreshConfigAfterImport,
                        AppEffectView::RefreshPluginMentions,
                        AppEffectView::SubmitOp { op: AppCommandView::ReloadUserConfig },
                        AppEffectView::FetchPluginsList,
                    ]
                } else if kind == NoticeKind::McpServerStatusUpdated {
                    let (passed, more) = app.passed_on(notification, target);
                    next == passed && effects == seq![
                        AppEffectView::SetMcpStartupExpectedServers {
                            names: enabled_names(servers),
                        },
                    ] + more
                } else {
                    (next, effects) == app.passed_on(notification, target)
                },
                ServerNotificationView::ServerRequestResolved { request_id } => {
                    let (passed, more) = app.passed_on(notification, target);
                    next == passed && effects == seq![
                        AppEffectView::DismissResolvedRequest { request_id },
                    ] + more
                },
                _ => (next, effects) == app.passed_on(notification, target),
            }
        }),
{
    let (passed, more) = app.passed_on(notification, target);
    assert(Seq::<AppEffectView>::empty() + more =~= more);
}

/// The tool servers that are expected are the enabled ones, by name and in their order.
pub proof fn law_enabled_servers_are_expected(servers: Seq<McpServerView>, server: McpServerView)
    ensures
        enabled_names(Seq::empty()).len() == 0,
        server.enabled ==> enabled_names(servers.push(server)) == enabled_names(servers).push(
            server.name,
        ),
        !server.enabled ==> enabled_names(servers.push(server)) == enabled_names(servers),
{
    let enabled = |server: McpServerView| server.enabled;
    reveal(Seq::filter);
    assert(servers.push(server).drop_last() =~= servers);
    assert(enabled_names(Seq::empty()) =~= Seq::<Seq<char>>::empty());
    let all = enabled_names(servers.push(server));
    if server.enabled {
        assert(servers.push(server).filter(enabled) == servers.filter(enabled).push(server));
        assert(all =~= enabled_names(servers).push(server.name));
    } else {
        assert(servers.push(server).filter(enabled) == servers.filter(enabled));
    }
}

/// A request that cannot be served is answered with the reason, under its own id, and the user is
/// told so. One without a thread is such a request; one for a closed thread is answered without a
/// word to the user. Any other is noted for its thread.
pub proof fn law_request_is_noted_or_answered(
    app: AppView,
    request: ServerRequestView,
    unsupported: UnsupportedRequestView,
    thread_id: ThreadId,
    any: Option<ThreadId>,
)
    ensures
        app.request_begun(request, Some(unsupported), any) == (
            RequestStepView::Rejected,
            seq![
                AppEffectView::AddErrorMessage { message: unsupported.message },
                AppEffectView::RejectRequest {
                    request_id: unsupported.request_id,
                    message: unsupported.message,
                },
            ],
        ),
        app.request_begun(request, None, None) == (
            RequestStepView::Rejected,
            seq![
                AppEffectView::AddErrorMessage {
                    message: "Threadless app-server requests are not available in TUI yet."@,
                },
                AppEffectView::RejectRequest {
                    request_id: request_id_of(request),
                    message: "Threadless app-server requests are not available in TUI yet."@,
                },
            ],
        ),
        app.is_closed(thread_id) ==> app.request_begun(request, None, Some(thread_id)) == (
            RequestStepView::Rejected,
            seq![
                AppEffectView::RejectRequest {
                    request_id: request_id_of(request),
                    message: "Thread "@ + id_text(thread_id) + " is closed."@,
                },
            ],
        ),
        !app.is_closed(thread_id) ==> app.request_begun(request, None, Some(thread_id)).0 == (
        RequestStepView::Note { thread_id }) && app.request_begun(
            request,
            None,
            Some(thread_id),
        ).1.len() == 0,
{
}

/// A request that was noted goes to its thread, or waits while the primary thread is not known. One
/// whose thread has closed is forgotten and answered so.
pub proof fn law_noted_request_is_routed(
    app: AppView,
    thread_id: ThreadId,
    request: ServerRequestView,
    unsupported: UnsupportedRequestView,
)
    ensures
        app.request_ended(thread_id, request, Some(unsupported)) == (
            app,
            seq![
                AppEffectView::AddErrorMessage { message: unsupported.message },
                AppEffectView::RejectRequest {
                    request_id: unsupported.request_id,
                    message: unsupported.message,
                },
            ],
        ),
        ({
            let (next, effects, result) = if app.primary_thread_id is None {
                app.primary_requested(request)
            } else {
                app.requested(thread_id, request)
            };
            &&& app.request_ended(thread_id, request, None).0 == next
            &&& result == ThreadRequestEnqueueResult::Enqueued ==> app.request_ended(
                thread_id,
                request,
                None,
            ).1 == effects
            &&& result == ThreadRequestEnqueueResult::ThreadClosed ==> app.request_ended(
                thread_id,
                request,
                None,
            ).1 == effects + seq![
                AppEffectView::DiscardPendingRequest { request_id: request_id_of(request) },
                AppEffectView::RejectRequest {
                    request_id: request_id_of(request),
                    message: "Thread "@ + id_text(thread_id) + " is closed."@,
                },
            ]
        }),
{
}

/// A request is answered under the id that it carries.
pub proof fn law_request_carries_its_id(request: ServerRequestView)
    ensures
        match request {
            ServerRequestView::CommandExecutionRequestApproval { request_id, .. } => request_id_of(
                request,
            ) == request_id,
            ServerRequestView::FileChangeRequestApproval { request_id, .. } => request_id_of(
                request,
            ) == request_id,
            ServerRequestView::PermissionsRequestApproval { request_id, .. } => request_id_of(
                request,
            ) == request_id,
            ServerRequestView::McpServerElicitationRequest { request_id, .. } => request_id_of(
                request,
            ) == request_id,
            ServerRequestView::ToolRequestUserInput { request_id, .. } => request_id_of(request)
                == request_id,
            ServerRequestView::Other { request_id, .. } => request_id_of(request) == request_id,
        },
{
}

} // verus!
