//! Where notifications and requests go: into the store of their thread, through the channel of a
//! thread that is on screen, or to the user right away.
use crate::agent_navigation::{entry_of, is_marked_closed, same_id, AgentEntry, AgentEntryView};
use crate::app_state::{channel_place, lemma_channel_place, App, AppView};
use crate::collections::Duplicate;
use crate::effects::{
    no_effects, push_effect, push_effects, AppEffect, AppEffectView, RequestPresentation,
    RequestPresentationView,
};
use crate::interactive::{present, presented};
use crate::protocol::{
    AppCommand, AppCommandView, HistoryLookupResponse, HistoryLookupResponseView,
    ServerNotification, ServerNotificationView, ServerRequest, ServerRequestView,
    ThreadBufferedEvent, ThreadBufferedEventView, ThreadSessionState, ThreadSessionStateView,
};
use crate::thread_events::{SideParentStatus, ThreadEventStore, ThreadEventStoreView};
use crate::thread_id::ThreadId;
use crate::wakeups::{plain_text_wakeup_command, wakeup_turn};
use vstd::prelude::*;

verus! {

/// What has become of a request.
#[derive(Debug, Clone, Copy, PartialEq, Eq, Structural)]
pub enum ThreadRequestEnqueueResult {
    Enqueued,
    ThreadClosed,
}

/// What a store has made of a notification.
#[derive(Debug)]
pub struct NotificationOutcome {
    /// Whether the notification goes through the channel.
    pub should_send: bool,
    /// What the thread waits for.
    pub pending_status: Option<SideParentStatus>,
    /// A turn to submit on the thread.
    pub wakeup_op: Option<AppCommand>,
    /// Whether the notification goes no further.
    pub drop_notification: bool,
}

/// What a [`NotificationOutcome`] means.
#[verifier::ext_equal]
pub ghost struct NotificationOutcomeView {
    pub should_send: bool,
    pub pending_status: Option<SideParentStatus>,
    pub wakeup_op: Option<AppCommandView>,
    pub drop_notification: bool,
}

impl DeepView for NotificationOutcome {
    type V = NotificationOutcomeView;

    open spec fn deep_view(&self) -> NotificationOutcomeView {
        NotificationOutcomeView {
            should_send: self.should_send,
            pending_status: self.pending_status,
            wakeup_op: self.wakeup_op.deep_view(),
            drop_notification: self.drop_notification,
        }
    }
}

impl ThreadEventStoreView {
    /// Once a prompt that was handed out cannot be submitted: it is kept with the input, where
    /// there is any.
    pub open spec fn wakeup_put_back(self, text: Seq<char>) -> ThreadEventStoreView {
        let next = self.wakeup_cancelled();
        ThreadEventStoreView {
            input_state: match next.input_state {
                Some(state) => Some(state.with_prompts(seq![text])),
                None => None,
            },
            ..next
        }
    }

    /// Once a prompt was handed out, and the turn that submits it. There is none without a
    /// session to take the settings from.
    pub open spec fn wakeup_started(self, text: Option<Seq<char>>) -> (
        ThreadEventStoreView,
        Option<AppCommandView>,
    ) {
        match (text, self.session) {
            (Some(text), Some(session)) => (self, Some(wakeup_turn(session, text))),
            (Some(text), None) => (self.wakeup_put_back(text), None),
            (None, _) => (self, None),
        }
    }

    /// Once a notification was taken in: looked at for background terminals, kept unless it goes
    /// no further, and followed by a prompt that is due.
    pub open spec fn taken_in(
        self,
        inferred_session: Option<ThreadSessionStateView>,
        notification: ServerNotificationView,
    ) -> (ThreadEventStoreView, NotificationOutcomeView) {
        let known = if self.session is None && inferred_session is Some {
            ThreadEventStoreView { session: inferred_session, ..self }
        } else {
            self
        };
        let (watched, result) = known.watched(notification);
        let kept = if result.drop_notification {
            watched
        } else {
            watched.notified(notification)
        };
        let (ready, text) = if result.wakeup_text is Some {
            (kept, result.wakeup_text)
        } else {
            kept.wakeup_taken()
        };
        let (next, wakeup_op) = ready.wakeup_started(text);
        (
            next,
            NotificationOutcomeView {
                should_send: next.active && !result.drop_notification,
                pending_status: next.waits_for(),
                wakeup_op,
                drop_notification: result.drop_notification,
            },
        )
    }
}

impl ThreadEventStore {
    /// Hands out the turn that submits a prompt, or keeps the prompt with the input where there
    /// is no session to take the settings from.
    pub fn start_wakeup(&mut self, text: Option<String>) -> (op: Option<AppCommand>)
        ensures
            (final(self)@, op.deep_view()) == old(self)@.wakeup_started(text.deep_view()),
    {
        let text = match text {
            Some(text) => text,
            None => {
                return None;
            },
        };
        match self.session.duplicate() {
            Some(session) => Some(plain_text_wakeup_command(&session, text)),
            None => {
                self.cancel_offscreen_wakeup_start();
                if let Some(input_state) = self.input_state.as_mut() {
                    input_state.queue_background_terminal_completion_prompt_for_restore(text);
                }
                None
            },
        }
    }

    /// Takes in a notification, and says what follows from it.
    pub fn take_in_notification(
        &mut self,
        inferred_session: Option<ThreadSessionState>,
        notification: &ServerNotification,
    ) -> (outcome: NotificationOutcome)
        ensures
            (final(self)@, outcome.deep_view()) == old(self)@.taken_in(
                inferred_session.deep_view(),
                notification.deep_view(),
            ),
    {
        if self.session.is_none() {
            if let Some(session) = inferred_session {
                self.session = Some(session);
            }
        }
        let result = self.track_inactive_background_terminal_notification(notification);
        let drop_notification = result.drop_notification;
        if !drop_notification {
            self.push_notification(notification.duplicate());
        }
        let text = match result.wakeup_text {
            Some(text) => Some(text),
            None => self.take_ready_offscreen_wakeup(),
        };
        let wakeup_op = self.start_wakeup(text);
        NotificationOutcome {
            should_send: self.active && !drop_notification,
            pending_status: self.side_parent_pending_status(),
            wakeup_op,
            drop_notification,
        }
    }
}

/// The entry for an agent that a thread was started for.
pub open spec fn started_agent(
    thread_id: ThreadId,
    notification: ServerNotificationView,
) -> AgentEntryView {
    AgentEntryView {
        thread_id,
        agent_nickname: notification->thread.agent_nickname,
        agent_role: notification->thread.agent_role,
        is_closed: false,
    }
}

/// The session of a thread that was started, as far as the primary session and the notification
/// tell. The model is the recorded one; where there is a record without it, none is known.
pub open spec fn started_session(
    primary: ThreadSessionStateView,
    thread_id: ThreadId,
    notification: ServerNotificationView,
) -> ThreadSessionStateView {
    let thread = notification->thread;
    ThreadSessionStateView {
        thread_id,
        thread_name: thread.name,
        model_provider_id: thread.model_provider,
        cwd: thread.cwd,
        model: match thread.recorded_model {
            Some(model) => model,
            None => if thread.path is Some {
                Seq::empty()
            } else {
                primary.model
            },
        },
        message_history: None,
        rollout_path: thread.path,
        ..primary
    }
}

/// The steps that pass a notification on, and show what its thread waits for.
pub open spec fn outcome_shown(
    thread_id: ThreadId,
    notification: ServerNotificationView,
    outcome: NotificationOutcomeView,
) -> Seq<AppEffectView> {
    let sending = if outcome.should_send {
        seq![
            AppEffectView::SendEvent {
                thread_id,
                event: ThreadBufferedEventView::Notification(notification),
            },
        ]
    } else {
        Seq::empty()
    };
    let status = match outcome.pending_status {
        Some(status) => seq![AppEffectView::SetSideParentStatus { thread_id, status }],
        None => if outcome.drop_notification {
            Seq::empty()
        } else {
            seq![AppEffectView::ApplyNotificationStatus { thread_id, notification }]
        },
    };
    sending + status
}

/// The steps that submit a turn, where there is one.
pub open spec fn woken(thread_id: ThreadId, op: Option<AppCommandView>) -> Seq<AppEffectView> {
    match op {
        Some(op) => seq![AppEffectView::SubmitThreadOp { thread_id, op }],
        None => Seq::empty(),
    }
}

impl AppView {
    /// The steps that list running terminals and threads that wait.
    pub open spec fn lists(self) -> Seq<AppEffectView> {
        seq![self.terminals_listed(), self.approvals_listed()]
    }

    /// Whether a notification is for a thread that the client does not take notice of: a side
    /// conversation that was closed for good, or the end of a thread that it does not know.
    pub open spec fn ignores(self, thread_id: ThreadId, notification: ServerNotificationView) -> bool {
        ||| self.is_discarded(thread_id)
        ||| {
            &&& notification is ThreadClosed
            &&& self.primary_thread_id != Some(thread_id)
            &&& !self.has_store(thread_id)
            &&& entry_of(self.agents, thread_id) is None
            &&& !self.is_side(thread_id)
        }
    }

    /// Once a notification was looked at for a session that it tells of.
    pub open spec fn session_inferred(self, thread_id: ThreadId, notification: ServerNotificationView) -> (
        AppView,
        Option<ThreadSessionStateView>,
        Seq<AppEffectView>,
    ) {
        match (notification, self.primary_session) {
            (ServerNotificationView::ThreadStarted { .. }, Some(primary)) => (
                self.with_agent(started_agent(thread_id, notification)),
                Some(started_session(primary, thread_id, notification)),
                seq![AppEffectView::AgentEntryChanged { thread_id }],
            ),
            _ => (self, None, Seq::empty()),
        }
    }

    /// Once a notification was taken into the store of its thread.
    pub open spec fn notification_kept(
        self,
        thread_id: ThreadId,
        inferred: Option<ThreadSessionStateView>,
        notification: ServerNotificationView,
    ) -> (AppView, NotificationOutcomeView) {
        let ensured = self.with_channel_for(thread_id);
        let (store, outcome) = ensured.store_of(thread_id)->0.taken_in(inferred, notification);
        (ensured.with_store(thread_id, store), outcome)
    }

    /// Once a notification for a thread has come in.
    pub open spec fn notified(self, thread_id: ThreadId, notification: ServerNotificationView) -> (
        AppView,
        Seq<AppEffectView>,
    ) {
        if self.ignores(thread_id, notification) {
            (self, Seq::empty())
        } else {
            let (known, inferred, inferring) = self.session_inferred(thread_id, notification);
            let (kept, outcome) = known.notification_kept(thread_id, inferred, notification);
            let (told, telling) = if notification is ThreadClosed && kept.active_thread_id != Some(
                thread_id,
            ) && kept.should_wake_primary(thread_id) {
                kept.subagent_closed(thread_id)
            } else {
                (kept, Seq::empty())
            };
            (
                told,
                inferring + outcome_shown(thread_id, notification, outcome) + telling + woken(
                    thread_id,
                    outcome.wakeup_op,
                ) + told.lists(),
            )
        }
    }

    /// Once a request of a thread has come in.
    pub open spec fn requested(self, thread_id: ThreadId, request: ServerRequestView) -> (
        AppView,
        Seq<AppEffectView>,
        ThreadRequestEnqueueResult,
    ) {
        let ensured = self.with_channel_for(thread_id);
        let store = ensured.store_of(thread_id)->0;
        if self.is_discarded(thread_id) || is_marked_closed(self.agents, thread_id) {
            (self, Seq::empty(), ThreadRequestEnqueueResult::ThreadClosed)
        } else if store.closed {
            (ensured, Seq::empty(), ThreadRequestEnqueueResult::ThreadClosed)
        } else {
            let next = store.requested(request);
            let kept = ensured.with_store(thread_id, next);
            let presentation = if kept.active_thread_id != Some(thread_id) {
                kept.presentation_of(thread_id, request)
            } else {
                RequestPresentationView::Nothing
            };
            let declining = if presentation is DeclineElicitation {
                presented(presentation)
            } else {
                Seq::empty()
            };
            let showing = if next.active {
                seq![
                    AppEffectView::SendEvent {
                        thread_id,
                        event: ThreadBufferedEventView::Request(request),
                    },
                ]
            } else if kept.side_parent() is None && presentation is Show {
                presented(presentation)
            } else {
                Seq::empty()
            };
            let status = match next.waits_for() {
                Some(status) => AppEffectView::SetSideParentStatus { thread_id, status },
                None => AppEffectView::ApplyRequestStatus { thread_id, request },
            };
            (
                kept,
                declining + showing + seq![status, kept.approvals_listed()],
                ThreadRequestEnqueueResult::Enqueued,
            )
        }
    }

    /// Once an entry of the message history was looked up for a thread.
    pub open spec fn history_looked_up(self, thread_id: ThreadId, response: HistoryLookupResponseView) -> (
        AppView,
        Seq<AppEffectView>,
    ) {
        if self.is_closed(thread_id) {
            (self, Seq::empty())
        } else {
            let ensured = self.with_channel_for(thread_id);
            let event = ThreadBufferedEventView::HistoryEntryResponse(response);
            let store = ensured.store_of(thread_id)->0.buffered(event);
            (
                ensured.with_store(thread_id, store),
                if store.active {
                    seq![AppEffectView::SendEvent { thread_id, event }]
                } else {
                    Seq::empty()
                },
            )
        }
    }

    /// Once an event for a thread has come in.
    pub open spec fn event_taken_in(self, thread_id: ThreadId, event: ThreadBufferedEventView) -> (
        AppView,
        Seq<AppEffectView>,
    ) {
        match event {
            ThreadBufferedEventView::Notification(notification) => self.notified(
                thread_id,
                notification,
            ),
            ThreadBufferedEventView::Request(request) => {
                let (next, effects, _) = self.requested(thread_id, request);
                (next, effects)
            },
            ThreadBufferedEventView::HistoryEntryResponse(response) => self.history_looked_up(
                thread_id,
                response,
            ),
            ThreadBufferedEventView::FeedbackSubmission(_) => (
                self,
                seq![AppEffectView::EnqueueFeedback { thread_id, event }],
            ),
        }
    }

    /// Once events for a thread have come in, one after the other.
    pub open spec fn events_taken_in(self, thread_id: ThreadId, events: Seq<ThreadBufferedEventView>) -> (
        AppView,
        Seq<AppEffectView>,
    )
        decreases events.len(),
    {
        if events.len() == 0 {
            (self, Seq::empty())
        } else {
            let (before, effects) = self.events_taken_in(thread_id, events.drop_last());
            let (next, more) = before.event_taken_in(thread_id, events.last());
            (next, effects + more)
        }
    }

    /// Once a notification for the primary thread has come in. It waits while that thread is not
    /// known.
    pub open spec fn primary_notified(self, notification: ServerNotificationView) -> (
        AppView,
        Seq<AppEffectView>,
    ) {
        match self.primary_thread_id {
            Some(thread_id) => self.notified(thread_id, notification),
            None => (
                AppView {
                    pending_primary_events: self.pending_primary_events.push(
                        ThreadBufferedEventView::Notification(notification),
                    ),
                    ..self
                },
                Seq::empty(),
            ),
        }
    }

    /// Once a request of the primary thread has come in. It waits while that thread is not known.
    pub open spec fn primary_requested(self, request: ServerRequestView) -> (
        AppView,
        Seq<AppEffectView>,
        ThreadRequestEnqueueResult,
    ) {
        match self.primary_thread_id {
            Some(thread_id) => self.requested(thread_id, request),
            None => (
                AppView {
                    pending_primary_events: self.pending_primary_events.push(
                        ThreadBufferedEventView::Request(request),
                    ),
                    ..self
                },
                Seq::empty(),
                ThreadRequestEnqueueResult::Enqueued,
            ),
        }
    }
}

/// Passes a notification on, and shows what its thread waits for.
fn show_outcome(
    thread_id: ThreadId,
    notification: ServerNotification,
    outcome: &NotificationOutcome,
) -> (effects: Vec<AppEffect>)
    ensures
        effects.deep_view() == outcome_shown(
            thread_id,
            notification.deep_view(),
            outcome.deep_view(),
        ),
{
    let mut effects = no_effects();
    if outcome.should_send {
        push_effect(
            &mut effects,
            AppEffect::SendEvent {
                thread_id,
                event: ThreadBufferedEvent::Notification(notification.duplicate()),
            },
        );
    }
    if let Some(status) = outcome.pending_status {
        push_effect(&mut effects, AppEffect::SetSideParentStatus { thread_id, status });
    } else if !outcome.drop_notification {
        push_effect(&mut effects, AppEffect::ApplyNotificationStatus { thread_id, notification });
    }
    assert(effects.deep_view() =~= outcome_shown(
        thread_id,
        notification.deep_view(),
        outcome.deep_view(),
    ));
    effects
}

/// Submits a turn, where there is one.
pub fn wake(thread_id: ThreadId, op: Option<AppCommand>) -> (effects: Vec<AppEffect>)
    ensures
        effects.deep_view() == woken(thread_id, op.deep_view()),
{
    let mut effects = no_effects();
    if let Some(op) = op {
        push_effect(&mut effects, AppEffect::SubmitThreadOp { thread_id, op });
        assert(effects.deep_view() =~= seq![
            AppEffectView::SubmitThreadOp { thread_id, op: op.deep_view() },
        ]);
    }
    effects
}

impl App {
    /// Lists running terminals and threads that wait.
    fn list(&self) -> (effects: Vec<AppEffect>)
        ensures
            effects.deep_view() == self@.lists(),
    {
        let mut effects = no_effects();
        push_effect(&mut effects, self.sync_background_terminal_activity_summaries());
        push_effect(&mut effects, self.refresh_pending_thread_approvals());
        assert(effects.deep_view() =~= self@.lists());
        effects
    }

    /// The session that a notification tells of: that of a thread that was started, put together
    /// from the primary session and the notification. Its agent is taken over as well.
    pub fn infer_session_for_thread_notification(
        &mut self,
        thread_id: ThreadId,
        notification: &ServerNotification,
    ) -> (inferred: (Option<ThreadSessionState>, Vec<AppEffect>))
        ensures
            (final(self)@, inferred.0.deep_view(), inferred.1.deep_view())
                == old(self)@.session_inferred(thread_id, notification.deep_view()),
    {
        let mut effects = no_effects();
        let thread = match notification {
            ServerNotification::ThreadStarted { thread } => thread,
            _ => {
                return (None, effects);
            },
        };
        let mut session = match self.primary_session_configured.duplicate() {
            Some(session) => session,
            None => {
                return (None, effects);
            },
        };
        session.thread_id = thread_id;
        session.thread_name = thread.name.duplicate();
        session.model_provider_id = thread.model_provider.clone();
        session.cwd = thread.cwd.clone();
        if let Some(model) = &thread.recorded_model {
            session.model = model.clone();
        } else if thread.path.is_some() {
            session.model = String::new();
            assert(session.model@ =~= Seq::<char>::empty());
        }
        session.message_history = None;
        session.rollout_path = thread.path.duplicate();
        self.agent_navigation.upsert(
            AgentEntry {
                thread_id,
                agent_nickname: thread.agent_nickname.duplicate(),
                agent_role: thread.agent_role.duplicate(),
                is_closed: false,
            },
        );
        push_effect(&mut effects, AppEffect::AgentEntryChanged { thread_id });
        assert(effects.deep_view() =~= seq![AppEffectView::AgentEntryChanged { thread_id }]);
        (Some(session), effects)
    }

    /// Takes a notification into the store of its thread.
    fn keep_notification(
        &mut self,
        thread_id: ThreadId,
        inferred: Option<ThreadSessionState>,
        notification: &ServerNotification,
    ) -> (outcome: NotificationOutcome)
        ensures
            (final(self)@, outcome.deep_view()) == old(self)@.notification_kept(
                thread_id,
                inferred.deep_view(),
                notification.deep_view(),
            ),
    {
        let place = self.ensure_thread_channel(thread_id);
        let ghost ensured = self@;
        assert(self.thread_event_channels@[place as int].deep_view()
            == ensured.channels[place as int]);
        let outcome = self.thread_event_channels[place].store.take_in_notification(
            inferred,
            notification,
        );
        let ghost taken = ensured.store_of(thread_id)->0.taken_in(
            inferred.deep_view(),
            notification.deep_view(),
        );
        assert(self@ =~= ensured.with_store(thread_id, taken.0));
        outcome
    }

    /// Takes in a notification for a thread.
    pub fn enqueue_thread_notification(
        &mut self,
        thread_id: ThreadId,
        notification: ServerNotification,
    ) -> (effects: Vec<AppEffect>)
        ensures
            (final(self)@, effects.deep_view()) == old(self)@.notified(
                thread_id,
                notification.deep_view(),
            ),
    {
        if self.is_discarded_side_thread(thread_id) {
            return no_effects();
        }
        let is_thread_closed = match &notification {
            ServerNotification::ThreadClosed => true,
            _ => false,
        };
        if is_thread_closed && !same_id(self.primary_thread_id, thread_id) && self.channel_place(
            thread_id,
        ) == self.thread_event_channels.len() && self.agent_navigation.get(thread_id).is_none()
            && !self.is_side_thread(thread_id) {
            proof {
                lemma_channel_place(self@.channels, thread_id);
            }
            return no_effects();
        }
        let (inferred, mut effects) = self.infer_session_for_thread_notification(
            thread_id,
            &notification,
        );
        let outcome = self.keep_notification(thread_id, inferred, &notification);
        push_effects(&mut effects, show_outcome(thread_id, notification, &outcome));
        let telling = if is_thread_closed && !same_id(self.active_thread_id, thread_id)
            && self.should_wake_primary_for_closed_subagent(thread_id) {
            self.mark_subagent_closed_and_wake_primary_once(thread_id)
        } else {
            no_effects()
        };
        push_effects(&mut effects, telling);
        push_effects(&mut effects, wake(thread_id, outcome.wakeup_op));
        push_effects(&mut effects, self.list());
        effects
    }

    /// Takes in a request of a thread. One that is not on screen puts it to the user right away,
    /// unless a side conversation is on screen.
    pub fn enqueue_thread_request(&mut self, thread_id: ThreadId, request: ServerRequest) -> (enqueued:
        (Vec<AppEffect>, ThreadRequestEnqueueResult))
        ensures
            (final(self)@, enqueued.0.deep_view(), enqueued.1) == old(self)@.requested(
                thread_id,
                request.deep_view(),
            ),
    {
        if self.is_discarded_side_thread(thread_id) {
            return (no_effects(), ThreadRequestEnqueueResult::ThreadClosed);
        }
        if self.agent_navigation.is_closed(thread_id) {
            return (no_effects(), ThreadRequestEnqueueResult::ThreadClosed);
        }
        let place = self.ensure_thread_channel(thread_id);
        let ghost ensured = self@;
        assert(self.thread_event_channels@[place as int].deep_view()
            == ensured.channels[place as int]);
        if self.thread_event_channels[place].store.is_closed() {
            return (no_effects(), ThreadRequestEnqueueResult::ThreadClosed);
        }
        self.thread_event_channels[place].store.push_request(request.duplicate());
        let ghost next = ensured.store_of(thread_id)->0.requested(request.deep_view());
        assert(self@ =~= ensured.with_store(thread_id, next));
        let should_send = self.thread_event_channels[place].store.active;
        let pending_status = self.thread_event_channels[place].store.side_parent_pending_status();
        assert(self.thread_event_channels@[place as int].store@ == next);
        let presentation = if !same_id(self.active_thread_id, thread_id) {
            self.interactive_request_for_thread_request(thread_id, &request)
        } else {
            RequestPresentation::Nothing
        };
        let mut effects = no_effects();
        let mut show: Option<RequestPresentation> = None;
        match presentation {
            RequestPresentation::DeclineElicitation { thread_id, server_name, request_id } => {
                push_effects(
                    &mut effects,
                    present(
                        RequestPresentation::DeclineElicitation {
                            thread_id,
                            server_name,
                            request_id,
                        },
                    ),
                );
            },
            RequestPresentation::Show(request) => {
                show = Some(RequestPresentation::Show(request));
            },
            RequestPresentation::Nothing => {},
        }
        if should_send {
            push_effect(
                &mut effects,
                AppEffect::SendEvent {
                    thread_id,
                    event: ThreadBufferedEvent::Request(request.duplicate()),
                },
            );
        } else if self.active_side_parent_thread_id().is_none() {
            if let Some(presentation) = show {
                push_effects(&mut effects, present(presentation));
            }
        }
        if let Some(status) = pending_status {
            push_effect(&mut effects, AppEffect::SetSideParentStatus { thread_id, status });
        } else {
            push_effect(&mut effects, AppEffect::ApplyRequestStatus { thread_id, request });
        }
        push_effect(&mut effects, self.refresh_pending_thread_approvals());
        assert(effects.deep_view() =~= old(self)@.requested(thread_id, request.deep_view()).1);
        (effects, ThreadRequestEnqueueResult::Enqueued)
    }

    /// Takes in an entry of the message history that was looked up for a thread. A closed thread
    /// has no use for it.
    pub fn enqueue_thread_history_entry_response(
        &mut self,
        thread_id: ThreadId,
        event: HistoryLookupResponse,
    ) -> (effects: Vec<AppEffect>)
        ensures
            (final(self)@, effects.deep_view()) == old(self)@.history_looked_up(
                thread_id,
                event.deep_view(),
            ),
    {
        let mut effects = no_effects();
        if self.thread_is_closed_or_marked_closed(thread_id) {
            return effects;
        }
        let place = self.ensure_thread_channel(thread_id);
        let ghost ensured = self@;
        assert(self.thread_event_channels@[place as int].deep_view()
            == ensured.channels[place as int]);
        self.thread_event_channels[place].store.push_history_entry_response(event.duplicate());
        let ghost next = ensured.store_of(thread_id)->0.buffered(
            ThreadBufferedEventView::HistoryEntryResponse(event.deep_view()),
        );
        assert(self@ =~= ensured.with_store(thread_id, next));
        if self.thread_event_channels[place].store.active {
            push_effect(
                &mut effects,
                AppEffect::SendEvent {
                    thread_id,
                    event: ThreadBufferedEvent::HistoryEntryResponse(event),
                },
            );
        }
        assert(effects.deep_view() =~= old(self)@.history_looked_up(
            thread_id,
            event.deep_view(),
        ).1);
        effects
    }

    /// Takes in an event for a thread.
    pub fn take_in_event(&mut self, thread_id: ThreadId, event: ThreadBufferedEvent) -> (effects: Vec<
        AppEffect,
    >)
        ensures
            (final(self)@, effects.deep_view()) == old(self)@.event_taken_in(
                thread_id,
                event.deep_view(),
            ),
    {
        match event {
            ThreadBufferedEvent::Notification(notification) => self.enqueue_thread_notification(
                thread_id,
                notification,
            ),
            ThreadBufferedEvent::Request(request) => {
                let (effects, _) = self.enqueue_thread_request(thread_id, request);
                effects
            },
            ThreadBufferedEvent::HistoryEntryResponse(response) => {
                self.enqueue_thread_history_entry_response(thread_id, response)
            },
            ThreadBufferedEvent::FeedbackSubmission(feedback) => {
                let mut effects = no_effects();
                push_effect(
                    &mut effects,
                    AppEffect::EnqueueFeedback {
                        thread_id,
                        event: ThreadBufferedEvent::FeedbackSubmission(feedback),
                    },
                );
                assert(effects.deep_view() =~= old(self)@.event_taken_in(
                    thread_id,
                    event.deep_view(),
                ).1);
                effects
            },
        }
    }

    /// Takes in a notification for the primary thread, or lets it wait while that thread is not
    /// known.
    pub fn enqueue_primary_thread_notification(&mut self, notification: ServerNotification) -> (effects:
        Vec<AppEffect>)
        ensures
            (final(self)@, effects.deep_view()) == old(self)@.primary_notified(
                notification.deep_view(),
            ),
    {
        if let Some(thread_id) = self.primary_thread_id {
            return self.enqueue_thread_notification(thread_id, notification);
        }
        let ghost before = self@.pending_primary_events;
        let event = ThreadBufferedEvent::Notification(notification);
        self.pending_primary_events.push_back(event);
        assert(self@.pending_primary_events =~= before.push(event.deep_view()));
        no_effects()
    }

    /// Takes in a request of the primary thread, or lets it wait while that thread is not known.
    pub fn enqueue_primary_thread_request(&mut self, request: ServerRequest) -> (enqueued: (
        Vec<AppEffect>,
        ThreadRequestEnqueueResult,
    ))
        ensures
            (final(self)@, enqueued.0.deep_view(), enqueued.1) == old(self)@.primary_requested(
                request.deep_view(),
            ),
    {
        if let Some(thread_id) = self.primary_thread_id {
            return self.enqueue_thread_request(thread_id, request);
        }
        let ghost before = self@.pending_primary_events;
        let event = ThreadBufferedEvent::Request(request);
        self.pending_primary_events.push_back(event);
        assert(self@.pending_primary_events =~= before.push(event.deep_view()));
        (no_effects(), ThreadRequestEnqueueResult::Enqueued)
    }
}

} // verus!
