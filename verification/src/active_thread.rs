//! The thread on screen: switching to it, leaving it, reading its events, and what happens when
//! it ends.
use crate::agent_navigation::{closed_in, same_id, AgentEntry, AgentEntryView};
use crate::app_state::{
    channel_place, lemma_channel_place, lemma_channel_place_is, App, AppView, ThreadChannelView,
};
use crate::collections::Duplicate;
use crate::effects::{
    no_effects, push_effect, push_effects, AppEffect, AppEffectView, ReplayKind, SessionDisplay,
};
use crate::input_state::{ThreadInputState, ThreadInputStateView};
use crate::pending_replay::can_settle;
use crate::protocol::{
    AppCommand, AppCommandView, NoticeKind, ServerNotification, ServerNotificationView,
    ThreadBufferedEvent, ThreadBufferedEventView, ThreadSessionState, ThreadSessionStateView, Turn,
    TurnView,
};
use crate::thread_events::{
    ThreadEventSnapshot, ThreadEventSnapshotView, ThreadEventStore, ThreadEventStoreView,
};
use crate::thread_id::{id_text, ThreadId};
use std::collections::VecDeque;
use vstd::prelude::*;
use vstd::string::StringExecFns;

verus! {

/// The end of the thread on screen, from which the client goes back to the primary thread.
#[derive(Debug, PartialEq, Eq)]
pub struct Failover {
    pub closed_thread_id: ThreadId,
    pub primary_thread_id: ThreadId,
    /// Whether the thread was a side conversation, which is closed for good.
    pub is_side: bool,
    /// What the subagent is called that the main agent is to be told of, where it is.
    pub wake_label: Option<String>,
}

/// What a [`Failover`] means.
#[verifier::ext_equal]
pub ghost struct FailoverView {
    pub closed_thread_id: ThreadId,
    pub primary_thread_id: ThreadId,
    pub is_side: bool,
    pub wake_label: Option<Seq<char>>,
}

impl DeepView for Failover {
    type V = FailoverView;

    open spec fn deep_view(&self) -> FailoverView {
        FailoverView {
            closed_thread_id: self.closed_thread_id,
            primary_thread_id: self.primary_thread_id,
            is_side: self.is_side,
            wake_label: self.wake_label.deep_view(),
        }
    }
}

impl Duplicate for Failover {
    fn duplicate(&self) -> Failover {
        Failover {
            closed_thread_id: self.closed_thread_id,
            primary_thread_id: self.primary_thread_id,
            is_side: self.is_side,
            wake_label: self.wake_label.duplicate(),
        }
    }
}

/// What becomes of an event of the thread on screen.
#[derive(Debug, PartialEq, Eq)]
pub enum ActiveEventStep {
    /// The thread has ended, and the client goes back to the primary one.
    FailOver(Failover),
    /// The event is of a terminal that the user has stopped.
    Dropped,
    /// The event is shown.
    Handle(ThreadBufferedEvent),
}

/// What a [`ActiveEventStep`] means.
#[verifier::ext_equal]
pub ghost enum ActiveEventStepView {
    FailOver(FailoverView),
    Dropped,
    Handle(ThreadBufferedEventView),
}

impl DeepView for ActiveEventStep {
    type V = ActiveEventStepView;

    open spec fn deep_view(&self) -> ActiveEventStepView {
        match self {
            ActiveEventStep::FailOver(value) => ActiveEventStepView::FailOver(value.deep_view()),
            ActiveEventStep::Dropped => ActiveEventStepView::Dropped,
            ActiveEventStep::Handle(value) => ActiveEventStepView::Handle(value.deep_view()),
        }
    }
}

impl Duplicate for ActiveEventStep {
    fn duplicate(&self) -> ActiveEventStep {
        match self {
            ActiveEventStep::FailOver(value) => ActiveEventStep::FailOver(value.duplicate()),
            ActiveEventStep::Dropped => ActiveEventStep::Dropped,
            ActiveEventStep::Handle(value) => ActiveEventStep::Handle(value.duplicate()),
        }
    }
}

/// A directory that a session is to be moved to.
#[derive(Debug, PartialEq, Eq)]
pub enum CwdOverride {
    Absent,
    /// This absolute path.
    Given(String),
    /// A path that could not be made absolute.
    Unresolvable,
}

/// What a [`CwdOverride`] means.
#[verifier::ext_equal]
pub ghost enum CwdOverrideView {
    Absent,
    Given(Seq<char>),
    Unresolvable,
}

impl DeepView for CwdOverride {
    type V = CwdOverrideView;

    open spec fn deep_view(&self) -> CwdOverrideView {
        match self {
            CwdOverride::Absent => CwdOverrideView::Absent,
            CwdOverride::Given(value) => CwdOverrideView::Given(value@),
            CwdOverride::Unresolvable => CwdOverrideView::Unresolvable,
        }
    }
}

impl Duplicate for CwdOverride {
    fn duplicate(&self) -> CwdOverride {
        match self {
            CwdOverride::Absent => CwdOverride::Absent,
            CwdOverride::Given(value) => CwdOverride::Given(value.clone()),
            CwdOverride::Unresolvable => CwdOverride::Unresolvable,
        }
    }
}

/// The store and the turns to submit once prompts that were kept with the input of the thread on
/// screen are offered to the thread, one after the other. A prompt waits where a turn of the user
/// is about to start.
pub open spec fn prompts_offered(
    store: ThreadEventStoreView,
    turn_start_pending: bool,
    prompts: Seq<Seq<char>>,
) -> (ThreadEventStoreView, Seq<AppCommandView>)
    decreases prompts.len(),
{
    if prompts.len() == 0 {
        (store, Seq::empty())
    } else {
        let (before, ops) = prompts_offered(store, turn_start_pending, prompts.drop_last());
        let text = prompts.last();
        if turn_start_pending {
            (before.with_wakeup(text), ops)
        } else {
            let (offered, start) = before.wakeup_offered(text);
            let (next, op) = offered.wakeup_started(start);
            (
                next,
                match op {
                    Some(op) => ops.push(op),
                    None => ops,
                },
            )
        }
    }
}

/// The steps that submit turns on a thread.
pub open spec fn submissions(thread_id: ThreadId, ops: Seq<AppCommandView>) -> Seq<AppEffectView> {
    ops.map_values(|op: AppCommandView| AppEffectView::SubmitThreadOp { thread_id, op })
}

/// Whether an event tells that its thread has ended.
pub open spec fn tells_end(event: ThreadBufferedEventView) -> bool {
    event matches ThreadBufferedEventView::Notification(notification)
        && notification is ThreadClosed
}

/// Whether the status line is drawn anew after an event.
pub open spec fn changes_status_line(event: ThreadBufferedEventView) -> bool {
    match event {
        ThreadBufferedEventView::Notification(notification) => match notification {
            ServerNotificationView::TurnStarted { .. } => true,
            ServerNotificationView::Notice { kind, .. } => kind
                == NoticeKind::ThreadTokenUsageUpdated,
            _ => false,
        },
        _ => false,
    }
}

/// The steps that show an event. A request is shown only while it waits for an answer.
pub open spec fn event_shown(event: ThreadBufferedEventView, request_waits: bool) -> Seq<
    AppEffectView,
> {
    let shown = match event {
        ThreadBufferedEventView::Notification(notification) => seq![
            AppEffectView::HandleNotification { notification },
        ],
        ThreadBufferedEventView::Request(request) => if request_waits {
            seq![AppEffectView::HandleRequest { request }]
        } else {
            Seq::empty()
        },
        ThreadBufferedEventView::HistoryEntryResponse(_) => seq![
            AppEffectView::HandleHistoryEntry { event },
        ],
        ThreadBufferedEventView::FeedbackSubmission(_) => seq![
            AppEffectView::HandleFeedback { event },
        ],
    };
    if changes_status_line(event) {
        shown + seq![AppEffectView::RefreshStatusLine]
    } else {
        shown
    }
}

impl AppView {
    /// Once no thread's events are read.
    pub open spec fn without_active(self) -> (AppView, Seq<AppEffectView>) {
        let rested = match self.active_thread_id {
            Some(id) => self.with_thread_active(id, false),
            None => self,
        };
        let next = AppView { active_thread_id: None, has_active_receiver: false, ..rested };
        (next, seq![next.approvals_listed()])
    }

    /// Once the receiving end of a thread's channel was taken to be read from.
    pub open spec fn with_receiver_taken(self, thread_id: ThreadId) -> AppView {
        match self.channel_of(thread_id) {
            Some(channel) => self.with_channel(
                ThreadChannelView { thread_id, has_receiver: false, ..channel },
            ),
            None => self,
        }
    }

    /// Once a thread's events are read, where no other thread's are.
    pub open spec fn activated(self, thread_id: ThreadId) -> (AppView, Seq<AppEffectView>) {
        if self.active_thread_id is Some {
            (self, Seq::empty())
        } else {
            let taken = self.channel_of(thread_id) matches Some(channel) && channel.has_receiver;
            let next = AppView {
                active_thread_id: Some(thread_id),
                has_active_receiver: taken,
                ..self.with_thread_active(thread_id, true).with_receiver_taken(thread_id)
            };
            (next, seq![next.approvals_listed()])
        }
    }

    /// What is kept of the input of the thread on screen, where the thread is closed or not.
    pub open spec fn kept_input(input: Option<ThreadInputStateView>, closed: bool) -> Option<
        ThreadInputStateView,
    > {
        match input {
            Some(state) => if closed {
                Some(state.without_prompts().with_pending_start(false).without_terminals())
            } else {
                Some(state.without_prompts())
            },
            None => None,
        }
    }

    /// Once the thread on screen is left, with what was kept of its input.
    pub open spec fn left(self, input: Option<ThreadInputStateView>) -> (AppView, Seq<AppEffectView>) {
        match self.active_thread_id {
            None => (self, Seq::empty()),
            Some(thread_id) => match self.channel_of(thread_id) {
                None => (self, Seq::empty()),
                Some(channel) => {
                    let closed = channel.store.closed;
                    let rested = ThreadEventStoreView {
                        active: false,
                        input_state: AppView::kept_input(input, closed),
                        ..channel.store
                    };
                    let prompts = match input {
                        Some(state) => if closed {
                            Seq::empty()
                        } else {
                            state.queued_completion_prompts
                        },
                        None => Seq::empty(),
                    };
                    let turn_start_pending = input matches Some(state)
                        && state.user_turn_pending_start;
                    let (store, ops) = prompts_offered(rested, turn_start_pending, prompts);
                    (
                        AppView {
                            has_active_receiver: false,
                            ..self.with_channel(
                                ThreadChannelView {
                                    thread_id,
                                    store,
                                    has_receiver: channel.has_receiver || self.has_active_receiver,
                                },
                            )
                        },
                        submissions(thread_id, ops),
                    )
                },
            },
        }
    }

    /// Once a thread is about to be shown again, and what is replayed. Nothing is where its
    /// channel is being read from already.
    pub open spec fn replay_activated(self, thread_id: ThreadId) -> (
        AppView,
        Option<ThreadEventSnapshotView>,
    ) {
        match self.channel_of(thread_id) {
            Some(channel) => if channel.has_receiver {
                (
                    self.with_channel(
                        ThreadChannelView {
                            thread_id,
                            has_receiver: false,
                            store: ThreadEventStoreView {
                                active: true,
                                wakeups: Seq::empty(),
                                ..channel.store
                            },
                        },
                    ),
                    Some(ThreadEventStoreView { active: true, ..channel.store }.snapshotted()),
                )
            } else {
                (self, None)
            },
            None => (self, None),
        }
    }

    /// Whether an event of the thread on screen is of a terminal that the user has stopped.
    pub open spec fn drops_event(self, event: ThreadBufferedEventView) -> bool {
        match (event, self.active_thread_id) {
            (ThreadBufferedEventView::Notification(notification), Some(thread_id)) => {
                self.store_of(thread_id) matches Some(store) && store.is_about_stopped(notification)
            },
            _ => false,
        }
    }

    /// Once an event of the thread on screen was looked at for terminals that the user has
    /// stopped.
    pub open spec fn stopped_taken(self, event: ThreadBufferedEventView) -> AppView {
        match (event, self.active_thread_id) {
            (ThreadBufferedEventView::Notification(notification), Some(thread_id)) => {
                match self.store_of(thread_id) {
                    Some(store) => self.with_store(thread_id, store.stopped_taken(notification)),
                    None => self,
                }
            },
            _ => self,
        }
    }

    /// The thread that has ended and the primary thread, where the client goes back to the latter:
    /// the thread on screen has ended, is not the primary one, and is not the one whose end the
    /// user has asked for in order to leave.
    pub open spec fn failover_target(self, notification: ServerNotificationView) -> Option<
        (ThreadId, ThreadId),
    > {
        match (self.active_thread_id, self.primary_thread_id) {
            (Some(active), Some(primary)) => if notification is ThreadClosed
                && self.pending_shutdown_exit_thread_id != Some(active) && active != primary {
                Some((active, primary))
            } else {
                None
            },
            _ => None,
        }
    }

    /// Once the client is about to go back to the primary thread.
    pub open spec fn failover_begun(
        self,
        notification: ServerNotificationView,
        closed: ThreadId,
        primary: ThreadId,
    ) -> (AppView, FailoverView) {
        let kept = match self.store_of(closed) {
            Some(store) => self.with_store(closed, store.notified(notification)),
            None => self,
        };
        let (agents, changed) = closed_in(kept.agents, closed);
        (
            AppView { agents, ..kept },
            FailoverView {
                closed_thread_id: closed,
                primary_thread_id: primary,
                is_side: kept.is_side(closed),
                wake_label: if kept.should_wake_primary(closed) && changed {
                    Some(kept.subagent_name(closed))
                } else {
                    None
                },
            },
        )
    }

    /// Once an event of the thread on screen has come in: the end of the thread is looked at
    /// first, then the wish to leave, then what is dropped.
    pub open spec fn active_event_taken(self, event: ThreadBufferedEventView) -> (
        AppView,
        ActiveEventStepView,
        Seq<AppEffectView>,
    ) {
        let target = match event {
            ThreadBufferedEventView::Notification(notification) => self.failover_target(
                notification,
            ),
            _ => None,
        };
        match target {
            Some((closed, primary)) => {
                let (next, failover) = self.failover_begun(event->Notification_0, closed, primary);
                (
                    next,
                    ActiveEventStepView::FailOver(failover),
                    seq![AppEffectView::AgentEntryChanged { thread_id: closed }],
                )
            },
            None => {
                let leaving = AppView {
                    pending_shutdown_exit_thread_id: if tells_end(event)
                        && self.pending_shutdown_exit_thread_id == self.active_thread_id {
                        None
                    } else {
                        self.pending_shutdown_exit_thread_id
                    },
                    ..self
                };
                let next = leaving.stopped_taken(event);
                if leaving.drops_event(event) {
                    (next, ActiveEventStepView::Dropped, seq![next.terminals_listed()])
                } else {
                    (next, ActiveEventStepView::Handle(event), Seq::empty())
                }
            },
        }
    }

    /// Once the client has gone back to the primary thread, or failed to.
    pub open spec fn failover_ended(self, failover: FailoverView) -> (AppView, Seq<AppEffectView>) {
        let closed = failover.closed_thread_id;
        let primary = failover.primary_thread_id;
        if self.active_thread_id == Some(primary) {
            let said = seq![
                AppEffectView::AddInfoMessage {
                    message: "Agent thread "@ + id_text(closed)
                        + " closed. Switched back to main thread."@,
                },
            ];
            match failover.wake_label {
                Some(label) => {
                    let (next, effects) = self.subagent_ended(label, closed);
                    (next, said + effects)
                },
                None => (self, said),
            }
        } else {
            let (next, effects) = self.without_active();
            (
                next,
                effects + seq![
                    AppEffectView::AddErrorMessage {
                        message: "Agent thread "@ + id_text(closed)
                            + " closed. Failed to switch back to main thread "@ + id_text(primary)
                            + "."@,
                    },
                ],
            )
        }
    }

    /// Once the events that waited on the thread on screen were read: the channel goes back to
    /// where it is read from next, unless nothing will come any more.
    pub open spec fn drained(self, thread_id: ThreadId, disconnected: bool) -> (
        AppView,
        Seq<AppEffectView>,
    ) {
        if self.active_thread_id != Some(thread_id) {
            (
                match self.channel_of(thread_id) {
                    Some(channel) => if disconnected {
                        self
                    } else {
                        self.with_channel(
                            ThreadChannelView { thread_id, has_receiver: true, ..channel },
                        )
                    },
                    None => self,
                },
                Seq::empty(),
            )
        } else if !disconnected {
            (AppView { has_active_receiver: true, ..self }, Seq::empty())
        } else {
            self.without_active()
        }
    }

    /// Once turns of a thread were taken back. What waits on the channel of the thread on screen
    /// has been thrown away; `disconnected` tells whether nothing will come there any more.
    pub open spec fn rolled_back(
        self,
        thread_id: ThreadId,
        num_turns: u32,
        turns: Seq<TurnView>,
        disconnected: bool,
    ) -> (AppView, Seq<AppEffectView>) {
        let kept = match self.store_of(thread_id) {
            Some(store) => self.with_store(thread_id, store.rolled_back(turns)),
            None => self,
        };
        let (next, effects) = if kept.active_thread_id == Some(thread_id)
            && kept.has_active_receiver && disconnected {
            kept.without_active()
        } else {
            (kept, Seq::empty())
        };
        (next, effects + seq![AppEffectView::HandleRollbackSucceeded { num_turns }])
    }

    /// Once the primary thread is known, and before what has waited for it is taken in.
    pub open spec fn primary_session_set(
        self,
        session: ThreadSessionStateView,
        turns: Seq<TurnView>,
    ) -> (AppView, Seq<AppEffectView>) {
        let thread_id = session.thread_id;
        let known = AppView {
            primary_thread_id: Some(thread_id),
            primary_session: Some(session),
            ..self
        }.with_agent(
            AgentEntryView { thread_id, agent_nickname: None, agent_role: None, is_closed: false },
        ).with_channel_for(thread_id);
        let kept = known.with_store(
            thread_id,
            known.store_of(thread_id)->0.with_session(session, turns),
        );
        let (active, effects) = kept.activated(thread_id);
        (
            AppView { widget_thread_id: Some(thread_id), ..active },
            seq![AppEffectView::AgentEntryChanged { thread_id }] + effects + seq![
                AppEffectView::SetInitialUserMessageSuppressed { suppressed: true },
                AppEffectView::ShowSession { session, display: SessionDisplay::Normal },
            ],
        )
    }

    /// Once the primary thread is known and what has waited for it is taken in. Nothing is taken
    /// in where the session is to be moved to a path that could not be made absolute.
    pub open spec fn primary_session_enqueued(
        self,
        session: ThreadSessionStateView,
        turns: Seq<TurnView>,
        cwd: CwdOverrideView,
        reflow: bool,
    ) -> (AppView, Seq<AppEffectView>) {
        let thread_id = session.thread_id;
        let moved = ThreadSessionStateView {
            cwd: if cwd is Absent {
                session.cwd
            } else {
                self.config_cwd
            },
            ..session
        };
        let (known, announcing) = self.primary_session_set(moved, turns);
        if cwd is Unresolvable {
            (known, announcing)
        } else {
            let (next, taking_in) = AppView {
                pending_primary_events: Seq::empty(),
                ..known
            }.events_taken_in(thread_id, known.pending_primary_events);
            (
                next,
                announcing + turns_shown(thread_id, turns, cwd, reflow) + taking_in + seq![
                    AppEffectView::SetInitialUserMessageSuppressed { suppressed: false },
                    AppEffectView::SubmitInitialUserMessage,
                ],
            )
        }
    }
}

/// The steps that show the turns of a session that is resumed.
pub open spec fn turns_shown(
    thread_id: ThreadId,
    turns: Seq<TurnView>,
    cwd: CwdOverrideView,
    reflow: bool,
) -> Seq<AppEffectView> {
    let moving = match cwd {
        CwdOverrideView::Given(cwd) => seq![AppEffectView::ApplyRuntimeCwd { thread_id, cwd }],
        _ => Seq::empty(),
    };
    let replaying = AppEffectView::ReplayTurns { turns, kind: ReplayKind::ResumeInitialMessages };
    if reflow && turns.len() > 0 {
        moving + seq![
            AppEffectView::BeginInitialHistoryReplayBuffer,
            replaying,
            AppEffectView::EndInitialHistoryReplayBuffer,
        ]
    } else {
        moving + seq![replaying]
    }
}

/// Shows the turns of a session that is resumed.
fn show_turns(thread_id: ThreadId, turns: Vec<Turn>, cwd: CwdOverride, reflow: bool) -> (effects:
    Vec<AppEffect>)
    ensures
        effects.deep_view() == turns_shown(
            thread_id,
            turns.deep_view(),
            cwd.deep_view(),
            reflow,
        ),
{
    let mut effects = no_effects();
    if let CwdOverride::Given(cwd) = cwd {
        push_effect(&mut effects, AppEffect::ApplyRuntimeCwd { thread_id, cwd });
    }
    let should_buffer = reflow && turns.len() > 0;
    if should_buffer {
        push_effect(&mut effects, AppEffect::BeginInitialHistoryReplayBuffer);
    }
    push_effect(
        &mut effects,
        AppEffect::ReplayTurns { turns, kind: ReplayKind::ResumeInitialMessages },
    );
    if should_buffer {
        push_effect(&mut effects, AppEffect::EndInitialHistoryReplayBuffer);
    }
    assert(effects.deep_view() =~= turns_shown(
        thread_id,
        turns.deep_view(),
        cwd.deep_view(),
        reflow,
    ));
    effects
}

/// Whether an event tells that its thread has ended.
fn event_tells_end(event: &ThreadBufferedEvent) -> (result: bool)
    ensures
        result == tells_end(event.deep_view()),
{
    match event {
        ThreadBufferedEvent::Notification(notification) => match notification {
            ServerNotification::ThreadClosed => true,
            _ => false,
        },
        _ => false,
    }
}

/// Shows an event of the thread on screen. `request_waits` tells whether a request still waits
/// for an answer; one that does not is not shown.
pub fn handle_thread_event_now(event: ThreadBufferedEvent, request_waits: bool) -> (effects: Vec<
    AppEffect,
>)
    ensures
        effects.deep_view() == event_shown(event.deep_view(), request_waits),
{
    let needs_refresh = match &event {
        ThreadBufferedEvent::Notification(notification) => match notification {
            ServerNotification::TurnStarted { .. } => true,
            ServerNotification::Notice { kind, .. } => *kind == NoticeKind::ThreadTokenUsageUpdated,
            _ => false,
        },
        _ => false,
    };
    let mut effects = no_effects();
    match event {
        ThreadBufferedEvent::Notification(notification) => {
            push_effect(&mut effects, AppEffect::HandleNotification { notification });
        },
        ThreadBufferedEvent::Request(request) => {
            if request_waits {
                push_effect(&mut effects, AppEffect::HandleRequest { request });
            }
        },
        ThreadBufferedEvent::HistoryEntryResponse(response) => {
            push_effect(
                &mut effects,
                AppEffect::HandleHistoryEntry {
                    event: ThreadBufferedEvent::HistoryEntryResponse(response),
                },
            );
        },
        ThreadBufferedEvent::FeedbackSubmission(feedback) => {
            push_effect(
                &mut effects,
                AppEffect::HandleFeedback {
                    event: ThreadBufferedEvent::FeedbackSubmission(feedback),
                },
            );
        },
    }
    if needs_refresh {
        push_effect(&mut effects, AppEffect::RefreshStatusLine);
    }
    assert(effects.deep_view() =~= event_shown(event.deep_view(), request_waits));
    effects
}

/// Offers prompts that were kept with the input to the thread, one after the other, and says
/// which turns to submit.
fn offer_prompts(store: &mut ThreadEventStore, turn_start_pending: bool, prompts: &Vec<String>) -> (ops:
    Vec<AppCommand>)
    ensures
        (final(store)@, ops.deep_view()) == prompts_offered(
            old(store)@,
            turn_start_pending,
            prompts.deep_view(),
        ),
{
    let ghost all = prompts.deep_view();
    let ghost first = store@;
    let mut ops: Vec<AppCommand> = Vec::new();
    assert(ops.deep_view() =~= Seq::<AppCommandView>::empty());
    let mut i: usize = 0;
    while i < prompts.len()
        invariant
            i <= prompts@.len(),
            all == prompts.deep_view(),
            (store@, ops.deep_view()) == prompts_offered(
                first,
                turn_start_pending,
                all.take(i as int),
            ),
        decreases prompts@.len() - i,
    {
        let text = prompts[i].clone();
        assert(text@ == all[i as int]);
        assert(all.take(i + 1).drop_last() =~= all.take(i as int));
        assert(all.take(i + 1).last() == all[i as int]);
        if turn_start_pending {
            store.queue_offscreen_wakeup(text);
        } else {
            let start = store.queue_or_start_offscreen_wakeup(text);
            let op = store.start_wakeup(start);
            if let Some(op) = op {
                let ghost before = ops.deep_view();
                ops.push(op);
                assert(ops.deep_view() =~= before.push(op.deep_view()));
            }
        }
        i = i + 1;
    }
    assert(all.take(i as int) =~= all);
    ops
}

/// Submits turns on a thread.
fn submit_all(thread_id: ThreadId, ops: &Vec<AppCommand>) -> (effects: Vec<AppEffect>)
    ensures
        effects.deep_view() == submissions(thread_id, ops.deep_view()),
{
    let ghost all = ops.deep_view();
    let mut effects = no_effects();
    let mut i: usize = 0;
    assert(submissions(thread_id, all.take(0)) =~= Seq::<AppEffectView>::empty());
    while i < ops.len()
        invariant
            i <= ops@.len(),
            all == ops.deep_view(),
            effects.deep_view() == submissions(thread_id, all.take(i as int)),
        decreases ops@.len() - i,
    {
        assert(all[i as int] == ops@[i as int].deep_view());
        push_effect(&mut effects, AppEffect::SubmitThreadOp { thread_id, op: ops[i].duplicate() });
        assert(effects.deep_view() =~= submissions(thread_id, all.take(i + 1)));
        i = i + 1;
    }
    assert(all.take(i as int) =~= all);
    effects
}

impl App {
    /// Reads a thread's events from now on, where no other thread's are read.
    pub fn activate_thread_channel(&mut self, thread_id: ThreadId) -> (effects: Vec<AppEffect>)
        ensures
            (final(self)@, effects.deep_view()) == old(self)@.activated(thread_id),
    {
        let mut effects = no_effects();
        if self.active_thread_id.is_some() {
            return effects;
        }
        let ghost before = self@;
        self.set_thread_active(thread_id, true);
        let ghost active = self@;
        proof {
            lemma_channel_place(before.channels, thread_id);
            if before.has_store(thread_id) {
                lemma_place_after_update(
                    before.channels,
                    thread_id,
                    active.channels[channel_place(before.channels, thread_id)],
                );
            }
        }
        let place = self.channel_place(thread_id);
        let mut taken = false;
        if place < self.thread_event_channels.len() {
            assert(self.thread_event_channels@[place as int].deep_view()
                == active.channels[place as int]);
            taken = self.thread_event_channels[place].has_receiver;
            self.thread_event_channels[place].has_receiver = false;
            assert(self@.channels =~= active.with_receiver_taken(thread_id).channels);
        }
        self.active_thread_id = Some(thread_id);
        self.has_active_receiver = taken;
        push_effect(&mut effects, self.refresh_pending_thread_approvals());
        assert(self@ =~= before.activated(thread_id).0);
        assert(effects.deep_view() =~= before.activated(thread_id).1);
        effects
    }

    /// Leaves the thread on screen. What was kept of its input goes to its store, and prompts
    /// about terminals that have ended are submitted on it, or wait.
    pub fn store_active_thread_receiver(&mut self, input_state: Option<ThreadInputState>) -> (effects:
        Vec<AppEffect>)
        ensures
            (final(self)@, effects.deep_view()) == old(self)@.left(input_state.deep_view()),
    {
        let thread_id = match self.active_thread_id {
            Some(thread_id) => thread_id,
            None => {
                return no_effects();
            },
        };
        let place = self.channel_place(thread_id);
        if place == self.thread_event_channels.len() {
            return no_effects();
        }
        let ghost before = self@;
        let ghost input = input_state.deep_view();
        assert(self.thread_event_channels@[place as int].deep_view()
            == before.channels[place as int]);
        let closed = self.thread_event_channels[place].store.is_closed();
        let mut input_state = input_state;
        let mut turn_start_pending = false;
        let mut prompts: Vec<String> = Vec::new();
        assert(prompts.deep_view() =~= Seq::<Seq<char>>::empty());
        if let Some(state) = input_state.as_mut() {
            turn_start_pending = state.user_turn_pending_start();
            let queued = state.take_queued_completion_wakeup_prompts();
            if closed {
                state.clear_user_turn_pending_start_for_restore();
                state.clear_background_terminal_processes();
            } else {
                prompts = queued;
            }
        }
        assert(input_state.deep_view() == AppView::kept_input(input, closed));
        let has_active_receiver = self.has_active_receiver;
        self.thread_event_channels[place].store.active = false;
        self.thread_event_channels[place].store.input_state = input_state;
        let ghost rested = self.thread_event_channels@[place as int].store@;
        assert(rested =~= ThreadEventStoreView {
            active: false,
            input_state: AppView::kept_input(input, closed),
            ..before.channels[place as int].store
        });
        let ops = offer_prompts(
            &mut self.thread_event_channels[place].store,
            turn_start_pending,
            &prompts,
        );
        if has_active_receiver {
            self.thread_event_channels[place].has_receiver = true;
        }
        self.has_active_receiver = false;
        let ghost offered = prompts_offered(rested, turn_start_pending, prompts.deep_view());
        assert(self@.channels =~= before.channels.update(
            place as int,
            ThreadChannelView {
                thread_id,
                store: offered.0,
                has_receiver: before.channels[place as int].has_receiver
                    || before.has_active_receiver,
            },
        ));
        submit_all(thread_id, &ops)
    }

    /// Takes what is replayed of a thread that is about to be shown again. There is nothing to
    /// take where the thread's channel is being read from already.
    pub fn activate_thread_for_replay(&mut self, thread_id: ThreadId) -> (snapshot: Option<
        ThreadEventSnapshot,
    >)
        ensures
            (final(self)@, snapshot.deep_view()) == old(self)@.replay_activated(thread_id),
    {
        let place = self.channel_place(thread_id);
        if place == self.thread_event_channels.len() {
            return None;
        }
        let ghost before = self@;
        assert(self.thread_event_channels@[place as int].deep_view()
            == before.channels[place as int]);
        if !self.thread_event_channels[place].has_receiver {
            return None;
        }
        self.thread_event_channels[place].has_receiver = false;
        self.thread_event_channels[place].store.active = true;
        assert(self.thread_event_channels@[place as int].store@ =~= ThreadEventStoreView {
            active: true,
            ..before.channels[place as int].store
        });
        let snapshot = self.thread_event_channels[place].store.snapshot_for_activation();
        assert(self@ =~= before.replay_activated(thread_id).0);
        Some(snapshot)
    }

    /// Reads no thread's events from now on.
    pub fn clear_active_thread(&mut self) -> (effects: Vec<AppEffect>)
        ensures
            (final(self)@, effects.deep_view()) == old(self)@.without_active(),
    {
        if let Some(active_id) = self.active_thread_id {
            self.set_thread_active(active_id, false);
        }
        self.active_thread_id = None;
        self.has_active_receiver = false;
        let mut effects = no_effects();
        push_effect(&mut effects, self.refresh_pending_thread_approvals());
        assert(self@ =~= old(self)@.without_active().0);
        assert(effects.deep_view() =~= old(self)@.without_active().1);
        effects
    }

    /// Takes note of a command of the user on the thread on screen.
    pub fn note_active_thread_outbound_op(&mut self, op: &AppCommand)
        ensures
            final(self)@ == (match old(self)@.active_thread_id {
                Some(thread_id) => if can_settle(op.deep_view()) {
                    old(self)@.with_op_noted(thread_id, op.deep_view())
                } else {
                    old(self)@
                },
                None => old(self)@,
            }),
    {
        if !ThreadEventStore::op_can_change_pending_replay_state(op) {
            return;
        }
        if let Some(thread_id) = self.active_thread_id {
            self.note_thread_outbound_op(thread_id, op);
        }
    }

    /// Whether an event of the thread on screen is of a terminal that the user has stopped.
    pub fn should_drop_stopped_background_terminal_event(&mut self, event: &ThreadBufferedEvent) -> (drop:
        bool)
        ensures
            drop == old(self)@.drops_event(event.deep_view()),
            final(self)@ == old(self)@.stopped_taken(event.deep_view()),
    {
        let notification = match event {
            ThreadBufferedEvent::Notification(notification) => notification,
            _ => {
                return false;
            },
        };
        let thread_id = match self.active_thread_id {
            Some(thread_id) => thread_id,
            None => {
                return false;
            },
        };
        let place = self.channel_place(thread_id);
        if place == self.thread_event_channels.len() {
            return false;
        }
        let ghost before = self@;
        assert(self.thread_event_channels@[place as int].deep_view()
            == before.channels[place as int]);
        let drop =
            self.thread_event_channels[place].store.take_stopped_background_terminal_notification(
            notification,
        );
        assert(self@ =~= before.stopped_taken(event.deep_view()));
        drop
    }

    /// The thread that has ended and the primary thread, where the client goes back to the latter.
    ///
    /// That is so only where the event is the end of the thread on screen, that thread is not the
    /// primary one, and it is not the one whose end the user has asked for in order to leave: a
    /// wish to leave must not bring the main thread back.
    pub fn active_non_primary_shutdown_target(&self, notification: &ServerNotification) -> (target: Option<
        (ThreadId, ThreadId),
    >)
        ensures
            target == self@.failover_target(notification.deep_view()),
    {
        match notification {
            ServerNotification::ThreadClosed => {},
            _ => {
                return None;
            },
        }
        let active = match self.active_thread_id {
            Some(active) => active,
            None => {
                return None;
            },
        };
        let primary = match self.primary_thread_id {
            Some(primary) => primary,
            None => {
                return None;
            },
        };
        if same_id(self.pending_shutdown_exit_thread_id, active) {
            return None;
        }
        if active != primary {
            Some((active, primary))
        } else {
            None
        }
    }

    /// Gets ready to go back to the primary thread, because the thread on screen has ended.
    fn begin_failover(
        &mut self,
        notification: &ServerNotification,
        closed: ThreadId,
        primary: ThreadId,
    ) -> (failover: Failover)
        ensures
            (final(self)@, failover.deep_view()) == old(self)@.failover_begun(
                notification.deep_view(),
                closed,
                primary,
            ),
    {
        let place = self.channel_place(closed);
        if place < self.thread_event_channels.len() {
            let ghost before = self@;
            assert(self.thread_event_channels@[place as int].deep_view()
                == before.channels[place as int]);
            self.thread_event_channels[place].store.push_notification(notification.duplicate());
            assert(self@ =~= before.with_store(
                closed,
                before.store_of(closed)->0.notified(notification.deep_view()),
            ));
        }
        let should_wake = self.should_wake_primary_for_closed_subagent(closed);
        let label = self.subagent_activity_label(closed);
        let is_side = self.is_side_thread(closed);
        let changed = self.agent_navigation.mark_closed(closed);
        let wake_label = if should_wake && changed {
            Some(label)
        } else {
            None
        };
        Failover {
            closed_thread_id: closed,
            primary_thread_id: primary,
            is_side,
            wake_label,
        }
    }

    /// Takes an event of the thread on screen, and says what becomes of it.
    ///
    /// The order matters: an end that was not asked for makes the client go back to the primary
    /// thread; only then is the wish to leave taken as fulfilled; everything else is shown.
    pub fn handle_active_thread_event(&mut self, event: ThreadBufferedEvent) -> (taken: (
        ActiveEventStep,
        Vec<AppEffect>,
    ))
        ensures
            (final(self)@, taken.0.deep_view(), taken.1.deep_view())
                == old(self)@.active_event_taken(event.deep_view()),
    {
        let mut effects = no_effects();
        let completed = event_tells_end(&event) && self.pending_shutdown_exit_thread_id
            == self.active_thread_id;
        if let ThreadBufferedEvent::Notification(notification) = &event {
            if let Some((closed, primary)) = self.active_non_primary_shutdown_target(notification) {
                let failover = self.begin_failover(notification, closed, primary);
                push_effect(&mut effects, AppEffect::AgentEntryChanged { thread_id: closed });
                assert(effects.deep_view() =~= old(self)@.active_event_taken(event.deep_view()).2);
                return (ActiveEventStep::FailOver(failover), effects);
            }
        }
        if completed {
            self.pending_shutdown_exit_thread_id = None;
        }
        if self.should_drop_stopped_background_terminal_event(&event) {
            push_effect(&mut effects, self.sync_background_terminal_activity_summaries());
            assert(effects.deep_view() =~= old(self)@.active_event_taken(event.deep_view()).2);
            return (ActiveEventStep::Dropped, effects);
        }
        (ActiveEventStep::Handle(event), effects)
    }

    /// Shows an event that [`App::handle_active_thread_event`] has let through, and lists the
    /// running terminals anew.
    pub fn show_active_thread_event(&self, event: ThreadBufferedEvent, request_waits: bool) -> (effects:
        Vec<AppEffect>)
        ensures
            effects.deep_view() == event_shown(event.deep_view(), request_waits).push(
                self@.terminals_listed(),
            ),
    {
        let mut effects = handle_thread_event_now(event, request_waits);
        push_effect(&mut effects, self.sync_background_terminal_activity_summaries());
        effects
    }

    /// Says that the client has gone back to the primary thread, or has failed to, and tells the
    /// main agent of the subagent that has ended.
    pub fn finish_failover(&mut self, failover: Failover) -> (effects: Vec<AppEffect>)
        ensures
            (final(self)@, effects.deep_view()) == old(self)@.failover_ended(failover.deep_view()),
    {
        let closed = failover.closed_thread_id;
        let primary = failover.primary_thread_id;
        let closed_text = closed.to_text();
        if same_id(self.active_thread_id, primary) {
            let mut effects = no_effects();
            let message = "Agent thread ".to_owned().concat(closed_text.as_str()).concat(
                " closed. Switched back to main thread.",
            );
            push_effect(&mut effects, AppEffect::AddInfoMessage { message });
            assert(effects.deep_view() =~= seq![
                AppEffectView::AddInfoMessage { message: message@ },
            ]);
            if let Some(label) = failover.wake_label {
                let more = self.queue_or_submit_subagent_completion_wakeup(label, closed);
                push_effects(&mut effects, more);
            }
            effects
        } else {
            let mut effects = self.clear_active_thread();
            let primary_text = primary.to_text();
            let message = "Agent thread ".to_owned().concat(closed_text.as_str()).concat(
                " closed. Failed to switch back to main thread ",
            ).concat(primary_text.as_str()).concat(".");
            let ghost before = effects.deep_view();
            push_effect(&mut effects, AppEffect::AddErrorMessage { message });
            assert(effects.deep_view() =~= before + seq![
                AppEffectView::AddErrorMessage { message: message@ },
            ]);
            effects
        }
    }

    /// Starts to read the events that wait on the thread on screen, where its channel is there to
    /// be read from.
    pub fn begin_drain(&mut self) -> (drained: Option<ThreadId>)
        ensures
            match (old(self)@.active_thread_id, old(self)@.has_active_receiver) {
                (Some(thread_id), true) => drained == Some(thread_id) && final(self)@ == (AppView {
                    has_active_receiver: false,
                    ..old(self)@
                }),
                _ => drained is None && final(self)@ == old(self)@,
            },
    {
        match self.active_thread_id {
            Some(thread_id) => {
                if !self.has_active_receiver {
                    return None;
                }
                self.has_active_receiver = false;
                Some(thread_id)
            },
            None => None,
        }
    }

    /// Whether to stop reading the events of `drained`: another thread is on screen by now.
    pub fn drain_is_over(&self, drained: ThreadId) -> (over: bool)
        ensures
            over == (self@.active_thread_id != Some(drained)),
    {
        !same_id(self.active_thread_id, drained)
    }

    /// Ends reading the events that waited on a thread. `disconnected` tells whether nothing will
    /// come through its channel any more.
    pub fn finish_drain(&mut self, drained: ThreadId, disconnected: bool) -> (effects: Vec<AppEffect>)
        ensures
            (final(self)@, effects.deep_view()) == old(self)@.drained(drained, disconnected),
    {
        if self.drain_is_over(drained) {
            let place = self.channel_place(drained);
            if !disconnected && place < self.thread_event_channels.len() {
                let ghost before = self@;
                assert(self.thread_event_channels@[place as int].deep_view()
                    == before.channels[place as int]);
                self.thread_event_channels[place].has_receiver = true;
                assert(self@ =~= before.drained(drained, disconnected).0);
            }
            no_effects()
        } else if !disconnected {
            self.has_active_receiver = true;
            no_effects()
        } else {
            self.clear_active_thread()
        }
    }

    /// Takes over the turns that are left of a thread once some were taken back.
    pub fn handle_thread_rollback_response(
        &mut self,
        thread_id: ThreadId,
        num_turns: u32,
        turns: &Vec<Turn>,
        disconnected: bool,
    ) -> (effects: Vec<AppEffect>)
        ensures
            (final(self)@, effects.deep_view()) == old(self)@.rolled_back(
                thread_id,
                num_turns,
                turns.deep_view(),
                disconnected,
            ),
    {
        let place = self.channel_place(thread_id);
        if place < self.thread_event_channels.len() {
            let ghost before = self@;
            assert(self.thread_event_channels@[place as int].deep_view()
                == before.channels[place as int]);
            self.thread_event_channels[place].store.apply_thread_rollback(turns);
            assert(self@ =~= before.with_store(
                thread_id,
                before.store_of(thread_id)->0.rolled_back(turns.deep_view()),
            ));
        }
        let mut effects = if same_id(self.active_thread_id, thread_id) && self.has_active_receiver
            && disconnected {
            self.clear_active_thread()
        } else {
            no_effects()
        };
        let ghost before = effects.deep_view();
        push_effect(&mut effects, AppEffect::HandleRollbackSucceeded { num_turns });
        assert(effects.deep_view() =~= before + seq![
            AppEffectView::HandleRollbackSucceeded { num_turns },
        ]);
        effects
    }

    /// Takes over the session of the primary thread, and reads its events from now on.
    fn set_primary_session(&mut self, session: ThreadSessionState, turns: &Vec<Turn>) -> (effects: Vec<
        AppEffect,
    >)
        ensures
            (final(self)@, effects.deep_view()) == old(self)@.primary_session_set(
                session.deep_view(),
                turns.deep_view(),
            ),
    {
        let thread_id = session.thread_id;
        self.primary_thread_id = Some(thread_id);
        self.primary_session_configured = Some(session.duplicate());
        self.agent_navigation.upsert(
            AgentEntry { thread_id, agent_nickname: None, agent_role: None, is_closed: false },
        );
        let place = self.ensure_thread_channel(thread_id);
        let ghost known = self@;
        assert(self.thread_event_channels@[place as int].deep_view()
            == known.channels[place as int]);
        self.thread_event_channels[place].store.set_session(session.duplicate(), turns.duplicate());
        assert(self@ =~= known.with_store(
            thread_id,
            known.store_of(thread_id)->0.with_session(session.deep_view(), turns.deep_view()),
        ));
        let mut effects = no_effects();
        push_effect(&mut effects, AppEffect::AgentEntryChanged { thread_id });
        let activating = self.activate_thread_channel(thread_id);
        push_effects(&mut effects, activating);
        self.widget_thread_id = Some(thread_id);
        push_effect(&mut effects, AppEffect::SetInitialUserMessageSuppressed { suppressed: true });
        push_effect(
            &mut effects,
            AppEffect::ShowSession { session, display: SessionDisplay::Normal },
        );
        assert(effects.deep_view() =~= old(self)@.primary_session_set(
            session.deep_view(),
            turns.deep_view(),
        ).1);
        effects
    }

    /// Takes over the session of the primary thread, shows its turns, and takes in what has waited
    /// for it, in the order in which it came. `reflow` tells whether turns are collected before
    /// they are shown. The result is `false`, and what waits goes on waiting, where the session is
    /// to be moved to a path that could not be made absolute.
    pub fn enqueue_primary_thread_session(
        &mut self,
        session: ThreadSessionState,
        turns: Vec<Turn>,
        runtime_cwd_override: CwdOverride,
        reflow: bool,
    ) -> (enqueued: (bool, Vec<AppEffect>))
        ensures
            enqueued.0 == !(runtime_cwd_override is Unresolvable),
            (final(self)@, enqueued.1.deep_view()) == old(self)@.primary_session_enqueued(
                session.deep_view(),
                turns.deep_view(),
                runtime_cwd_override.deep_view(),
                reflow,
            ),
    {
        let thread_id = session.thread_id;
        let mut session = session;
        match &runtime_cwd_override {
            CwdOverride::Absent => {},
            _ => {
                session.cwd = self.config_cwd.clone();
            },
        }
        let mut effects = self.set_primary_session(session, &turns);
        if let CwdOverride::Unresolvable = &runtime_cwd_override {
            return (false, effects);
        }
        push_effects(&mut effects, show_turns(thread_id, turns, runtime_cwd_override, reflow));
        let taking_in = self.take_in_pending_primary_events(thread_id);
        push_effects(&mut effects, taking_in);
        let ghost before = effects.deep_view();
        push_effect(&mut effects, AppEffect::SetInitialUserMessageSuppressed { suppressed: false });
        push_effect(&mut effects, AppEffect::SubmitInitialUserMessage);
        assert(effects.deep_view() =~= before + seq![
            AppEffectView::SetInitialUserMessageSuppressed { suppressed: false },
            AppEffectView::SubmitInitialUserMessage,
        ]);
        (true, effects)
    }

    /// Takes in what has waited for the primary thread, in the order in which it came.
    fn take_in_pending_primary_events(&mut self, thread_id: ThreadId) -> (effects: Vec<AppEffect>)
        ensures
            (final(self)@, effects.deep_view()) == (AppView {
                pending_primary_events: Seq::empty(),
                ..old(self)@
            }).events_taken_in(thread_id, old(self)@.pending_primary_events),
    {
        let mut pending: VecDeque<ThreadBufferedEvent> = VecDeque::new();
        std::mem::swap(&mut pending, &mut self.pending_primary_events);
        let ghost all = pending.deep_view();
        let ghost first = self@;
        assert(first =~= AppView { pending_primary_events: Seq::empty(), ..old(self)@ });
        let mut effects = no_effects();
        let mut i: usize = 0;
        while i < pending.len()
            invariant
                i <= pending@.len(),
                all == pending.deep_view(),
                (self@, effects.deep_view()) == first.events_taken_in(
                    thread_id,
                    all.take(i as int),
                ),
            decreases pending@.len() - i,
        {
            assert(all[i as int] == pending@[i as int].deep_view());
            assert(all.take(i + 1).drop_last() =~= all.take(i as int));
            assert(all.take(i + 1).last() == all[i as int]);
            let more = self.take_in_event(thread_id, pending[i].duplicate());
            push_effects(&mut effects, more);
            i = i + 1;
        }
        assert(all.take(i as int) =~= all);
        effects
    }
}

/// A channel that changes stays in its place.
proof fn lemma_place_after_update(
    channels: Seq<ThreadChannelView>,
    thread_id: ThreadId,
    channel: ThreadChannelView,
)
    requires
        channel_place(channels, thread_id) < channels.len(),
        channel.thread_id == thread_id,
    ensures
        channel_place(
            channels.update(channel_place(channels, thread_id), channel),
            thread_id,
        ) == channel_place(channels, thread_id),
{
    let place = channel_place(channels, thread_id);
    let next = channels.update(place, channel);
    lemma_channel_place(channels, thread_id);
    lemma_channel_place_is(next, thread_id, place);
}

} // verus!
