//! Showing a thread again, and small decisions around it.
use crate::agent_navigation::{entry_of, is_marked_closed, same_id, AgentEntry, AgentEntryView};
use crate::app_state::{channel_place, App, AppView};
use crate::collections::{retain_vec, Duplicate};
use crate::effects::{
    no_effects, push_effect, push_effects, AppEffect, AppEffectView, ReplayKind, SessionDisplay,
};
use crate::input_state::first_terminal;
use crate::pending_replay::question_of;
use crate::protocol::{
    NoticeKind, ServerNotification, ServerNotificationView, ServerRequest, ThreadBufferedEvent,
    ThreadBufferedEventView, ThreadItem, ThreadItemView, ThreadSessionState, ThreadSessionStateView,
    Turn, TurnView,
};
use crate::text::{trim, trimmed};
use crate::thread_events::{
    related_ids, survives_refresh, ThreadEventSnapshot, ThreadEventSnapshotView, ThreadEventStore,
    ThreadEventStoreView,
};
use crate::thread_id::{uuid_of, ThreadId};
use vstd::prelude::*;
use vstd::string::{StrSliceExecFns, StringExecFns};

verus! {

/// What the client was started for.
#[derive(Debug, Clone, Copy, PartialEq, Eq, Structural)]
pub enum SessionSelection {
    StartFresh,
    Resume,
    Fork,
    Exit,
}

/// A running terminal, as far as it is known.
#[derive(Debug, PartialEq, Eq)]
pub struct RunningTerminal {
    pub command_display: Option<String>,
    pub call_id: Option<String>,
}

/// What a [`RunningTerminal`] means.
#[verifier::ext_equal]
pub ghost struct RunningTerminalView {
    pub command_display: Option<Seq<char>>,
    pub call_id: Option<Seq<char>>,
}

impl DeepView for RunningTerminal {
    type V = RunningTerminalView;

    open spec fn deep_view(&self) -> RunningTerminalView {
        RunningTerminalView {
            command_display: self.command_display.deep_view(),
            call_id: self.call_id.deep_view(),
        }
    }
}

impl Duplicate for RunningTerminal {
    fn duplicate(&self) -> RunningTerminal {
        RunningTerminal {
            command_display: self.command_display.duplicate(),
            call_id: self.call_id.duplicate(),
        }
    }
}

/// What becomes of a wish to stop a terminal.
#[derive(Debug, PartialEq, Eq)]
pub enum StopStep {
    /// It does not run any more, which the user is told.
    NotRunning,
    /// The server is asked to end it.
    Terminate {
        command_display: String,
        call_id: Option<String>,
    },
}

/// What a [`StopStep`] means.
#[verifier::ext_equal]
pub ghost enum StopStepView {
    NotRunning,
    Terminate {
        command_display: Seq<char>,
        call_id: Option<Seq<char>>,
    },
}

impl DeepView for StopStep {
    type V = StopStepView;

    open spec fn deep_view(&self) -> StopStepView {
        match self {
            StopStep::NotRunning => StopStepView::NotRunning,
            StopStep::Terminate { command_display, call_id } => StopStepView::Terminate {
                command_display: command_display@,
                call_id: call_id.deep_view(),
            },
        }
    }
}

impl Duplicate for StopStep {
    fn duplicate(&self) -> StopStep {
        match self {
            StopStep::NotRunning => StopStep::NotRunning,
            StopStep::Terminate { command_display, call_id } => StopStep::Terminate {
                command_display: command_display.clone(),
                call_id: call_id.duplicate(),
            },
        }
    }
}

/// What the server says of the agent that a thread belongs to.
#[derive(Debug, PartialEq, Eq)]
pub struct AgentMetadata {
    pub agent_nickname: Option<String>,
    pub agent_role: Option<String>,
    /// Whether the server has the thread no longer.
    pub not_loaded: bool,
}

/// What an [`AgentMetadata`] means.
#[verifier::ext_equal]
pub ghost struct AgentMetadataView {
    pub agent_nickname: Option<Seq<char>>,
    pub agent_role: Option<Seq<char>>,
    pub not_loaded: bool,
}

impl DeepView for AgentMetadata {
    type V = AgentMetadataView;

    open spec fn deep_view(&self) -> AgentMetadataView {
        AgentMetadataView {
            agent_nickname: self.agent_nickname.deep_view(),
            agent_role: self.agent_role.deep_view(),
            not_loaded: self.not_loaded,
        }
    }
}

/// Whether an event is a notice, which is not shown again while a question is.
pub open spec fn is_notice(event: ThreadBufferedEventView) -> bool {
    event matches ThreadBufferedEventView::Notification(notification)
        && notification matches ServerNotificationView::Notice { kind, .. } && kind
        == NoticeKind::Warning
}

/// Whether an event is a question to the user.
pub open spec fn is_question(event: ThreadBufferedEventView) -> bool {
    event matches ThreadBufferedEventView::Request(request) && question_of(request) is Some
}

/// Whether a question is among the events.
pub open spec fn has_question(events: Seq<ThreadBufferedEventView>) -> bool {
    exists|i: int| 0 <= i < events.len() && is_question(#[trigger] events[i])
}

/// The step that shows an event again.
pub open spec fn event_replayed(event: ThreadBufferedEventView) -> AppEffectView {
    match event {
        ThreadBufferedEventView::HistoryEntryResponse(_) => AppEffectView::HandleHistoryEntry {
            event,
        },
        ThreadBufferedEventView::FeedbackSubmission(_) => AppEffectView::HandleFeedback { event },
        _ => AppEffectView::ReplayEvent { event },
    }
}

/// The steps that show events again, without notices where `suppress` says so.
pub open spec fn events_replayed(events: Seq<ThreadBufferedEventView>, suppress: bool) -> Seq<
    AppEffectView,
> {
    events.filter(|event: ThreadBufferedEventView| !(suppress && is_notice(event))).map_values(
        |event: ThreadBufferedEventView| event_replayed(event),
    )
}

impl AppView {
    /// How the session of a thread that is shown again is announced.
    pub open spec fn session_display(self, thread_id: ThreadId, suppress: bool) -> SessionDisplay {
        if self.is_side(thread_id) {
            SessionDisplay::Side
        } else if suppress {
            SessionDisplay::Quiet
        } else {
            SessionDisplay::Normal
        }
    }

    /// The steps that show a thread again, up to its events.
    pub open spec fn replay_opened(self, snapshot: ThreadEventSnapshotView, reflow: bool) -> Seq<
        AppEffectView,
    > {
        let suppress = has_question(snapshot.events);
        let opening = if reflow && (snapshot.turns.len() > 0 || snapshot.events.len() > 0) {
            seq![AppEffectView::BeginThreadSwitchHistoryReplayBuffer]
        } else {
            Seq::empty()
        };
        let announcing = match snapshot.session {
            Some(session) => seq![
                AppEffectView::ShowSession {
                    session,
                    display: self.session_display(session.thread_id, suppress),
                },
            ],
            None => Seq::empty(),
        };
        let turns = if snapshot.turns.len() > 0 {
            seq![
                AppEffectView::ReplayTurns {
                    turns: snapshot.turns,
                    kind: ReplayKind::ThreadSnapshot,
                },
            ]
        } else {
            Seq::empty()
        };
        opening + announcing + seq![
            AppEffectView::SetQueueAutosendSuppressed { suppressed: true },
            AppEffectView::RestoreInputState { input_state: snapshot.input_state },
        ] + turns
    }

    /// Once a thread is shown again, and the steps that show it.
    pub open spec fn replayed(
        self,
        snapshot: ThreadEventSnapshotView,
        resume_restored_queue: bool,
        reflow: bool,
    ) -> (AppView, Seq<AppEffectView>) {
        (
            AppView {
                widget_thread_id: match snapshot.session {
                    Some(session) => Some(session.thread_id),
                    None => self.widget_thread_id,
                },
                ..self
            },
            self.replay_opened(snapshot, reflow) + events_replayed(
                snapshot.events,
                has_question(snapshot.events),
            ) + replay_closed(
                reflow && (snapshot.turns.len() > 0 || snapshot.events.len() > 0),
                resume_restored_queue,
            ),
        )
    }

    /// Whether the session of a thread that is shown again is fetched anew: where it is not known,
    /// or its model or its record is not.
    pub open spec fn refreshes_session(
        self,
        thread_id: ThreadId,
        is_replay_only: bool,
        session: Option<ThreadSessionStateView>,
    ) -> bool {
        &&& !is_replay_only
        &&& !self.is_side(thread_id)
        &&& match session {
            Some(session) => trimmed(session.model).len() == 0 || session.rollout_path is None,
            None => true,
        }
    }

    /// Once the session of a thread was fetched anew.
    pub open spec fn session_refreshed(
        self,
        thread_id: ThreadId,
        session: ThreadSessionStateView,
        turns: Seq<TurnView>,
    ) -> AppView {
        match self.store_of(thread_id) {
            Some(store) => self.with_store(
                thread_id,
                store.with_session(session, turns).rebased(),
            ),
            None => self,
        }
    }

    /// Whether neither the nickname nor the role of an agent is known.
    pub open spec fn lacks_metadata(self, thread_id: ThreadId) -> bool {
        match entry_of(self.agents, thread_id) {
            Some(entry) => entry.agent_nickname is None && entry.agent_role is None,
            None => true,
        }
    }

    /// Whether the nickname and the role of an agent are to be asked for: where neither is known
    /// and nobody has asked for them yet.
    pub open spec fn asks_metadata(self, thread_id: ThreadId) -> bool {
        !self.asked.contains(thread_id) && self.lacks_metadata(thread_id)
    }

    /// Once a thread was named as one whose nickname and role would be shown, and whether the
    /// server is asked for them on that account. It counts as asked from then on, whatever the
    /// server replies.
    pub open spec fn metadata_tried(self, thread_id: ThreadId) -> (AppView, bool) {
        if self.asks_metadata(thread_id) {
            (AppView { asked: self.asked.push(thread_id), ..self }, true)
        } else {
            (self, false)
        }
    }

    /// Once several threads were named, one after the other, and those that the server is asked
    /// about.
    pub open spec fn receivers_tried(self, receivers: Seq<ThreadId>) -> (AppView, Seq<ThreadId>)
        decreases receivers.len(),
    {
        if receivers.len() == 0 {
            (self, Seq::empty())
        } else {
            let (before, asked) = self.receivers_tried(receivers.drop_last());
            let (next, asks) = before.metadata_tried(receivers.last());
            (
                next,
                if asks {
                    asked.push(receivers.last())
                } else {
                    asked
                },
            )
        }
    }

    /// Once the server has replied to the question for an agent's nickname and role. `reply` is
    /// `None` where they could not be had, which changes nothing and is not reported.
    pub open spec fn metadata_read(self, thread_id: ThreadId, reply: Option<AgentMetadataView>) -> (
        AppView,
        Option<AppEffectView>,
    ) {
        match reply {
            Some(metadata) => (
                self.with_agent(
                    AgentEntryView {
                        thread_id,
                        agent_nickname: metadata.agent_nickname,
                        agent_role: metadata.agent_role,
                        is_closed: metadata.not_loaded || is_marked_closed(self.agents, thread_id),
                    },
                ),
                Some(AppEffectView::AgentEntryChanged { thread_id }),
            ),
            None => (self, None),
        }
    }

    /// What is known of a terminal of a thread: by the screen, where the thread is on it, else by
    /// the thread's store.
    pub open spec fn terminal_of(
        self,
        thread_id: ThreadId,
        process_id: Seq<char>,
        on_screen: RunningTerminalView,
    ) -> RunningTerminalView {
        if self.active_thread_id == Some(thread_id) {
            on_screen
        } else {
            match self.store_of(thread_id) {
                Some(store) => match store.input_state {
                    Some(state) => match first_terminal(state.terminals, seq![process_id]) {
                        Some(terminal) => RunningTerminalView {
                            command_display: Some(terminal.command),
                            call_id: Some(terminal.call_id),
                        },
                        None => RunningTerminalView { command_display: None, call_id: None },
                    },
                    None => RunningTerminalView { command_display: None, call_id: None },
                },
                None => RunningTerminalView { command_display: None, call_id: None },
            }
        }
    }

    /// What becomes of a wish to stop a terminal.
    pub open spec fn stop_step(
        self,
        thread_id: ThreadId,
        process_id: Seq<char>,
        on_screen: RunningTerminalView,
    ) -> (StopStepView, Seq<AppEffectView>) {
        let terminal = self.terminal_of(thread_id, process_id, on_screen);
        match terminal.command_display {
            Some(command_display) => (
                StopStepView::Terminate { command_display, call_id: terminal.call_id },
                Seq::empty(),
            ),
            None => (
                StopStepView::NotRunning,
                seq![
                    AppEffectView::AddErrorMessage {
                        message: "Background terminal is no longer running."@,
                    },
                    self.terminals_listed(),
                ],
            ),
        }
    }

    /// Once the server was asked to end a terminal.
    pub open spec fn terminal_stopped(
        self,
        thread_id: ThreadId,
        process_id: Seq<char>,
        call_id: Option<Seq<char>>,
        command_display: Seq<char>,
    ) -> (AppView, Seq<AppEffectView>) {
        let on_screen = self.active_thread_id == Some(thread_id);
        let next = match self.store_of(thread_id) {
            Some(store) => {
                let stopped = store.with_stopped(
                    related_ids(
                        store.buffer,
                        match call_id {
                            Some(call_id) => call_id,
                            None => process_id,
                        },
                    ),
                );
                self.with_store(
                    thread_id,
                    if on_screen {
                        stopped
                    } else {
                        ThreadEventStoreView {
                            input_state: match stopped.input_state {
                                Some(state) => Some(state.without_terminal(process_id)),
                                None => None,
                            },
                            ..stopped
                        }
                    },
                )
            },
            None => self,
        };
        (
            next,
            (if on_screen {
                seq![AppEffectView::RemoveShownTerminal { process_id }]
            } else {
                Seq::empty()
            }) + seq![
                next.terminals_listed(),
                AppEffectView::AddInfoMessage {
                    message: "Stopping background terminal: "@ + command_display,
                },
            ],
        )
    }

    /// Once all terminals of a thread were stopped.
    pub open spec fn terminals_stopped(self, thread_id: ThreadId) -> (AppView, AppEffectView) {
        let next = match self.store_of(thread_id) {
            Some(store) => self.with_store(thread_id, store.with_all_stopped()),
            None => self,
        };
        (next, next.terminals_listed())
    }

    /// The steps that show what a thread waits for, where it is the parent of a side conversation.
    pub open spec fn side_parent_shown(self, thread_id: ThreadId) -> Seq<AppEffectView> {
        match self.store_of(thread_id) {
            Some(store) => match store.waits_for() {
                Some(status) => seq![AppEffectView::SetSideParentStatus { thread_id, status }],
                None => seq![AppEffectView::ClearSideParentActionStatus { thread_id }],
            },
            None => Seq::empty(),
        }
    }
}

/// The steps that end showing a thread again.
pub open spec fn replay_closed(buffered: bool, resume_restored_queue: bool) -> Seq<AppEffectView> {
    let closing = if buffered {
        seq![
            AppEffectView::MarkReplayedTerminalsLive,
            AppEffectView::EndInitialHistoryReplayBuffer,
        ]
    } else {
        seq![AppEffectView::MarkReplayedTerminalsLive]
    };
    let releasing = seq![
        AppEffectView::SetQueueAutosendSuppressed { suppressed: false },
        AppEffectView::SetInitialUserMessageSuppressed { suppressed: false },
        AppEffectView::SubmitInitialUserMessage,
    ];
    let resuming = if resume_restored_queue {
        seq![AppEffectView::SendNextQueuedInput, AppEffectView::RefreshStatusLine]
    } else {
        seq![AppEffectView::RefreshStatusLine]
    };
    closing + releasing + resuming
}

/// The ids of the threads that a notification about a call between agents names, where they are
/// ids.
pub open spec fn receivers_of(texts: Seq<Seq<char>>) -> Seq<ThreadId>
    decreases texts.len(),
{
    if texts.len() == 0 {
        Seq::empty()
    } else {
        let before = receivers_of(texts.drop_last());
        match uuid_of(texts.last()) {
            Some(value) => before.push(ThreadId { value }),
            None => before,
        }
    }
}

/// The texts that a notification about a call between agents names its receivers by.
pub open spec fn receiver_texts(notification: ServerNotificationView) -> Seq<Seq<char>> {
    match notification {
        ServerNotificationView::ItemStarted { item, .. } => item_receivers(item),
        ServerNotificationView::ItemCompleted { item, .. } => item_receivers(item),
        _ => Seq::empty(),
    }
}

/// The texts that a call between agents names its receivers by.
pub open spec fn item_receivers(item: ThreadItemView) -> Seq<Seq<char>> {
    match item {
        ThreadItemView::CollabAgentToolCall { receiver_thread_ids, .. } => receiver_thread_ids,
        _ => Seq::empty(),
    }
}

/// Whether an event is a notice, which is not shown again while a question is.
pub fn event_is_notice(event: &ThreadBufferedEvent) -> (result: bool)
    ensures
        result == is_notice(event.deep_view()),
{
    match event {
        ThreadBufferedEvent::Notification(notification) => match notification {
            ServerNotification::Notice { kind, .. } => *kind == NoticeKind::Warning,
            _ => false,
        },
        _ => false,
    }
}

/// Whether a question is among the events that are shown again.
pub fn snapshot_has_pending_interactive_request(snapshot: &ThreadEventSnapshot) -> (result: bool)
    ensures
        result == has_question(snapshot.deep_view().events),
{
    let ghost all = snapshot.events.deep_view();
    let mut i: usize = 0;
    while i < snapshot.events.len()
        invariant
            i <= snapshot.events@.len(),
            all == snapshot.events.deep_view(),
            forall|j: int| 0 <= j < i ==> !is_question(#[trigger] all[j]),
        decreases snapshot.events@.len() - i,
    {
        assert(all[i as int] == snapshot.events@[i as int].deep_view());
        if let ThreadBufferedEvent::Request(request) = &snapshot.events[i] {
            match request {
                ServerRequest::Other { .. } => {},
                _ => {
                    assert(is_question(all[i as int]));
                    return true;
                },
            }
        }
        i = i + 1;
    }
    false
}

/// Shows an event again.
pub fn handle_thread_event_replay(event: ThreadBufferedEvent) -> (effect: AppEffect)
    ensures
        effect.deep_view() == event_replayed(event.deep_view()),
{
    match event {
        ThreadBufferedEvent::HistoryEntryResponse(response) => AppEffect::HandleHistoryEntry {
            event: ThreadBufferedEvent::HistoryEntryResponse(response),
        },
        ThreadBufferedEvent::FeedbackSubmission(feedback) => AppEffect::HandleFeedback {
            event: ThreadBufferedEvent::FeedbackSubmission(feedback),
        },
        event => AppEffect::ReplayEvent { event },
    }
}

/// Shows events again, without notices where `suppress` says so.
fn replay_events(events: &Vec<ThreadBufferedEvent>, suppress: bool) -> (effects: Vec<AppEffect>)
    ensures
        effects.deep_view() == events_replayed(events.deep_view(), suppress),
{
    let ghost all = events.deep_view();
    let ghost keep = |event: ThreadBufferedEventView| !(suppress && is_notice(event));
    let ghost show = |event: ThreadBufferedEventView| event_replayed(event);
    let mut effects = no_effects();
    let mut i: usize = 0;
    assert(all.take(0).filter(keep).map_values(show) =~= Seq::<AppEffectView>::empty()) by {
        reveal(Seq::filter);
    }
    while i < events.len()
        invariant
            i <= events@.len(),
            all == events.deep_view(),
            keep == (|event: ThreadBufferedEventView| !(suppress && is_notice(event))),
            show == (|event: ThreadBufferedEventView| event_replayed(event)),
            effects.deep_view() == all.take(i as int).filter(keep).map_values(show),
        decreases events@.len() - i,
    {
        let event = &events[i];
        let ghost kept = all.take(i as int).filter(keep);
        proof {
            assert(event.deep_view() == all[i as int]);
            assert(all.take(i + 1).drop_last() =~= all.take(i as int));
            assert(all.take(i + 1).filter(keep) == (if keep(all[i as int]) {
                kept.push(all[i as int])
            } else {
                kept
            })) by {
                reveal(Seq::filter);
            }
        }
        if !(suppress && event_is_notice(event)) {
            push_effect(&mut effects, handle_thread_event_replay(event.duplicate()));
            assert(effects.deep_view() =~= kept.push(all[i as int]).map_values(show));
        }
        i = i + 1;
    }
    assert(all.take(i as int) =~= all);
    effects
}

/// Ends showing a thread again.
fn close_replay(buffered: bool, resume_restored_queue: bool) -> (effects: Vec<AppEffect>)
    ensures
        effects.deep_view() == replay_closed(buffered, resume_restored_queue),
{
    let mut effects = no_effects();
    push_effect(&mut effects, AppEffect::MarkReplayedTerminalsLive);
    if buffered {
        push_effect(&mut effects, AppEffect::EndInitialHistoryReplayBuffer);
    }
    push_effect(&mut effects, AppEffect::SetQueueAutosendSuppressed { suppressed: false });
    push_effect(&mut effects, AppEffect::SetInitialUserMessageSuppressed { suppressed: false });
    push_effect(&mut effects, AppEffect::SubmitInitialUserMessage);
    if resume_restored_queue {
        push_effect(&mut effects, AppEffect::SendNextQueuedInput);
    }
    push_effect(&mut effects, AppEffect::RefreshStatusLine);
    assert(effects.deep_view() =~= replay_closed(buffered, resume_restored_queue));
    effects
}

/// Whether the client waits for a session before it shows events.
pub fn should_wait_for_initial_session(session_selection: SessionSelection) -> (result: bool)
    ensures
        result == (session_selection == SessionSelection::StartFresh || session_selection
            == SessionSelection::Exit),
{
    session_selection == SessionSelection::StartFresh || session_selection == SessionSelection::Exit
}

/// Whether the user is asked about a paused goal: where a session is resumed and nothing else is
/// asked for.
pub fn should_prompt_for_paused_goal_after_startup_resume(
    session_selection: SessionSelection,
    initial_prompt: &Option<String>,
    initial_images: &Vec<String>,
) -> (result: bool)
    ensures
        result == (session_selection == SessionSelection::Resume && initial_prompt is None
            && initial_images@.len() == 0),
{
    session_selection == SessionSelection::Resume && initial_prompt.is_none()
        && initial_images.len() == 0
}

/// Whether events of the thread on screen are shown.
pub fn should_handle_active_thread_events(
    waiting_for_initial_session_configured: bool,
    has_active_thread_receiver: bool,
) -> (result: bool)
    ensures
        result == (has_active_thread_receiver && !waiting_for_initial_session_configured),
{
    has_active_thread_receiver && !waiting_for_initial_session_configured
}

/// Whether the client has waited long enough for a session: the primary thread is known.
pub fn should_stop_waiting_for_initial_session(
    waiting_for_initial_session_configured: bool,
    primary_thread_id: Option<ThreadId>,
) -> (result: bool)
    ensures
        result == (waiting_for_initial_session_configured && primary_thread_id is Some),
{
    waiting_for_initial_session_configured && primary_thread_id.is_some()
}

/// The threads that a notification about a call between agents names. What is no id is left out.
pub fn collab_receiver_thread_ids(notification: &ServerNotification) -> (receivers: Vec<ThreadId>)
    ensures
        receivers@ == receivers_of(receiver_texts(notification.deep_view())),
{
    let item = match notification {
        ServerNotification::ItemStarted { item, .. } => item,
        ServerNotification::ItemCompleted { item, .. } => item,
        _ => {
            let none: Vec<ThreadId> = Vec::new();
            return none;
        },
    };
    let mut receivers: Vec<ThreadId> = Vec::new();
    if let ThreadItem::CollabAgentToolCall { receiver_thread_ids, .. } = item {
        let ghost all = receiver_thread_ids.deep_view();
        let mut i: usize = 0;
        while i < receiver_thread_ids.len()
            invariant
                i <= receiver_thread_ids@.len(),
                all == receiver_thread_ids.deep_view(),
                receivers@ == receivers_of(all.take(i as int)),
            decreases receiver_thread_ids@.len() - i,
        {
            assert(all.take(i + 1).drop_last() =~= all.take(i as int));
            assert(all.take(i + 1).last() == receiver_thread_ids@[i as int]@);
            if let Some(id) = ThreadId::from_string(receiver_thread_ids[i].as_str()) {
                receivers.push(id);
            }
            i = i + 1;
        }
        assert(all.take(i as int) =~= all);
    }
    receivers
}

impl App {
    /// Starts to show a thread again, up to its events.
    fn open_replay(&self, snapshot: &ThreadEventSnapshot, suppress: bool, reflow: bool) -> (effects: Vec<
        AppEffect,
    >)
        requires
            suppress == has_question(snapshot.deep_view().events),
        ensures
            effects.deep_view() == self@.replay_opened(snapshot.deep_view(), reflow),
    {
        let mut effects = no_effects();
        if reflow && (snapshot.turns.len() > 0 || snapshot.events.len() > 0) {
            push_effect(&mut effects, AppEffect::BeginThreadSwitchHistoryReplayBuffer);
        }
        if let Some(session) = &snapshot.session {
            let display = if self.is_side_thread(session.thread_id) {
                SessionDisplay::Side
            } else if suppress {
                SessionDisplay::Quiet
            } else {
                SessionDisplay::Normal
            };
            push_effect(
                &mut effects,
                AppEffect::ShowSession { session: session.duplicate(), display },
            );
        }
        push_effect(&mut effects, AppEffect::SetQueueAutosendSuppressed { suppressed: true });
        push_effect(
            &mut effects,
            AppEffect::RestoreInputState { input_state: snapshot.input_state.duplicate() },
        );
        if snapshot.turns.len() > 0 {
            push_effect(
                &mut effects,
                AppEffect::ReplayTurns {
                    turns: snapshot.turns.duplicate(),
                    kind: ReplayKind::ThreadSnapshot,
                },
            );
        }
        assert(effects.deep_view() =~= self@.replay_opened(snapshot.deep_view(), reflow));
        effects
    }

    /// Shows a thread again: its session, what was kept of its input, its turns and its events.
    /// Notices are left out while a question is shown, so that they do not cover it. `reflow`
    /// tells whether what is shown is collected first.
    pub fn replay_thread_snapshot(
        &mut self,
        snapshot: ThreadEventSnapshot,
        resume_restored_queue: bool,
        reflow: bool,
    ) -> (effects: Vec<AppEffect>)
        ensures
            (final(self)@, effects.deep_view()) == old(self)@.replayed(
                snapshot.deep_view(),
                resume_restored_queue,
                reflow,
            ),
    {
        let suppress = snapshot_has_pending_interactive_request(&snapshot);
        let mut effects = self.open_replay(&snapshot, suppress, reflow);
        if let Some(session) = &snapshot.session {
            self.widget_thread_id = Some(session.thread_id);
        }
        push_effects(&mut effects, replay_events(&snapshot.events, suppress));
        let buffered = reflow && (snapshot.turns.len() > 0 || snapshot.events.len() > 0);
        push_effects(&mut effects, close_replay(buffered, resume_restored_queue));
        effects
    }

    /// Whether the session of a thread that is shown again is fetched anew.
    pub fn should_refresh_snapshot_session(
        &self,
        thread_id: ThreadId,
        is_replay_only: bool,
        snapshot: &ThreadEventSnapshot,
    ) -> (result: bool)
        ensures
            result == self@.refreshes_session(
                thread_id,
                is_replay_only,
                snapshot.deep_view().session,
            ),
    {
        if is_replay_only || self.is_side_thread(thread_id) {
            return false;
        }
        match &snapshot.session {
            Some(session) => trim(session.model.as_str()).unicode_len() == 0
                || session.rollout_path.is_none(),
            None => true,
        }
    }

    /// Takes over a session that was fetched anew, for the thread's store and for what is about to
    /// be shown again. Events that the session holds are dropped from both.
    pub fn apply_refreshed_snapshot_thread(
        &mut self,
        thread_id: ThreadId,
        session: ThreadSessionState,
        turns: Vec<Turn>,
        snapshot: &mut ThreadEventSnapshot,
    )
        ensures
            final(self)@ == old(self)@.session_refreshed(
                thread_id,
                session.deep_view(),
                turns.deep_view(),
            ),
            final(snapshot).deep_view() == (ThreadEventSnapshotView {
                session: Some(session.deep_view()),
                turns: turns.deep_view(),
                events: old(snapshot).deep_view().events.filter(
                    |event: ThreadBufferedEventView| survives_refresh(event),
                ),
                input_state: old(snapshot).deep_view().input_state,
            }),
    {
        let place = self.channel_place(thread_id);
        if place < self.thread_event_channels.len() {
            let ghost before = self@;
            assert(self.thread_event_channels@[place as int].deep_view()
                == before.channels[place as int]);
            self.thread_event_channels[place].store.set_session(
                session.duplicate(),
                turns.duplicate(),
            );
            self.thread_event_channels[place].store.rebase_buffer_after_session_refresh();
            assert(self@ =~= before.session_refreshed(
                thread_id,
                session.deep_view(),
                turns.deep_view(),
            ));
        }
        snapshot.session = Some(session);
        snapshot.turns = turns;
        let ghost wanted = |event: ThreadBufferedEventView| survives_refresh(event);
        let keep = |event: &ThreadBufferedEvent| -> (kept: bool)
            ensures
                kept == wanted(event.deep_view()),
            { ThreadEventStore::event_survives_session_refresh(event) };
        retain_vec(&mut snapshot.events, keep, Ghost(wanted));
    }

    /// Whether the nickname and the role of an agent are to be asked for. They are not where one
    /// of them is known, nor where they were asked for before, so that an agent is asked about at
    /// most once.
    pub fn needs_agent_metadata(&self, thread_id: ThreadId) -> (result: bool)
        ensures
            result == (!self@.asked.contains(thread_id) && self@.lacks_metadata(thread_id)),
    {
        let mut i: usize = 0;
        while i < self.agent_metadata_asked.len()
            invariant
                i <= self.agent_metadata_asked@.len(),
                forall|j: int| 0 <= j < i ==> (#[trigger] self@.asked[j]) != thread_id,
            decreases self.agent_metadata_asked@.len() - i,
        {
            assert(self@.asked[i as int] == self.agent_metadata_asked@[i as int]);
            if self.agent_metadata_asked[i] == thread_id {
                return false;
            }
            i = i + 1;
        }
        match self.agent_navigation.get(thread_id) {
            Some(entry) => entry.agent_nickname.is_none() && entry.agent_role.is_none(),
            None => true,
        }
    }

    /// Says whether the server is to be asked for the nickname and the role of an agent now, and
    /// if so notes that it was.
    pub fn try_agent_metadata(&mut self, thread_id: ThreadId) -> (ask: bool)
        ensures
            (final(self)@, ask) == old(self)@.metadata_tried(thread_id),
    {
        let ghost before = self@;
        let ask = self.needs_agent_metadata(thread_id);
        if ask {
            self.agent_metadata_asked.push(thread_id);
            assert(self@ =~= before.metadata_tried(thread_id).0);
        }
        ask
    }

    /// The threads to ask the server about before a notification is shown, so that the agents that
    /// it names are shown by their nicknames and roles. They are noted as asked about.
    pub fn hydrate_collab_agent_metadata_for_notification(
        &mut self,
        notification: &ServerNotification,
    ) -> (asked: Vec<ThreadId>)
        ensures
            (final(self)@, asked@) == old(self)@.receivers_tried(
                receivers_of(receiver_texts(notification.deep_view())),
            ),
    {
        let receivers = collab_receiver_thread_ids(notification);
        let ghost before = self@;
        let ghost all = receivers@;
        let mut asked: Vec<ThreadId> = Vec::new();
        let mut i: usize = 0;
        while i < receivers.len()
            invariant
                i <= receivers@.len(),
                all == receivers@,
                (self@, asked@) == before.receivers_tried(all.take(i as int)),
            decreases receivers@.len() - i,
        {
            assert(all.take(i + 1).drop_last() =~= all.take(i as int));
            assert(all.take(i + 1).last() == all[i as int]);
            if self.try_agent_metadata(receivers[i]) {
                asked.push(receivers[i]);
            }
            i = i + 1;
        }
        assert(all.take(i as int) =~= all);
        asked
    }

    /// Takes over the nickname and the role of an agent that the server was asked about. `reply`
    /// is `None` where they could not be had: the thread is then shown by its id.
    pub fn finish_agent_metadata(&mut self, thread_id: ThreadId, reply: Option<AgentMetadata>) -> (effect:
        Option<AppEffect>)
        ensures
            (final(self)@, effect.deep_view()) == old(self)@.metadata_read(
                thread_id,
                reply.deep_view(),
            ),
    {
        match reply {
            Some(metadata) => {
                let is_closed = metadata.not_loaded || self.agent_navigation.is_closed(thread_id);
                self.agent_navigation.upsert(
                    AgentEntry {
                        thread_id,
                        agent_nickname: metadata.agent_nickname,
                        agent_role: metadata.agent_role,
                        is_closed,
                    },
                );
                Some(AppEffect::AgentEntryChanged { thread_id })
            },
            None => None,
        }
    }

    /// Says that a thread is on screen already, where it is, instead of switching to it.
    pub fn ignore_same_thread_resume(&self, thread_id: ThreadId, display_label: &str) -> (effect: Option<
        AppEffect,
    >)
        ensures
            effect.deep_view() == (if self@.active_thread_id == Some(thread_id) {
                Some(
                    AppEffectView::AddInfoMessage {
                        message: "Already viewing "@ + display_label@ + "."@,
                    },
                )
            } else {
                None
            }),
    {
        if !same_id(self.active_thread_id, thread_id) {
            return None;
        }
        Some(
            AppEffect::AddInfoMessage {
                message: "Already viewing ".to_owned().concat(display_label).concat("."),
            },
        )
    }

    /// What is known of a terminal of a thread that is not on screen.
    fn stored_terminal(&self, thread_id: ThreadId, process_id: &String) -> (terminal: RunningTerminal)
        ensures
            self@.active_thread_id != Some(thread_id) ==> forall|on_screen: RunningTerminalView|
                terminal.deep_view() == #[trigger] self@.terminal_of(
                    thread_id,
                    process_id@,
                    on_screen,
                ),
    {
        let place = self.channel_place(thread_id);
        if place < self.thread_event_channels.len() {
            let channel = &self.thread_event_channels[place];
            assert(channel.deep_view() == self@.channels[place as int]);
            if let Some(state) = &channel.store.input_state {
                return RunningTerminal {
                    command_display: state.background_terminal_command_display(process_id),
                    call_id: state.background_terminal_call_id(process_id),
                };
            }
        }
        RunningTerminal { command_display: None, call_id: None }
    }

    /// Says what becomes of a wish to stop a terminal. `on_screen` is what the screen knows of it.
    pub fn stop_background_terminal(
        &self,
        thread_id: ThreadId,
        process_id: &String,
        on_screen: RunningTerminal,
    ) -> (step: (StopStep, Vec<AppEffect>))
        ensures
            (step.0.deep_view(), step.1.deep_view()) == self@.stop_step(
                thread_id,
                process_id@,
                on_screen.deep_view(),
            ),
    {
        let terminal = if same_id(self.active_thread_id, thread_id) {
            on_screen
        } else {
            self.stored_terminal(thread_id, process_id)
        };
        assert(terminal.deep_view() == self@.terminal_of(
            thread_id,
            process_id@,
            on_screen.deep_view(),
        ));
        let mut effects = no_effects();
        match terminal.command_display {
            Some(command_display) => (
                StopStep::Terminate { command_display, call_id: terminal.call_id },
                effects,
            ),
            None => {
                push_effect(
                    &mut effects,
                    AppEffect::AddErrorMessage {
                        message: "Background terminal is no longer running.".to_owned(),
                    },
                );
                push_effect(&mut effects, self.sync_background_terminal_activity_summaries());
                assert(effects.deep_view() =~= self@.stop_step(
                    thread_id,
                    process_id@,
                    on_screen.deep_view(),
                ).1);
                (StopStep::NotRunning, effects)
            },
        }
    }

    /// Notes that the server was asked to end a terminal: what comes of it from now on is dropped.
    pub fn background_terminal_stopped(
        &mut self,
        thread_id: ThreadId,
        process_id: String,
        call_id: &Option<String>,
        command_display: &str,
    ) -> (effects: Vec<AppEffect>)
        ensures
            (final(self)@, effects.deep_view()) == old(self)@.terminal_stopped(
                thread_id,
                process_id@,
                call_id.deep_view(),
                command_display@,
            ),
    {
        let mut effects = no_effects();
        let on_screen = same_id(self.active_thread_id, thread_id);
        let place = self.channel_place(thread_id);
        if place < self.thread_event_channels.len() {
            let ghost before = self@;
            assert(self.thread_event_channels@[place as int].deep_view()
                == before.channels[place as int]);
            self.thread_event_channels[place].store.mark_background_terminal_stopped(
                &process_id,
                call_id,
            );
            if !on_screen {
                if let Some(input_state) = self.thread_event_channels[place].store.input_state.as_mut() {
                    input_state.remove_background_terminal_process(&process_id);
                }
            }
            assert(self@ =~= before.terminal_stopped(
                thread_id,
                process_id@,
                call_id.deep_view(),
                command_display@,
            ).0);
        }
        if on_screen {
            push_effect(&mut effects, AppEffect::RemoveShownTerminal { process_id });
        }
        push_effect(&mut effects, self.sync_background_terminal_activity_summaries());
        push_effect(
            &mut effects,
            AppEffect::AddInfoMessage {
                message: "Stopping background terminal: ".to_owned().concat(command_display),
            },
        );
        assert(effects.deep_view() =~= old(self)@.terminal_stopped(
            thread_id,
            process_id@,
            call_id.deep_view(),
            command_display@,
        ).1);
        effects
    }

    /// Notes that all terminals of a thread were stopped.
    pub fn mark_background_terminals_stopped_for_thread(&mut self, thread_id: ThreadId) -> (effect:
        AppEffect)
        ensures
            (final(self)@, effect.deep_view()) == old(self)@.terminals_stopped(thread_id),
    {
        let place = self.channel_place(thread_id);
        if place < self.thread_event_channels.len() {
            let ghost before = self@;
            assert(self.thread_event_channels@[place as int].deep_view()
                == before.channels[place as int]);
            self.thread_event_channels[place].store.mark_all_background_terminals_stopped();
            assert(self@ =~= before.terminals_stopped(thread_id).0);
        }
        self.sync_background_terminal_activity_summaries()
    }

    /// Shows what a thread waits for, where it is the parent of a side conversation.
    pub fn refresh_side_parent_status_from_store(&self, thread_id: ThreadId) -> (effects: Vec<
        AppEffect,
    >)
        ensures
            effects.deep_view() == self@.side_parent_shown(thread_id),
    {
        let mut effects = no_effects();
        let place = self.channel_place(thread_id);
        if place < self.thread_event_channels.len() {
            let channel = &self.thread_event_channels[place];
            assert(channel.deep_view() == self@.channels[place as int]);
            match channel.store.side_parent_pending_status() {
                Some(status) => push_effect(
                    &mut effects,
                    AppEffect::SetSideParentStatus { thread_id, status },
                ),
                None => push_effect(
                    &mut effects,
                    AppEffect::ClearSideParentActionStatus { thread_id },
                ),
            }
            assert(effects.deep_view() =~= self@.side_parent_shown(thread_id));
        }
        effects
    }
}

} // verus!
