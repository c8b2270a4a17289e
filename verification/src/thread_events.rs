//! Thread event buffering and replay state.
//!
//! Each thread has an event store. It keeps the notifications and requests that came in for the
//! thread, which questions of it are still open, which turn runs on it and, while another thread
//! is on screen, what is to happen on it: background terminals that end, and prompts that wake
//! the agent up. When the user comes back to the thread, the store is what is replayed.
use crate::collections::{overlap, retain_deque, texts_overlap, Duplicate, TextSet};
use crate::input_state::{
    completion_of, first_terminal, InactiveBackgroundTerminalCompletion,
    InactiveBackgroundTerminalCompletionView, ThreadInputState, ThreadInputStateView,
};
use crate::pending_replay::{
    after_eviction, after_notification, after_op, after_request, asks_approval, asks_input,
    can_settle, is_some_text, still_asked, PendingInteractiveReplayState, PendingRequestView,
};
use crate::protocol::{
    AppCommand, CommandExecutionSource, FileUpdateChange, FileUpdateChangeView,
    HistoryLookupResponse, NoticeKind, ServerNotification, ServerNotificationView, ServerRequest,
    ServerRequestView, ThreadBufferedEvent, ThreadBufferedEventView, ThreadItem, ThreadItemView,
    ThreadSessionState, ThreadSessionStateView, Turn, TurnStatus, TurnView,
};
use crate::terminal_ids::{
    background_terminal_event_matches_identifiers, background_terminal_identifiers_from_command,
    background_terminal_identifiers_from_notification,
    background_terminal_reusable_identifiers_from_notification,
    background_terminal_stable_identifiers_from_notification,
    closed_store_should_drop_late_notification, command_execution_is_background_terminal,
    command_ids, event_matches, is_late, is_terminal_event, is_terminal_item, is_terminal_source,
    notification_ids, notification_reusable_ids, notification_stable_ids, push_unique_identifier,
    thread_event_is_background_terminal, with_id,
};
use std::collections::VecDeque;
use vstd::prelude::*;
use vstd::string::StrSliceExecFns;

verus! {

/// What the parent of a side conversation waits for.
#[derive(Debug, Clone, Copy, PartialEq, Eq, Structural)]
pub enum SideParentStatus {
    NeedsInput,
    NeedsApproval,
    Finished,
    Interrupted,
    Failed,
    Closed,
}

/// What is replayed when the user comes back to a thread.
#[derive(Debug, PartialEq, Eq)]
pub struct ThreadEventSnapshot {
    pub session: Option<ThreadSessionState>,
    pub turns: Vec<Turn>,
    pub events: Vec<ThreadBufferedEvent>,
    pub input_state: Option<ThreadInputState>,
}

/// What a [`ThreadEventSnapshot`] means.
#[verifier::ext_equal]
pub ghost struct ThreadEventSnapshotView {
    pub session: Option<ThreadSessionStateView>,
    pub turns: Seq<TurnView>,
    pub events: Seq<ThreadBufferedEventView>,
    pub input_state: Option<ThreadInputStateView>,
}

impl DeepView for ThreadEventSnapshot {
    type V = ThreadEventSnapshotView;

    open spec fn deep_view(&self) -> ThreadEventSnapshotView {
        ThreadEventSnapshotView {
            session: self.session.deep_view(),
            turns: self.turns.deep_view(),
            events: self.events.deep_view(),
            input_state: self.input_state.deep_view(),
        }
    }
}

impl Duplicate for ThreadEventSnapshot {
    fn duplicate(&self) -> ThreadEventSnapshot {
        ThreadEventSnapshot {
            session: self.session.duplicate(),
            turns: self.turns.duplicate(),
            events: self.events.duplicate(),
            input_state: self.input_state.duplicate(),
        }
    }
}

/// What follows from a notification about a background terminal.
#[derive(Debug, PartialEq, Eq)]
pub struct InactiveBackgroundTerminalNotificationResult {
    /// A prompt to submit now, that wakes the agent up.
    pub wakeup_text: Option<String>,
    /// Whether the notification goes no further.
    pub drop_notification: bool,
}

/// What a [`InactiveBackgroundTerminalNotificationResult`] means.
#[verifier::ext_equal]
pub ghost struct InactiveBackgroundTerminalNotificationResultView {
    pub wakeup_text: Option<Seq<char>>,
    pub drop_notification: bool,
}

impl DeepView for InactiveBackgroundTerminalNotificationResult {
    type V = InactiveBackgroundTerminalNotificationResultView;

    open spec fn deep_view(&self) -> InactiveBackgroundTerminalNotificationResultView {
        InactiveBackgroundTerminalNotificationResultView {
            wakeup_text: self.wakeup_text.deep_view(),
            drop_notification: self.drop_notification,
        }
    }
}

impl Duplicate for InactiveBackgroundTerminalNotificationResult {
    fn duplicate(&self) -> InactiveBackgroundTerminalNotificationResult {
        InactiveBackgroundTerminalNotificationResult {
            wakeup_text: self.wakeup_text.duplicate(),
            drop_notification: self.drop_notification,
        }
    }
}

/// What a thread's event store holds.
#[verifier::ext_equal]
pub ghost struct ThreadEventStoreView {
    pub session: Option<ThreadSessionStateView>,
    pub turns: Seq<TurnView>,
    /// The events, the oldest first.
    pub buffer: Seq<ThreadBufferedEventView>,
    /// The questions that are open, the oldest first.
    pub pending: Seq<PendingRequestView>,
    pub active_turn_id: Option<Seq<char>>,
    pub input_state: Option<ThreadInputStateView>,
    pub capacity: nat,
    pub active: bool,
    pub closed: bool,
    /// The prompts that wait to wake the agent up, the oldest first.
    pub wakeups: Seq<Seq<char>>,
    /// Whether a prompt that wakes the agent up was handed out and its turn has not ended.
    pub wakeup_in_flight: bool,
    /// The names of the terminals that the user has stopped.
    pub stopped: Set<Seq<char>>,
}

/// Whether an event is kept when the session is fetched anew.
pub open spec fn survives_refresh(event: ThreadBufferedEventView) -> bool {
    match event {
        ThreadBufferedEventView::Request(_) => true,
        ThreadBufferedEventView::FeedbackSubmission(_) => true,
        ThreadBufferedEventView::Notification(notification) => match notification {
            ServerNotificationView::Notice { kind, .. } => kind == NoticeKind::HookStarted || kind
                == NoticeKind::HookCompleted,
            _ => false,
        },
        ThreadBufferedEventView::HistoryEntryResponse(_) => false,
    }
}

/// Whether an event is kept when its thread closes.
pub open spec fn survives_close(event: ThreadBufferedEventView) -> bool {
    !(event is Request) && !is_terminal_event(event)
}

/// The last turn that is in progress.
pub open spec fn running_turn(turns: Seq<TurnView>) -> Option<Seq<char>>
    decreases turns.len(),
{
    if turns.len() == 0 {
        None
    } else if turns.last().status == TurnStatus::InProgress {
        Some(turns.last().id)
    } else {
        running_turn(turns.drop_last())
    }
}

/// Whether an event ends a terminal that goes by one of `ids`.
pub open spec fn ends_terminal(event: ThreadBufferedEventView, ids: Seq<Seq<char>>) -> bool {
    event matches ThreadBufferedEventView::Notification(notification)
        && notification is ItemCompleted && overlap(ids, notification_ids(notification))
}

/// Whether the event at `i` starts a terminal that no later event ends.
pub open spec fn starts_live_terminal(buffer: Seq<ThreadBufferedEventView>, i: int) -> bool {
    &&& buffer[i] matches ThreadBufferedEventView::Notification(notification)
    &&& notification matches ServerNotificationView::ItemStarted { item, .. }
    &&& is_terminal_item(item)
    &&& forall|j: int|
        i < j < buffer.len() ==> !ends_terminal(
            #[trigger] buffer[j],
            notification_ids(notification),
        )
}

/// `ids` with those of `more` at its end that it does not hold already.
pub open spec fn with_ids(ids: Seq<Seq<char>>, more: Seq<Seq<char>>) -> Seq<Seq<char>>
    decreases more.len(),
{
    if more.len() == 0 {
        ids
    } else {
        with_id(with_ids(ids, more.drop_last()), more.last())
    }
}

/// The calls that started the live terminals among the first `n` events, each once.
pub open spec fn live_ids(buffer: Seq<ThreadBufferedEventView>, n: int) -> Seq<Seq<char>>
    decreases n,
{
    if n <= 0 {
        Seq::empty()
    } else if starts_live_terminal(buffer, n - 1) {
        with_ids(live_ids(buffer, n - 1), notification_stable_ids(buffer[n - 1]->Notification_0))
    } else {
        live_ids(buffer, n - 1)
    }
}

/// The calls of all terminals that the events tell of, whether they run or have ended, each once.
pub open spec fn all_ids(buffer: Seq<ThreadBufferedEventView>) -> Seq<Seq<char>>
    decreases buffer.len(),
{
    if buffer.len() == 0 {
        Seq::empty()
    } else {
        let before = all_ids(buffer.drop_last());
        match buffer.last() {
            ThreadBufferedEventView::Notification(notification) => match notification {
                ServerNotificationView::ItemStarted { .. } => with_ids(
                    before,
                    notification_stable_ids(notification),
                ),
                ServerNotificationView::ItemCompleted { .. } => with_ids(
                    before,
                    notification_stable_ids(notification),
                ),
                _ => before,
            },
            _ => before,
        }
    }
}

/// The names that stand for the same terminal as `first`, as the events tell: whenever one of
/// them comes up, so does the call that is named with it.
pub open spec fn related_ids(buffer: Seq<ThreadBufferedEventView>, first: Seq<char>) -> Seq<Seq<char>>
    decreases buffer.len(),
{
    if buffer.len() == 0 {
        seq![first]
    } else {
        let ids = related_ids(buffer.drop_last(), first);
        match buffer.last() {
            ThreadBufferedEventView::Notification(notification) => if overlap(
                notification_ids(notification),
                ids,
            ) {
                with_ids(ids, notification_stable_ids(notification))
            } else {
                ids
            },
            _ => ids,
        }
    }
}

/// Whether a request for changes on `turn_id` accepts those of `candidate`: any turn will do
/// where the request names none.
pub open spec fn turn_accepts(turn_id: Seq<char>, candidate: Seq<char>) -> bool {
    turn_id.len() == 0 || turn_id == candidate
}

/// The changes of an item, where it is the file change `item_id`.
pub open spec fn item_changes(item: ThreadItemView, item_id: Seq<char>) -> Option<
    Seq<FileUpdateChangeView>,
> {
    match item {
        ThreadItemView::FileChange { id, changes, .. } => if id == item_id {
            Some(changes)
        } else {
            None
        },
        _ => None,
    }
}

/// The changes that an event tells of, where it is about the file change `item_id`.
pub open spec fn event_changes(
    event: ThreadBufferedEventView,
    request_turn_id: Seq<char>,
    item_id: Seq<char>,
) -> Option<Seq<FileUpdateChangeView>> {
    match event {
        ThreadBufferedEventView::Notification(notification) => match notification {
            ServerNotificationView::ItemStarted { turn_id, item } => if turn_accepts(
                request_turn_id,
                turn_id,
            ) {
                item_changes(item, item_id)
            } else {
                None
            },
            ServerNotificationView::ItemCompleted { turn_id, item } => if turn_accepts(
                request_turn_id,
                turn_id,
            ) {
                item_changes(item, item_id)
            } else {
                None
            },
            _ => None,
        },
        _ => None,
    }
}

/// The changes that the newest such event tells of.
pub open spec fn newest_event_changes(
    buffer: Seq<ThreadBufferedEventView>,
    turn_id: Seq<char>,
    item_id: Seq<char>,
) -> Option<Seq<FileUpdateChangeView>>
    decreases buffer.len(),
{
    if buffer.len() == 0 {
        None
    } else {
        match event_changes(buffer.last(), turn_id, item_id) {
            Some(changes) => Some(changes),
            None => newest_event_changes(buffer.drop_last(), turn_id, item_id),
        }
    }
}

/// The changes of the last such item.
pub open spec fn newest_item_changes(items: Seq<ThreadItemView>, item_id: Seq<char>) -> Option<
    Seq<FileUpdateChangeView>,
>
    decreases items.len(),
{
    if items.len() == 0 {
        None
    } else {
        match item_changes(items.last(), item_id) {
            Some(changes) => Some(changes),
            None => newest_item_changes(items.drop_last(), item_id),
        }
    }
}

/// The changes of the last such item of the last turn that has one.
pub open spec fn newest_turn_changes(
    turns: Seq<TurnView>,
    turn_id: Seq<char>,
    item_id: Seq<char>,
) -> Option<Seq<FileUpdateChangeView>>
    decreases turns.len(),
{
    if turns.len() == 0 {
        None
    } else {
        let rest = newest_turn_changes(turns.drop_last(), turn_id, item_id);
        if turn_accepts(turn_id, turns.last().id) {
            match newest_item_changes(turns.last().items, item_id) {
                Some(changes) => Some(changes),
                None => rest,
            }
        } else {
            rest
        }
    }
}

/// A state, or a place to track terminals in where there is none.
pub open spec fn or_tracking_only(input_state: Option<ThreadInputStateView>) -> ThreadInputStateView {
    match input_state {
        Some(state) => state,
        None => ThreadInputStateView::tracking_only(),
    }
}

/// The result that lets a notification through and does nothing more.
pub open spec fn nothing_follows() -> InactiveBackgroundTerminalNotificationResultView {
    InactiveBackgroundTerminalNotificationResultView { wakeup_text: None, drop_notification: false }
}

/// The result that drops a notification and does nothing more.
pub open spec fn dropped() -> InactiveBackgroundTerminalNotificationResultView {
    InactiveBackgroundTerminalNotificationResultView { wakeup_text: None, drop_notification: true }
}

impl ThreadEventStoreView {
    /// The store of a thread of which nothing is known.
    pub open spec fn empty(capacity: nat) -> ThreadEventStoreView {
        ThreadEventStoreView {
            session: None,
            turns: Seq::empty(),
            buffer: Seq::empty(),
            pending: Seq::empty(),
            active_turn_id: None,
            input_state: None,
            capacity,
            active: false,
            closed: false,
            wakeups: Seq::empty(),
            wakeup_in_flight: false,
            stopped: Set::empty(),
        }
    }

    /// Whether the store holds no more events than it may.
    pub open spec fn within_capacity(self) -> bool {
        self.buffer.len() <= self.capacity
    }

    /// Whether a closed thread is idle: no turn, no prompt, no open question and nothing that
    /// could bring one of them back.
    pub open spec fn closed_is_idle(self) -> bool {
        self.closed ==> {
            &&& self.active_turn_id is None
            &&& !self.wakeup_in_flight
            &&& self.wakeups.len() == 0
            &&& self.pending.len() == 0
            &&& forall|i: int| 0 <= i < self.buffer.len() ==> survives_close(#[trigger] self.buffer[i])
            &&& self.input_state matches Some(state) ==> !state.user_turn_pending_start
                && state.terminals.len() == 0
        }
    }

    /// With these turns.
    pub open spec fn with_turns(self, turns: Seq<TurnView>) -> ThreadEventStoreView {
        ThreadEventStoreView { turns, active_turn_id: running_turn(turns), ..self }
    }

    /// With this session.
    pub open spec fn with_session(self, session: ThreadSessionStateView, turns: Seq<TurnView>) -> ThreadEventStoreView {
        ThreadEventStoreView { session: Some(session), closed: false, ..self }.with_turns(turns)
    }

    /// Once the session was fetched anew.
    pub open spec fn rebased(self) -> ThreadEventStoreView {
        ThreadEventStoreView {
            buffer: self.buffer.filter(|e: ThreadBufferedEventView| survives_refresh(e)),
            ..self
        }
    }

    /// Without what a closed thread does not keep.
    pub open spec fn pruned(self) -> ThreadEventStoreView {
        ThreadEventStoreView {
            pending: Seq::empty(),
            buffer: self.buffer.filter(|e: ThreadBufferedEventView| survives_close(e)),
            ..self
        }
    }

    /// Once the thread is closed.
    pub open spec fn after_close(self) -> ThreadEventStoreView {
        ThreadEventStoreView {
            closed: true,
            active_turn_id: None,
            wakeup_in_flight: false,
            wakeups: Seq::empty(),
            input_state: match self.input_state {
                Some(state) => Some(state.with_pending_start(false).without_terminals()),
                None => None,
            },
            ..self.pruned()
        }
    }

    /// What a notification changes besides being kept.
    pub open spec fn noted(self, notification: ServerNotificationView) -> ThreadEventStoreView {
        let next = ThreadEventStoreView {
            pending: after_notification(self.pending, notification),
            ..self
        };
        match notification {
            ServerNotificationView::TurnStarted { turn } => ThreadEventStoreView {
                active_turn_id: Some(turn.id),
                input_state: match self.input_state {
                    Some(state) => Some(state.with_pending_start(false)),
                    None => None,
                },
                ..next
            },
            ServerNotificationView::TurnCompleted { turn } => ThreadEventStoreView {
                active_turn_id: if self.active_turn_id == Some(turn.id) {
                    None
                } else {
                    self.active_turn_id
                },
                wakeup_in_flight: self.wakeup_in_flight && self.active_turn_id != Some(turn.id),
                input_state: match self.input_state {
                    Some(state) => Some(state.with_pending_start(false).turn_completed(turn.id)),
                    None => None,
                },
                ..next
            },
            ServerNotificationView::ThreadClosed => next.after_close(),
            ServerNotificationView::ItemCompleted { .. } => ThreadEventStoreView {
                stopped: self.stopped.difference(notification_ids(notification).to_set()),
                ..next
            },
            _ => next,
        }
    }

    /// With one more event. The oldest one goes where there are too many, and a question goes
    /// with the request that asked it.
    pub open spec fn buffered(self, event: ThreadBufferedEventView) -> ThreadEventStoreView {
        let all = self.buffer.push(event);
        if all.len() > self.capacity {
            ThreadEventStoreView {
                buffer: all.skip(1),
                pending: match all[0] {
                    ThreadBufferedEventView::Request(request) => after_eviction(
                        self.pending,
                        request,
                    ),
                    _ => self.pending,
                },
                ..self
            }
        } else {
            ThreadEventStoreView { buffer: all, ..self }
        }
    }

    /// Once a notification has come in.
    pub open spec fn notified(self, notification: ServerNotificationView) -> ThreadEventStoreView {
        if self.closed && is_late(notification) {
            self
        } else {
            self.noted(notification).buffered(ThreadBufferedEventView::Notification(notification))
        }
    }

    /// Once a request has come in.
    pub open spec fn requested(self, request: ServerRequestView) -> ThreadEventStoreView {
        ThreadEventStoreView { pending: after_request(self.pending, request), ..self }.buffered(
            ThreadBufferedEventView::Request(request),
        )
    }

    /// Whether a turn runs or is about to.
    pub open spec fn busy(self) -> bool {
        ||| self.active_turn_id is Some
        ||| self.wakeup_in_flight
        ||| self.input_state matches Some(state) && state.user_turn_pending_start
    }

    /// With a prompt that waits.
    pub open spec fn with_wakeup(self, text: Seq<char>) -> ThreadEventStoreView {
        if self.closed {
            self
        } else {
            ThreadEventStoreView { wakeups: self.wakeups.push(text), ..self }
        }
    }

    /// Once a prompt was offered, and the prompt where it is to be submitted now.
    pub open spec fn wakeup_offered(self, text: Seq<char>) -> (ThreadEventStoreView, Option<Seq<char>>) {
        if self.closed {
            (self, None)
        } else if self.busy() {
            (self.with_wakeup(text), None)
        } else {
            (ThreadEventStoreView { wakeup_in_flight: true, ..self }, Some(text))
        }
    }

    /// Once a waiting prompt was asked for, and the prompt where it is to be submitted now.
    pub open spec fn wakeup_taken(self) -> (ThreadEventStoreView, Option<Seq<char>>) {
        if self.closed || self.busy() || self.wakeups.len() == 0 {
            (self, None)
        } else {
            (
                ThreadEventStoreView {
                    wakeups: self.wakeups.skip(1),
                    wakeup_in_flight: true,
                    ..self
                },
                Some(self.wakeups[0]),
            )
        }
    }

    /// Once a prompt that was handed out is not submitted after all.
    pub open spec fn wakeup_cancelled(self) -> ThreadEventStoreView {
        ThreadEventStoreView {
            wakeup_in_flight: self.wakeup_in_flight && self.active_turn_id is Some,
            ..self
        }
    }

    /// Once the terminals that go by one of `ids` were stopped.
    pub open spec fn with_stopped(self, ids: Seq<Seq<char>>) -> ThreadEventStoreView {
        ThreadEventStoreView {
            stopped: self.stopped.union(ids.to_set()),
            buffer: self.buffer.filter(|e: ThreadBufferedEventView| !event_matches(e, ids)),
            ..self
        }
    }

    /// Once all terminals were stopped. Nothing that was kept of a terminal stays, also where it
    /// has ended before; only the calls of those that run count as stopped from now on.
    pub open spec fn with_all_stopped(self) -> ThreadEventStoreView {
        let ids = all_ids(self.buffer);
        ThreadEventStoreView {
            stopped: self.stopped.union(
                live_ids(self.buffer, self.buffer.len() as int).to_set(),
            ),
            buffer: self.buffer.filter(|e: ThreadBufferedEventView| !event_matches(e, ids)),
            input_state: match self.input_state {
                Some(state) => Some(state.without_terminals()),
                None => None,
            },
            ..self
        }
    }

    /// Whether a notification is about a terminal that the user has stopped.
    pub open spec fn is_about_stopped(self, notification: ServerNotificationView) -> bool {
        exists|i: int|
            0 <= i < notification_ids(notification).len() && self.stopped.contains(
                #[trigger] notification_ids(notification)[i],
            )
    }

    /// Once a notification about a terminal that the user has stopped was taken: where the
    /// terminal has ended, its process may be used again.
    pub open spec fn stopped_taken(self, notification: ServerNotificationView) -> ThreadEventStoreView {
        if self.is_about_stopped(notification) && notification is ItemCompleted {
            ThreadEventStoreView {
                stopped: self.stopped.difference(notification_reusable_ids(notification).to_set()),
                input_state: match self.input_state {
                    Some(state) => Some(
                        without_terminals_named(state, notification_ids(notification)),
                    ),
                    None => None,
                },
                ..self
            }
        } else {
            self
        }
    }

    /// Once a tracked terminal has ended in the way that `completion` tells.
    pub open spec fn after_completion(
        self,
        completion: Option<InactiveBackgroundTerminalCompletionView>,
        ids: Seq<Seq<char>>,
    ) -> (ThreadEventStoreView, InactiveBackgroundTerminalNotificationResultView) {
        match completion {
            Some(InactiveBackgroundTerminalCompletionView::Wakeup(text)) => {
                let (next, wakeup_text) = self.wakeup_offered(text);
                (
                    ThreadEventStoreView {
                        buffer: next.buffer.filter(
                            |e: ThreadBufferedEventView| !event_matches(e, ids),
                        ),
                        ..next
                    },
                    InactiveBackgroundTerminalNotificationResultView {
                        wakeup_text,
                        drop_notification: true,
                    },
                )
            },
            _ => (self, nothing_follows()),
        }
    }

    /// Once a notification was looked at for what it tells of background terminals, and what
    /// follows from it.
    pub open spec fn watched(self, notification: ServerNotificationView) -> (
        ThreadEventStoreView,
        InactiveBackgroundTerminalNotificationResultView,
    ) {
        if self.closed {
            (
                self,
                InactiveBackgroundTerminalNotificationResultView {
                    wakeup_text: None,
                    drop_notification: is_late(notification),
                },
            )
        } else if self.is_about_stopped(notification) {
            (self.stopped_taken(notification), dropped())
        } else if self.active {
            (self, nothing_follows())
        } else {
            match notification {
                ServerNotificationView::ItemStarted { turn_id, item } => match item {
                    ThreadItemView::CommandExecution { id, command, process_id, source, .. } => if source
                        == CommandExecutionSource::UnifiedExecStartup {
                        (
                            ThreadEventStoreView {
                                input_state: Some(
                                    or_tracking_only(self.input_state).terminal_started(
                                        id,
                                        process_id,
                                        command,
                                        Some(turn_id),
                                    ),
                                ),
                                ..self
                            },
                            nothing_follows(),
                        )
                    } else {
                        (self, nothing_follows())
                    },
                    _ => (self, nothing_follows()),
                },
                ServerNotificationView::CommandExecutionOutputDelta { item_id, delta, .. } => (
                    ThreadEventStoreView {
                        input_state: match self.input_state {
                            Some(state) => Some(state.terminal_output(item_id, delta)),
                            None => None,
                        },
                        ..self
                    },
                    nothing_follows(),
                ),
                ServerNotificationView::ItemCompleted { turn_id, item } => match (
                    item,
                    self.input_state,
                ) {
                    (
                        ThreadItemView::CommandExecution {
                            id,
                            process_id,
                            source,
                            status,
                            aggregated_output,
                            exit_code,
                            ..
                        },
                        Some(state),
                    ) => if is_terminal_source(source) {
                        let ids = command_ids(id, process_id);
                        match first_terminal(state.terminals, ids) {
                            Some(terminal) => ThreadEventStoreView {
                                input_state: Some(state.without_terminals_by(ids)),
                                ..self
                            }.after_completion(
                                Some(
                                    completion_of(
                                        terminal,
                                        status,
                                        exit_code,
                                        match aggregated_output {
                                            Some(output) => output,
                                            None => Seq::empty(),
                                        },
                                        Some(turn_id),
                                        self.active_turn_id,
                                    ),
                                ),
                                ids,
                            ),
                            None => (self, nothing_follows()),
                        }
                    } else {
                        (self, nothing_follows())
                    },
                    _ => (self, nothing_follows()),
                },
                _ => (self, nothing_follows()),
            }
        }
    }

    /// The changes of the file change `item_id`, as the events tell or else the turns.
    pub open spec fn file_changes(self, turn_id: Seq<char>, item_id: Seq<char>) -> Option<
        Seq<FileUpdateChangeView>,
    > {
        match newest_event_changes(self.buffer, turn_id, item_id) {
            Some(changes) => Some(changes),
            None => newest_turn_changes(self.turns, turn_id, item_id),
        }
    }

    /// Once turns were taken back.
    pub open spec fn rolled_back(self, turns: Seq<TurnView>) -> ThreadEventStoreView {
        ThreadEventStoreView {
            turns,
            buffer: Seq::empty(),
            pending: Seq::empty(),
            active_turn_id: None,
            wakeups: Seq::empty(),
            wakeup_in_flight: false,
            closed: false,
            ..self
        }
    }

    /// What of the input is restored: prompts that wait, and a turn that is about to start.
    pub open spec fn restored_input(self) -> Option<ThreadInputStateView> {
        let with_wakeups = if self.wakeups.len() == 0 {
            self.input_state
        } else {
            Some(or_tracking_only(self.input_state).with_prompts(self.wakeups))
        };
        if self.wakeup_in_flight {
            Some(or_tracking_only(with_wakeups).with_pending_start(true))
        } else {
            with_wakeups
        }
    }

    /// Whether an event is replayed.
    pub open spec fn is_replayed(self, event: ThreadBufferedEventView) -> bool {
        event matches ThreadBufferedEventView::Request(request) ==> still_asked(
            self.pending,
            request,
        )
    }

    /// What is replayed when the user comes back to the thread.
    pub open spec fn snapshotted(self) -> ThreadEventSnapshotView {
        ThreadEventSnapshotView {
            session: self.session,
            turns: self.turns,
            events: self.buffer.filter(|e: ThreadBufferedEventView| self.is_replayed(e)),
            input_state: self.restored_input(),
        }
    }

    /// The requests that still wait for an answer.
    pub open spec fn open_requests(self) -> Seq<ServerRequestView> {
        if self.closed {
            Seq::empty()
        } else {
            requests_of(
                self.buffer.filter(
                    |e: ThreadBufferedEventView| e is Request && self.is_replayed(e),
                ),
            )
        }
    }

    /// What the thread waits for, where it is the parent of a side conversation.
    pub open spec fn waits_for(self) -> Option<SideParentStatus> {
        if self.closed {
            None
        } else if asks_input(self.pending) {
            Some(SideParentStatus::NeedsInput)
        } else if asks_approval(self.pending) {
            Some(SideParentStatus::NeedsApproval)
        } else {
            None
        }
    }
}

/// `state` without the terminals that go by one of `ids`.
pub open spec fn without_terminals_named(state: ThreadInputStateView, ids: Seq<Seq<char>>) -> ThreadInputStateView
    decreases ids.len(),
{
    if ids.len() == 0 {
        state
    } else {
        without_terminals_named(state, ids.drop_last()).without_terminal(ids.last())
    }
}

/// The requests that some events are.
pub open spec fn requests_of(events: Seq<ThreadBufferedEventView>) -> Seq<ServerRequestView> {
    events.map_values(|e: ThreadBufferedEventView| e->Request_0)
}

/// A thread's event store.
#[derive(Debug)]
pub struct ThreadEventStore {
    pub session: Option<ThreadSessionState>,
    pub turns: Vec<Turn>,
    pub buffer: VecDeque<ThreadBufferedEvent>,
    pub pending_interactive_replay: PendingInteractiveReplayState,
    pub active_turn_id: Option<String>,
    pub input_state: Option<ThreadInputState>,
    pub capacity: usize,
    pub active: bool,
    pub closed: bool,
    pub pending_offscreen_wakeup_prompts: VecDeque<String>,
    pub offscreen_wakeup_in_flight: bool,
    pub stopped_background_processes: TextSet,
}

impl View for ThreadEventStore {
    type V = ThreadEventStoreView;

    open spec fn view(&self) -> ThreadEventStoreView {
        ThreadEventStoreView {
            session: self.session.deep_view(),
            turns: self.turns.deep_view(),
            buffer: self.buffer.deep_view(),
            pending: self.pending_interactive_replay@,
            active_turn_id: self.active_turn_id.deep_view(),
            input_state: self.input_state.deep_view(),
            capacity: self.capacity as nat,
            active: self.active,
            closed: self.closed,
            wakeups: self.pending_offscreen_wakeup_prompts.deep_view(),
            wakeup_in_flight: self.offscreen_wakeup_in_flight,
            stopped: self.stopped_background_processes@,
        }
    }
}

/// Whether a request for changes on `turn_id` accepts those of `candidate`.
fn turn_id_matches(request_turn_id: &String, candidate_turn_id: &String) -> (result: bool)
    ensures
        result == turn_accepts(request_turn_id@, candidate_turn_id@),
{
    request_turn_id.as_str().unicode_len() == 0 || *request_turn_id == *candidate_turn_id
}

/// The changes of an item, where it is the file change `item_id`.
fn file_change_item_changes(item: &ThreadItem, item_id: &String) -> (changes: Option<
    Vec<FileUpdateChange>,
>)
    ensures
        changes.deep_view() == item_changes(item.deep_view(), item_id@),
{
    match item {
        ThreadItem::FileChange { id, changes, .. } => if *id == *item_id {
            Some(changes.duplicate())
        } else {
            None
        },
        _ => None,
    }
}

/// Adds those of `more` that are not there already.
fn push_unique_identifiers(identifiers: &mut Vec<String>, more: &Vec<String>)
    ensures
        final(identifiers).deep_view() == with_ids(old(identifiers).deep_view(), more.deep_view()),
{
    let ghost all = more.deep_view();
    let mut i: usize = 0;
    while i < more.len()
        invariant
            i <= more@.len(),
            all == more.deep_view(),
            identifiers.deep_view() == with_ids(old(identifiers).deep_view(), all.take(i as int)),
        decreases more@.len() - i,
    {
        assert(all.take(i + 1).drop_last() =~= all.take(i as int));
        assert(all.take(i + 1).last() == more@[i as int]@);
        push_unique_identifier(identifiers, more[i].clone());
        i = i + 1;
    }
    assert(all.take(i as int) =~= all);
}

impl Default for InactiveBackgroundTerminalNotificationResult {
    /// The result that lets a notification through and does nothing more.
    fn default() -> (result: InactiveBackgroundTerminalNotificationResult)
        ensures
            result.deep_view() == nothing_follows(),
    {
        InactiveBackgroundTerminalNotificationResult { wakeup_text: None, drop_notification: false }
    }
}

impl ThreadEventStore {
    /// Whether an event is kept when the session is fetched anew.
    pub fn event_survives_session_refresh(event: &ThreadBufferedEvent) -> (result: bool)
        ensures
            result == survives_refresh(event.deep_view()),
    {
        match event {
            ThreadBufferedEvent::Request(_) => true,
            ThreadBufferedEvent::FeedbackSubmission(_) => true,
            ThreadBufferedEvent::Notification(notification) => match notification {
                ServerNotification::Notice { kind, .. } => *kind == NoticeKind::HookStarted || *kind
                    == NoticeKind::HookCompleted,
                _ => false,
            },
            ThreadBufferedEvent::HistoryEntryResponse(_) => false,
        }
    }

    /// The store of a thread of which nothing is known.
    pub fn new(capacity: usize) -> (store: ThreadEventStore)
        ensures
            store@ == ThreadEventStoreView::empty(capacity as nat),
    {
        let store = ThreadEventStore {
            session: None,
            turns: Vec::new(),
            buffer: VecDeque::new(),
            pending_interactive_replay: PendingInteractiveReplayState::default(),
            active_turn_id: None,
            input_state: None,
            capacity,
            active: false,
            closed: false,
            pending_offscreen_wakeup_prompts: VecDeque::new(),
            offscreen_wakeup_in_flight: false,
            stopped_background_processes: TextSet::new(),
        };
        assert(store@ =~= ThreadEventStoreView::empty(capacity as nat));
        store
    }

    /// The store of a thread with this session.
    pub fn new_with_session(capacity: usize, session: ThreadSessionState, turns: Vec<Turn>) -> (store:
        ThreadEventStore)
        ensures
            store@ == ThreadEventStoreView::empty(capacity as nat).with_session(
                session.deep_view(),
                turns.deep_view(),
            ),
    {
        let mut store = ThreadEventStore::new(capacity);
        store.session = Some(session);
        store.set_turns(turns);
        store
    }

    /// Takes over a session.
    pub fn set_session(&mut self, session: ThreadSessionState, turns: Vec<Turn>)
        ensures
            final(self)@ == old(self)@.with_session(session.deep_view(), turns.deep_view()),
    {
        self.session = Some(session);
        self.closed = false;
        self.set_turns(turns);
    }

    /// Drops the events that the session was fetched with.
    pub fn rebase_buffer_after_session_refresh(&mut self)
        ensures
            final(self)@ == old(self)@.rebased(),
    {
        let ghost wanted = |e: ThreadBufferedEventView| survives_refresh(e);
        let keep = |event: &ThreadBufferedEvent| -> (kept: bool)
            ensures
                kept == wanted(event.deep_view()),
            { ThreadEventStore::event_survives_session_refresh(event) };
        retain_deque(&mut self.buffer, keep, Ghost(wanted));
    }

    /// Takes over turns. The last one that is in progress is the active one.
    pub fn set_turns(&mut self, turns: Vec<Turn>)
        ensures
            final(self)@ == old(self)@.with_turns(turns.deep_view()),
    {
        let ghost all = turns.deep_view();
        let mut active: Option<String> = None;
        let mut n: usize = turns.len();
        assert(all.take(n as int) =~= all);
        while n > 0 && active.is_none()
            invariant
                n <= turns@.len(),
                all == turns.deep_view(),
                self@ == old(self)@,
                match active {
                    Some(id) => running_turn(all) == Some(id@),
                    None => running_turn(all) == running_turn(all.take(n as int)),
                },
            decreases n,
        {
            n = n - 1;
            assert(all.take(n + 1).drop_last() =~= all.take(n as int));
            assert(all.take(n + 1).last() == turns@[n as int].deep_view());
            if turns[n].status == TurnStatus::InProgress {
                active = Some(turns[n].id.clone());
            }
        }
        self.active_turn_id = active;
        self.turns = turns;
    }

    /// Keeps an event, and drops the oldest one where there are too many.
    pub fn push_event(&mut self, event: ThreadBufferedEvent)
        ensures
            final(self)@ == old(self)@.buffered(event.deep_view()),
    {
        let ghost before = self.buffer.deep_view();
        self.buffer.push_back(event);
        let ghost all = before.push(event.deep_view());
        assert(self.buffer.deep_view() =~= all);
        if self.buffer.len() > self.capacity {
            let removed = self.buffer.pop_front();
            assert(self.buffer.deep_view() =~= all.skip(1));
            if let Some(removed) = removed {
                assert(removed.deep_view() == all[0]);
                if let ThreadBufferedEvent::Request(request) = &removed {
                    self.pending_interactive_replay.note_evicted_server_request(request);
                }
            }
        }
    }

    /// Takes in a notification.
    pub fn push_notification(&mut self, notification: ServerNotification)
        ensures
            final(self)@ == old(self)@.notified(notification.deep_view()),
    {
        if self.closed && closed_store_should_drop_late_notification(&notification) {
            return;
        }
        let ghost before = self@;
        self.pending_interactive_replay.note_server_notification(&notification);
        match &notification {
            ServerNotification::TurnStarted { turn } => {
                self.active_turn_id = Some(turn.id.clone());
                if let Some(input_state) = self.input_state.as_mut() {
                    input_state.clear_user_turn_pending_start_for_restore();
                }
            },
            ServerNotification::TurnCompleted { turn } => {
                if is_some_text(&self.active_turn_id, &turn.id) {
                    self.active_turn_id = None;
                    self.offscreen_wakeup_in_flight = false;
                }
                if let Some(input_state) = self.input_state.as_mut() {
                    input_state.clear_user_turn_pending_start_for_restore();
                    input_state.mark_background_terminals_turn_completed(&turn.id);
                }
            },
            ServerNotification::ThreadClosed => {
                self.mark_closed_for_liveness();
            },
            ServerNotification::ItemCompleted { .. } => {
                let identifiers = background_terminal_identifiers_from_notification(&notification);
                self.stopped_background_processes.remove_all(&identifiers);
            },
            _ => {},
        }
        assert(self@ =~= before.noted(notification.deep_view()));
        self.push_event(ThreadBufferedEvent::Notification(notification));
    }

    /// Says what follows when a tracked terminal has ended in the way that `completion` tells.
    pub fn finish_background_terminal(
        &mut self,
        completion: Option<InactiveBackgroundTerminalCompletion>,
        process_identifiers: &Vec<String>,
    ) -> (result: InactiveBackgroundTerminalNotificationResult)
        ensures
            (final(self)@, result.deep_view()) == old(self)@.after_completion(
                completion.deep_view(),
                process_identifiers.deep_view(),
            ),
    {
        match completion {
            Some(InactiveBackgroundTerminalCompletion::Wakeup(text)) => {
                let wakeup_text = self.queue_or_start_offscreen_wakeup(text);
                let ghost ids = process_identifiers.deep_view();
                let ghost wanted = |e: ThreadBufferedEventView| !event_matches(e, ids);
                let keep = |event: &ThreadBufferedEvent| -> (kept: bool)
                    ensures
                        kept == wanted(event.deep_view()),
                    { !background_terminal_event_matches_identifiers(event, process_identifiers) };
                retain_deque(&mut self.buffer, keep, Ghost(wanted));
                InactiveBackgroundTerminalNotificationResult { wakeup_text, drop_notification: true }
            },
            _ => InactiveBackgroundTerminalNotificationResult::default(),
        }
    }

    /// Looks at a notification for what it tells of background terminals: keeps track of those
    /// that run on a thread that is not on screen, and says what follows when one of them ends.
    pub fn track_inactive_background_terminal_notification(
        &mut self,
        notification: &ServerNotification,
    ) -> (result: InactiveBackgroundTerminalNotificationResult)
        ensures
            (final(self)@, result.deep_view()) == old(self)@.watched(notification.deep_view()),
    {
        if self.closed {
            return InactiveBackgroundTerminalNotificationResult {
                wakeup_text: None,
                drop_notification: closed_store_should_drop_late_notification(notification),
            };
        }
        if self.take_stopped_background_terminal_notification(notification) {
            return InactiveBackgroundTerminalNotificationResult {
                wakeup_text: None,
                drop_notification: true,
            };
        }
        if self.active {
            return InactiveBackgroundTerminalNotificationResult::default();
        }
        match notification {
            ServerNotification::ItemStarted { turn_id, item } => {
                if let ThreadItem::CommandExecution { id, command, process_id, source, .. } = item {
                    if *source == CommandExecutionSource::UnifiedExecStartup {
                        let mut input_state = self.input_state_for_tracking();
                        input_state.track_background_terminal_start(
                            id,
                            process_id,
                            command,
                            Some(turn_id.clone()),
                        );
                        self.input_state = Some(input_state);
                    }
                }
                InactiveBackgroundTerminalNotificationResult::default()
            },
            ServerNotification::CommandExecutionOutputDelta { item_id, delta, .. } => {
                if let Some(input_state) = self.input_state.as_mut() {
                    input_state.track_background_terminal_output_chunk(item_id, delta);
                }
                InactiveBackgroundTerminalNotificationResult::default()
            },
            ServerNotification::ItemCompleted { turn_id, item } => {
                if let ThreadItem::CommandExecution {
                    id,
                    process_id,
                    source,
                    status,
                    aggregated_output,
                    exit_code,
                    ..
                } = item {
                    if *source != CommandExecutionSource::UnifiedExecStartup && *source
                        != CommandExecutionSource::UnifiedExecInteraction {
                        return InactiveBackgroundTerminalNotificationResult::default();
                    }
                    let process_identifiers = background_terminal_identifiers_from_command(
                        id,
                        process_id,
                    );
                    proof {
                        reveal_strlit("");
                        assert(""@ =~= Seq::<char>::empty());
                    }
                    let output = match aggregated_output {
                        Some(output) => output.as_str(),
                        None => "",
                    };
                    let turn_id = Some(turn_id.clone());
                    let completion = match self.input_state.as_mut() {
                        Some(input_state) => {
                            input_state.take_inactive_background_terminal_completion_wakeup(
                                id,
                                process_id,
                                *status,
                                *exit_code,
                                output,
                                &turn_id,
                                &self.active_turn_id,
                            )
                        },
                        None => {
                            return InactiveBackgroundTerminalNotificationResult::default();
                        },
                    };
                    return self.finish_background_terminal(completion, &process_identifiers);
                }
                InactiveBackgroundTerminalNotificationResult::default()
            },
            _ => InactiveBackgroundTerminalNotificationResult::default(),
        }
    }

    /// What is kept of the input, or a place to track terminals in where nothing is.
    fn input_state_for_tracking(&self) -> (state: ThreadInputState)
        ensures
            state.deep_view() == or_tracking_only(self@.input_state),
    {
        match &self.input_state {
            Some(state) => state.duplicate(),
            None => ThreadInputState::background_tracking_only(),
        }
    }

    fn has_busy_turn_or_wakeup(&self) -> (busy: bool)
        ensures
            busy == self@.busy(),
    {
        let pending_start = match &self.input_state {
            Some(state) => state.user_turn_pending_start(),
            None => false,
        };
        self.active_turn_id.is_some() || self.offscreen_wakeup_in_flight || pending_start
    }

    /// Offers a prompt that wakes the agent up. It is handed back where it is to be submitted
    /// now, and waits where a turn runs or is about to.
    pub fn queue_or_start_offscreen_wakeup(&mut self, text: String) -> (start: Option<String>)
        ensures
            (final(self)@, start.deep_view()) == old(self)@.wakeup_offered(text@),
    {
        if self.closed {
            return None;
        }
        if self.has_busy_turn_or_wakeup() {
            self.queue_offscreen_wakeup(text);
            return None;
        }
        self.offscreen_wakeup_in_flight = true;
        Some(text)
    }

    /// Lets a prompt wait.
    pub fn queue_offscreen_wakeup(&mut self, text: String)
        ensures
            final(self)@ == old(self)@.with_wakeup(text@),
    {
        if self.closed {
            return;
        }
        let ghost before = self.pending_offscreen_wakeup_prompts.deep_view();
        self.pending_offscreen_wakeup_prompts.push_back(text);
        assert(self.pending_offscreen_wakeup_prompts.deep_view() =~= before.push(text@));
    }

    /// The prompt that has waited longest, where it is to be submitted now.
    pub fn take_ready_offscreen_wakeup(&mut self) -> (start: Option<String>)
        ensures
            (final(self)@, start.deep_view()) == old(self)@.wakeup_taken(),
    {
        if self.closed {
            return None;
        }
        if self.has_busy_turn_or_wakeup() {
            return None;
        }
        let ghost before = self.pending_offscreen_wakeup_prompts.deep_view();
        let text = self.pending_offscreen_wakeup_prompts.pop_front();
        match text {
            Some(text) => {
                assert(self.pending_offscreen_wakeup_prompts.deep_view() =~= before.skip(1));
                assert(text@ == before[0]);
                self.offscreen_wakeup_in_flight = true;
                Some(text)
            },
            None => None,
        }
    }

    /// Notes that a prompt that was handed out is not submitted after all.
    pub fn cancel_offscreen_wakeup_start(&mut self)
        ensures
            final(self)@ == old(self)@.wakeup_cancelled(),
    {
        if self.active_turn_id.is_none() {
            self.offscreen_wakeup_in_flight = false;
        }
    }

    /// Drops what was kept of the terminals that go by one of `identifiers`, and what is still
    /// to come.
    fn stop_identifiers(&mut self, identifiers: &Vec<String>)
        ensures
            final(self)@ == old(self)@.with_stopped(identifiers.deep_view()),
    {
        self.stopped_background_processes.insert_all(identifiers);
        self.drop_events_of(identifiers);
    }

    /// Drops the events of the terminals that go by one of `identifiers`.
    fn drop_events_of(&mut self, identifiers: &Vec<String>)
        ensures
            final(self)@ == (ThreadEventStoreView {
                buffer: old(self)@.buffer.filter(
                    |e: ThreadBufferedEventView| !event_matches(e, identifiers.deep_view()),
                ),
                ..old(self)@
            }),
    {
        let ghost ids = identifiers.deep_view();
        let ghost wanted = |e: ThreadBufferedEventView| !event_matches(e, ids);
        let keep = |event: &ThreadBufferedEvent| -> (kept: bool)
            ensures
                kept == wanted(event.deep_view()),
            { !background_terminal_event_matches_identifiers(event, identifiers) };
        retain_deque(&mut self.buffer, keep, Ghost(wanted));
    }

    /// Notes that the user has stopped a terminal.
    pub fn mark_background_terminal_stopped(&mut self, process_id: &String, call_id: &Option<String>)
        ensures
            final(self)@ == old(self)@.with_stopped(
                related_ids(
                    old(self)@.buffer,
                    match call_id.deep_view() {
                        Some(call_id) => call_id,
                        None => process_id@,
                    },
                ),
            ),
    {
        let identifiers = self.background_terminal_identifiers_for_process(process_id, call_id);
        self.stop_identifiers(&identifiers);
    }

    /// Notes that the user has stopped all terminals. Nothing of a terminal is replayed any more,
    /// and what still comes in of those that run is dropped.
    pub fn mark_all_background_terminals_stopped(&mut self)
        ensures
            final(self)@ == old(self)@.with_all_stopped(),
    {
        let identifiers = self.live_background_terminal_identifiers();
        let all_identifiers = self.buffered_terminal_identifiers();
        self.stopped_background_processes.insert_all(&identifiers);
        self.drop_events_of(&all_identifiers);
        if let Some(input_state) = self.input_state.as_mut() {
            input_state.clear_background_terminal_processes();
        }
    }

    /// Whether an event after the first `start` ends a terminal that goes by one of `ids`.
    fn ended_from(&self, start: usize, ids: &Vec<String>) -> (ended: bool)
        ensures
            ended == exists|j: int|
                start <= j < self@.buffer.len() && ends_terminal(
                    #[trigger] self@.buffer[j],
                    ids.deep_view(),
                ),
    {
        let mut j: usize = start;
        while j < self.buffer.len()
            invariant
                start <= j,
                forall|k: int|
                    start <= k < j && k < self@.buffer.len() ==> !ends_terminal(
                        #[trigger] self@.buffer[k],
                        ids.deep_view(),
                    ),
            decreases self.buffer@.len() - j,
        {
            let event = &self.buffer[j];
            assert(event.deep_view() == self@.buffer[j as int]);
            if let ThreadBufferedEvent::Notification(notification) = event {
                if let ServerNotification::ItemCompleted { .. } = notification {
                    if texts_overlap(
                        ids,
                        &background_terminal_identifiers_from_notification(notification),
                    ) {
                        return true;
                    }
                }
            }
            j = j + 1;
        }
        false
    }

    /// The calls that started the live terminals, each once.
    pub fn live_background_terminal_identifiers(&self) -> (identifiers: Vec<String>)
        ensures
            identifiers.deep_view() == live_ids(self@.buffer, self@.buffer.len() as int),
    {
        let mut identifiers: Vec<String> = Vec::new();
        let mut i: usize = 0;
        assert(identifiers.deep_view() =~= Seq::<Seq<char>>::empty());
        while i < self.buffer.len()
            invariant
                i <= self.buffer@.len(),
                identifiers.deep_view() == live_ids(self@.buffer, i as int),
            decreases self.buffer@.len() - i,
        {
            let event = &self.buffer[i];
            assert(event.deep_view() == self@.buffer[i as int]);
            if let ThreadBufferedEvent::Notification(notification) = event {
                if let ServerNotification::ItemStarted { item, .. } = notification {
                    if command_execution_is_background_terminal(item) && !self.ended_from(
                        i + 1,
                        &background_terminal_identifiers_from_notification(notification),
                    ) {
                        push_unique_identifiers(
                            &mut identifiers,
                            &background_terminal_stable_identifiers_from_notification(notification),
                        );
                    }
                }
            }
            i = i + 1;
        }
        identifiers
    }

    /// The calls of all terminals that the events tell of, whether they run or have ended, each once.
    fn buffered_terminal_identifiers(&self) -> (identifiers: Vec<String>)
        ensures
            identifiers.deep_view() == all_ids(self@.buffer),
    {
        let ghost all = self@.buffer;
        let mut identifiers: Vec<String> = Vec::new();
        assert(identifiers.deep_view() =~= Seq::<Seq<char>>::empty());
        let mut i: usize = 0;
        while i < self.buffer.len()
            invariant
                i <= self.buffer@.len(),
                all == self@.buffer,
                identifiers.deep_view() == all_ids(all.take(i as int)),
            decreases self.buffer@.len() - i,
        {
            let event = &self.buffer[i];
            assert(event.deep_view() == all[i as int]);
            assert(all.take(i + 1).drop_last() =~= all.take(i as int));
            assert(all.take(i + 1).last() == all[i as int]);
            if let ThreadBufferedEvent::Notification(notification) = event {
                match notification {
                    ServerNotification::ItemStarted { .. }
                    | ServerNotification::ItemCompleted { .. } => {
                        push_unique_identifiers(
                            &mut identifiers,
                            &background_terminal_stable_identifiers_from_notification(notification),
                        );
                    },
                    _ => {},
                }
            }
            i = i + 1;
        }
        assert(all.take(i as int) =~= all);
        identifiers
    }

    /// Whether a notification is about a terminal that the user has stopped. Where it tells that
    /// the terminal has ended, its process may be used again.
    pub fn take_stopped_background_terminal_notification(
        &mut self,
        notification: &ServerNotification,
    ) -> (stopped: bool)
        ensures
            stopped == old(self)@.is_about_stopped(notification.deep_view()),
            final(self)@ == old(self)@.stopped_taken(notification.deep_view()),
    {
        let notification_identifiers = background_terminal_identifiers_from_notification(
            notification,
        );
        if !self.stopped_background_processes.contains_any(&notification_identifiers) {
            return false;
        }
        if let ServerNotification::ItemCompleted { .. } = notification {
            self.stopped_background_processes.remove_all(
                &background_terminal_reusable_identifiers_from_notification(notification),
            );
            if let Some(input_state) = self.input_state.as_mut() {
                remove_terminals(input_state, &notification_identifiers);
            }
        }
        true
    }

    /// The names that stand for the same terminal as the call, or the process where the call is
    /// not known.
    pub fn background_terminal_identifiers_for_process(
        &self,
        process_id: &String,
        call_id: &Option<String>,
    ) -> (identifiers: Vec<String>)
        ensures
            identifiers.deep_view() == related_ids(
                self@.buffer,
                match call_id.deep_view() {
                    Some(call_id) => call_id,
                    None => process_id@,
                },
            ),
    {
        let first = match call_id {
            Some(call_id) => call_id.clone(),
            None => process_id.clone(),
        };
        let ghost all = self@.buffer;
        let mut identifiers: Vec<String> = Vec::new();
        identifiers.push(first.clone());
        assert(identifiers.deep_view() =~= seq![first@]);
        assert(all.take(0).len() == 0);
        let mut i: usize = 0;
        while i < self.buffer.len()
            invariant
                i <= self.buffer@.len(),
                all == self@.buffer,
                identifiers.deep_view() == related_ids(all.take(i as int), first@),
            decreases self.buffer@.len() - i,
        {
            let event = &self.buffer[i];
            assert(event.deep_view() == all[i as int]);
            assert(all.take(i + 1).drop_last() =~= all.take(i as int));
            assert(all.take(i + 1).last() == all[i as int]);
            if let ThreadBufferedEvent::Notification(notification) = event {
                if texts_overlap(
                    &background_terminal_identifiers_from_notification(notification),
                    &identifiers,
                ) {
                    push_unique_identifiers(
                        &mut identifiers,
                        &background_terminal_stable_identifiers_from_notification(notification),
                    );
                }
            }
            i = i + 1;
        }
        assert(all.take(i as int) =~= all);
        identifiers
    }

    /// Notes that the thread is closed.
    pub fn mark_closed_for_liveness(&mut self)
        ensures
            final(self)@ == old(self)@.after_close(),
    {
        self.closed = true;
        self.active_turn_id = None;
        self.offscreen_wakeup_in_flight = false;
        self.pending_offscreen_wakeup_prompts = VecDeque::new();
        assert(self.pending_offscreen_wakeup_prompts.deep_view() =~= Seq::<Seq<char>>::empty());
        self.prune_closed_thread_state();
        if let Some(input_state) = self.input_state.as_mut() {
            input_state.clear_user_turn_pending_start_for_restore();
            input_state.clear_background_terminal_processes();
        }
    }

    fn prune_closed_thread_state(&mut self)
        ensures
            final(self)@ == old(self)@.pruned(),
    {
        self.pending_interactive_replay = PendingInteractiveReplayState::default();
        let ghost wanted = |e: ThreadBufferedEventView| survives_close(e);
        let keep = |event: &ThreadBufferedEvent| -> (kept: bool)
            ensures
                kept == wanted(event.deep_view()),
            {
                match event {
                    ThreadBufferedEvent::Request(_) => false,
                    _ => !thread_event_is_background_terminal(event),
                }
            };
        retain_deque(&mut self.buffer, keep, Ghost(wanted));
    }

    /// Takes in a request.
    pub fn push_request(&mut self, request: ServerRequest)
        ensures
            final(self)@ == old(self)@.requested(request.deep_view()),
    {
        self.pending_interactive_replay.note_server_request(&request);
        self.push_event(ThreadBufferedEvent::Request(request));
    }

    /// Takes in an answer to a question for an entry of the message history.
    pub fn push_history_entry_response(&mut self, response: HistoryLookupResponse)
        ensures
            final(self)@ == old(self)@.buffered(
                ThreadBufferedEventView::HistoryEntryResponse(response.deep_view()),
            ),
    {
        self.push_event(ThreadBufferedEvent::HistoryEntryResponse(response));
    }

    fn is_replayed(&self, event: &ThreadBufferedEvent) -> (result: bool)
        ensures
            result == self@.is_replayed(event.deep_view()),
    {
        match event {
            ThreadBufferedEvent::Request(request) => {
                self.pending_interactive_replay.should_replay_snapshot_request(request)
            },
            _ => true,
        }
    }

    /// The requests that still wait for an answer.
    pub fn pending_replay_requests(&self) -> (requests: Vec<ServerRequest>)
        ensures
            requests.deep_view() == self@.open_requests(),
    {
        let mut requests: Vec<ServerRequest> = Vec::new();
        if self.closed {
            assert(requests.deep_view() =~= Seq::<ServerRequestView>::empty());
            return requests;
        }
        let ghost all = self@.buffer;
        let ghost kept = |e: ThreadBufferedEventView| e is Request && self@.is_replayed(e);
        let mut i: usize = 0;
        assert(requests_of(all.take(0).filter(kept)) =~= Seq::<ServerRequestView>::empty()) by {
            reveal(Seq::filter);
        }
        assert(requests.deep_view() =~= Seq::<ServerRequestView>::empty());
        while i < self.buffer.len()
            invariant
                i <= self.buffer@.len(),
                all == self@.buffer,
                kept == (|e: ThreadBufferedEventView| e is Request && self@.is_replayed(e)),
                requests.deep_view() == requests_of(all.take(i as int).filter(kept)),
            decreases self.buffer@.len() - i,
        {
            let event = &self.buffer[i];
            let ghost before = requests.deep_view();
            proof {
                assert(event.deep_view() == all[i as int]);
                assert(all.take(i + 1).drop_last() =~= all.take(i as int));
                reveal(Seq::filter);
            }
            if let ThreadBufferedEvent::Request(request) = event {
                if self.is_replayed(event) {
                    requests.push(request.duplicate());
                    assert(requests.deep_view() =~= before.push(request.deep_view()));
                }
            }
            assert(requests.deep_view() =~= requests_of(all.take(i + 1).filter(kept)));
            i = i + 1;
        }
        assert(all.take(i as int) =~= all);
        requests
    }

    /// The changes of the file change `item_id`, as the events tell or else the turns.
    pub fn file_change_changes(&self, turn_id: &String, item_id: &String) -> (changes: Option<
        Vec<FileUpdateChange>,
    >)
        ensures
            changes.deep_view() == self@.file_changes(turn_id@, item_id@),
    {
        let ghost all = self@.buffer;
        let mut n: usize = self.buffer.len();
        assert(all.take(n as int) =~= all);
        while n > 0
            invariant
                n <= self.buffer@.len(),
                all == self@.buffer,
                newest_event_changes(all, turn_id@, item_id@) == newest_event_changes(
                    all.take(n as int),
                    turn_id@,
                    item_id@,
                ),
            decreases n,
        {
            n = n - 1;
            let event = &self.buffer[n];
            assert(event.deep_view() == all[n as int]);
            assert(all.take(n + 1).drop_last() =~= all.take(n as int));
            assert(all.take(n + 1).last() == all[n as int]);
            if let Some(changes) = buffered_file_changes(event, turn_id, item_id) {
                return Some(changes);
            }
        }
        let ghost turns = self@.turns;
        let mut m: usize = self.turns.len();
        assert(turns.take(m as int) =~= turns);
        while m > 0
            invariant
                m <= self.turns@.len(),
                turns == self@.turns,
                newest_event_changes(self@.buffer, turn_id@, item_id@) is None,
                newest_turn_changes(turns, turn_id@, item_id@) == newest_turn_changes(
                    turns.take(m as int),
                    turn_id@,
                    item_id@,
                ),
            decreases m,
        {
            m = m - 1;
            let turn = &self.turns[m];
            assert(turn.deep_view() == turns[m as int]);
            assert(turns.take(m + 1).drop_last() =~= turns.take(m as int));
            assert(turns.take(m + 1).last() == turns[m as int]);
            if turn_id_matches(turn_id, &turn.id) {
                if let Some(changes) = last_file_changes(&turn.items, item_id) {
                    return Some(changes);
                }
            }
        }
        None
    }

    /// Takes over the turns that are left once some were taken back.
    pub fn apply_thread_rollback(&mut self, turns: &Vec<Turn>)
        ensures
            final(self)@ == old(self)@.rolled_back(turns.deep_view()),
    {
        self.turns = turns.duplicate();
        self.buffer = VecDeque::new();
        assert(self.buffer.deep_view() =~= Seq::<ThreadBufferedEventView>::empty());
        self.pending_interactive_replay = PendingInteractiveReplayState::default();
        self.active_turn_id = None;
        self.pending_offscreen_wakeup_prompts = VecDeque::new();
        assert(self.pending_offscreen_wakeup_prompts.deep_view() =~= Seq::<Seq<char>>::empty());
        self.offscreen_wakeup_in_flight = false;
        self.closed = false;
    }

    /// What of the input is restored: prompts that wait, and a turn that is about to start.
    fn restored_input(&self) -> (input_state: Option<ThreadInputState>)
        ensures
            input_state.deep_view() == self@.restored_input(),
    {
        let ghost wakeups = self@.wakeups;
        if self.pending_offscreen_wakeup_prompts.len() == 0 && !self.offscreen_wakeup_in_flight {
            return self.input_state.duplicate();
        }
        let mut state = self.input_state_for_tracking();
        let ghost first = state.deep_view();
        let mut i: usize = 0;
        assert(first.with_prompts(wakeups.take(0)) =~= first);
        while i < self.pending_offscreen_wakeup_prompts.len()
            invariant
                i <= self.pending_offscreen_wakeup_prompts@.len(),
                wakeups == self@.wakeups,
                state.deep_view() == first.with_prompts(wakeups.take(i as int)),
            decreases self.pending_offscreen_wakeup_prompts@.len() - i,
        {
            let text = self.pending_offscreen_wakeup_prompts[i].clone();
            assert(text@ == wakeups[i as int]);
            state.queue_background_terminal_completion_prompt_for_restore(text);
            assert(first.queued_completion_prompts + wakeups.take(i as int) + seq![text@]
                =~= first.queued_completion_prompts + wakeups.take(i + 1));
            i = i + 1;
        }
        assert(wakeups.take(i as int) =~= wakeups);
        assert(wakeups.len() == 0 ==> first.with_prompts(wakeups) =~= first);
        if self.offscreen_wakeup_in_flight {
            state.mark_user_turn_pending_start_for_restore();
        }
        Some(state)
    }

    /// What is replayed when the user comes back to the thread. Of the requests these are the
    /// ones that still wait for an answer: one that was answered must not come up again.
    pub fn snapshot(&self) -> (snapshot: ThreadEventSnapshot)
        ensures
            snapshot.deep_view() == self@.snapshotted(),
    {
        let ghost all = self@.buffer;
        let ghost kept = |e: ThreadBufferedEventView| self@.is_replayed(e);
        let mut events: Vec<ThreadBufferedEvent> = Vec::new();
        let mut i: usize = 0;
        assert(all.take(0).filter(kept) =~= Seq::<ThreadBufferedEventView>::empty()) by {
            reveal(Seq::filter);
        }
        assert(events.deep_view() =~= Seq::<ThreadBufferedEventView>::empty());
        while i < self.buffer.len()
            invariant
                i <= self.buffer@.len(),
                all == self@.buffer,
                kept == (|e: ThreadBufferedEventView| self@.is_replayed(e)),
                events.deep_view() == all.take(i as int).filter(kept),
            decreases self.buffer@.len() - i,
        {
            let event = &self.buffer[i];
            let ghost before = events.deep_view();
            proof {
                assert(event.deep_view() == all[i as int]);
                assert(all.take(i + 1).drop_last() =~= all.take(i as int));
                reveal(Seq::filter);
            }
            if self.is_replayed(event) {
                events.push(event.duplicate());
                assert(events.deep_view() =~= before.push(all[i as int]));
            }
            i = i + 1;
        }
        assert(all.take(i as int) =~= all);
        ThreadEventSnapshot {
            session: self.session.duplicate(),
            turns: self.turns.duplicate(),
            events,
            input_state: self.restored_input(),
        }
    }

    /// What is replayed when the user comes back to the thread. The prompts that wait go along.
    pub fn snapshot_for_activation(&mut self) -> (snapshot: ThreadEventSnapshot)
        ensures
            snapshot.deep_view() == old(self)@.snapshotted(),
            final(self)@ == (ThreadEventStoreView { wakeups: Seq::empty(), ..old(self)@ }),
    {
        let snapshot = self.snapshot();
        self.pending_offscreen_wakeup_prompts = VecDeque::new();
        assert(self.pending_offscreen_wakeup_prompts.deep_view() =~= Seq::<Seq<char>>::empty());
        snapshot
    }

    /// Takes note of a command of the user.
    pub fn note_outbound_op(&mut self, op: &AppCommand)
        ensures
            final(self)@ == (ThreadEventStoreView {
                pending: after_op(old(self)@.pending, op.deep_view()),
                ..old(self)@
            }),
    {
        self.pending_interactive_replay.note_outbound_op(op);
    }

    /// Whether a command of the user can settle a question.
    pub fn op_can_change_pending_replay_state(op: &AppCommand) -> (result: bool)
        ensures
            result == can_settle(op.deep_view()),
    {
        PendingInteractiveReplayState::op_can_change_state(op)
    }

    /// Whether the user is asked to allow something on this thread.
    pub fn has_pending_thread_approvals(&self) -> (result: bool)
        ensures
            result == (!self@.closed && asks_approval(self@.pending)),
    {
        if self.closed {
            return false;
        }
        self.pending_interactive_replay.has_pending_thread_approvals()
    }

    /// What the thread waits for, where it is the parent of a side conversation.
    pub fn side_parent_pending_status(&self) -> (status: Option<SideParentStatus>)
        ensures
            status == self@.waits_for(),
    {
        if self.closed {
            return None;
        }
        if self.pending_interactive_replay.has_pending_thread_user_input() {
            Some(SideParentStatus::NeedsInput)
        } else if self.pending_interactive_replay.has_pending_thread_approvals() {
            Some(SideParentStatus::NeedsApproval)
        } else {
            None
        }
    }

    /// The turn that runs.
    pub fn active_turn_id(&self) -> (id: Option<&str>)
        ensures
            match id {
                Some(id) => self@.active_turn_id == Some(id@),
                None => self@.active_turn_id is None,
            },
    {
        match &self.active_turn_id {
            Some(id) => Some(id.as_str()),
            None => None,
        }
    }

    /// Whether the thread is closed.
    pub fn is_closed(&self) -> (closed: bool)
        ensures
            closed == self@.closed,
    {
        self.closed
    }

    /// Forgets which turn runs.
    pub fn clear_active_turn_id(&mut self)
        ensures
            final(self)@ == (ThreadEventStoreView { active_turn_id: None, ..old(self)@ }),
    {
        self.active_turn_id = None;
    }
}

/// Stops tracking the terminals that go by one of `identifiers`.
fn remove_terminals(input_state: &mut ThreadInputState, identifiers: &Vec<String>)
    ensures
        final(input_state).deep_view() == without_terminals_named(
            old(input_state).deep_view(),
            identifiers.deep_view(),
        ),
{
    let ghost all = identifiers.deep_view();
    let mut i: usize = 0;
    while i < identifiers.len()
        invariant
            i <= identifiers@.len(),
            all == identifiers.deep_view(),
            input_state.deep_view() == without_terminals_named(
                old(input_state).deep_view(),
                all.take(i as int),
            ),
        decreases identifiers@.len() - i,
    {
        assert(all.take(i + 1).drop_last() =~= all.take(i as int));
        assert(all.take(i + 1).last() == identifiers@[i as int]@);
        input_state.remove_background_terminal_process(&identifiers[i]);
        i = i + 1;
    }
    assert(all.take(i as int) =~= all);
}

/// The changes that an event tells of, where it is about the file change `item_id`.
fn buffered_file_changes(event: &ThreadBufferedEvent, request_turn_id: &String, item_id: &String) -> (changes:
    Option<Vec<FileUpdateChange>>)
    ensures
        changes.deep_view() == event_changes(event.deep_view(), request_turn_id@, item_id@),
{
    match event {
        ThreadBufferedEvent::Notification(notification) => match notification {
            ServerNotification::ItemStarted { turn_id, item } => if turn_id_matches(
                request_turn_id,
                turn_id,
            ) {
                file_change_item_changes(item, item_id)
            } else {
                None
            },
            ServerNotification::ItemCompleted { turn_id, item } => if turn_id_matches(
                request_turn_id,
                turn_id,
            ) {
                file_change_item_changes(item, item_id)
            } else {
                None
            },
            _ => None,
        },
        _ => None,
    }
}

/// The changes of the last file change `item_id`.
fn last_file_changes(items: &Vec<ThreadItem>, item_id: &String) -> (changes: Option<
    Vec<FileUpdateChange>,
>)
    ensures
        changes.deep_view() == newest_item_changes(items.deep_view(), item_id@),
{
    let ghost all = items.deep_view();
    let mut n: usize = items.len();
    assert(all.take(n as int) =~= all);
    while n > 0
        invariant
            n <= items@.len(),
            all == items.deep_view(),
            newest_item_changes(all, item_id@) == newest_item_changes(all.take(n as int), item_id@),
        decreases n,
    {
        n = n - 1;
        assert(items@[n as int].deep_view() == all[n as int]);
        assert(all.take(n + 1).drop_last() =~= all.take(n as int));
        assert(all.take(n + 1).last() == all[n as int]);
        if let Some(changes) = file_change_item_changes(&items[n], item_id) {
            return Some(changes);
        }
    }
    None
}

} // verus!
