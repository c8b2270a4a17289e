//! What an event store keeps, and what it gives back.
use crate::collections::{lemma_filter_all, lemma_filter_holds, lemma_filter_same};
use crate::input_state::ThreadInputStateView;
use crate::pending_replay::{
    after_notification, asks_approval, asks_input, question_of, PendingKind, PendingRequestView,
};
use crate::protocol::{
    NoticeKind, ServerNotificationView, ServerRequestView, ThreadBufferedEventView,
    ThreadSessionStateView, TurnView,
};
use crate::question_laws::{is_one_question, law_question_is_open_while_its_request_is};
use crate::terminal_ids::{event_matches, is_late, is_terminal_event, notification_ids};
use crate::thread_events::{
    running_turn, survives_close, survives_refresh, SideParentStatus, ThreadEventStoreView,
};
use vstd::prelude::*;

verus! {

/// Whether a request is still to be put to the user: it asks nothing that can be settled, or its
/// question is among the open ones.
pub open spec fn is_open(pending: Seq<PendingRequestView>, request: ServerRequestView) -> bool {
    match question_of(request) {
        Some(question) => exists|i: int|
            0 <= i < pending.len() && is_one_question(#[trigger] pending[i], question),
        None => true,
    }
}

/// When the user comes back to a thread, everything that was kept is replayed in its order: every
/// notification, every entry of the message history and all feedback. Only a request whose question
/// is no longer open is left out. The session and the turns are handed over as they are.
pub proof fn law_snapshot_leaves_out_settled_requests_only(store: ThreadEventStoreView, i: int)
    ensures
        store.snapshotted().events == store.buffer.filter(
            |event: ThreadBufferedEventView|
                match event {
                    ThreadBufferedEventView::Request(request) => is_open(store.pending, request),
                    _ => true,
                },
        ),
        0 <= i < store.buffer.len() && !(store.buffer[i] is Request)
            ==> store.snapshotted().events.contains(store.buffer[i]),
        0 <= i < store.buffer.len() && store.buffer[i] is Request ==> (
        store.snapshotted().events.contains(store.buffer[i]) <==> is_open(
            store.pending,
            store.buffer[i]->Request_0,
        )),
        (forall|j: int| 0 <= j < store.buffer.len() ==> !((#[trigger] store.buffer[j]) is Request))
            ==> store.snapshotted().events == store.buffer,
        store.snapshotted().session == store.session,
        store.snapshotted().turns == store.turns,
{
    let keep = |event: ThreadBufferedEventView| store.is_replayed(event);
    let wanted = |event: ThreadBufferedEventView|
        match event {
            ThreadBufferedEventView::Request(request) => is_open(store.pending, request),
            _ => true,
        };
    assert forall|j: int| 0 <= j < store.buffer.len() implies keep(#[trigger] store.buffer[j])
        == wanted(store.buffer[j]) by {
        if let ThreadBufferedEventView::Request(request) = store.buffer[j] {
            law_question_is_open_while_its_request_is(store.pending, request);
        }
    }
    lemma_filter_same(store.buffer, keep, wanted);
    let events = store.snapshotted().events;
    if 0 <= i < store.buffer.len() {
        if wanted(store.buffer[i]) {
            store.buffer.lemma_filter_contains(wanted, i);
        } else if events.contains(store.buffer[i]) {
            lemma_filter_holds(store.buffer, wanted);
            let k = choose|k: int| 0 <= k < events.len() && events[k] == store.buffer[i];
            assert(wanted(events[k]));
        }
    }
    if forall|j: int| 0 <= j < store.buffer.len() ==> !((#[trigger] store.buffer[j]) is Request) {
        lemma_filter_all(store.buffer, wanted);
    }
}

/// The requests that wait are those of an open thread whose question is open, in the order in which
/// they came; a closed thread has none.
pub proof fn law_waiting_requests_are_the_open_ones(store: ThreadEventStoreView)
    ensures
        store.closed ==> store.open_requests().len() == 0,
        !store.closed ==> store.open_requests() == store.buffer.filter(
            |event: ThreadBufferedEventView|
                match event {
                    ThreadBufferedEventView::Request(request) => is_open(store.pending, request),
                    _ => false,
                },
        ).map_values(|event: ThreadBufferedEventView| event->Request_0),
{
    let keep = |event: ThreadBufferedEventView| event is Request && store.is_replayed(event);
    let wanted = |event: ThreadBufferedEventView|
        match event {
            ThreadBufferedEventView::Request(request) => is_open(store.pending, request),
            _ => false,
        };
    assert forall|j: int| 0 <= j < store.buffer.len() implies keep(#[trigger] store.buffer[j])
        == wanted(store.buffer[j]) by {
        if let ThreadBufferedEventView::Request(request) = store.buffer[j] {
            law_question_is_open_while_its_request_is(store.pending, request);
        }
    }
    lemma_filter_same(store.buffer, keep, wanted);
    if !store.closed {
        assert(store.open_requests() =~= store.buffer.filter(wanted).map_values(
            |event: ThreadBufferedEventView| event->Request_0,
        ));
    }
}

/// A thread waits for input where a tool asks for some, else for an approval where something else
/// is asked, and for nothing where it is closed or nothing is asked.
pub proof fn law_thread_waits_for_what_is_asked(store: ThreadEventStoreView, i: int)
    ensures
        store.closed || store.pending.len() == 0 ==> store.waits_for() is None,
        !store.closed && 0 <= i < store.pending.len() && store.pending[i].kind
            == PendingKind::UserInput ==> store.waits_for() == Some(SideParentStatus::NeedsInput),
        !store.closed && store.pending.len() > 0 && (forall|j: int|
            0 <= j < store.pending.len() ==> (#[trigger] store.pending[j]).kind
                != PendingKind::UserInput) ==> store.waits_for() == Some(
            SideParentStatus::NeedsApproval,
        ),
{
    if !store.closed && store.pending.len() > 0 {
        assert(asks_input(store.pending) || asks_approval(store.pending)) by {
            let first = store.pending[0];
            if first.kind == PendingKind::UserInput {
                assert(store.pending[0].kind == PendingKind::UserInput);
            } else {
                assert(store.pending[0].kind != PendingKind::UserInput);
            }
        }
    }
}

/// A store with room keeps an event behind those that it has, and changes nothing else. A request
/// opens its question as well.
pub proof fn law_event_is_kept_at_the_end(
    store: ThreadEventStoreView,
    event: ThreadBufferedEventView,
    request: ServerRequestView,
)
    requires
        store.buffer.len() < store.capacity,
    ensures
        store.buffered(event) == (ThreadEventStoreView {
            buffer: store.buffer.push(event),
            ..store
        }),
        store.requested(request) == (ThreadEventStoreView {
            buffer: store.buffer.push(ThreadBufferedEventView::Request(request)),
            pending: match question_of(request) {
                Some(question) => store.pending.push(question),
                None => store.pending,
            },
            ..store
        }),
{
}

/// What a notification changes in the input of a thread: a turn that starts or ends is no longer
/// about to start, and one that ends is noted at the terminals that it has started.
pub open spec fn input_after(
    input: Option<ThreadInputStateView>,
    notification: ServerNotificationView,
) -> Option<ThreadInputStateView> {
    match (input, notification) {
        (Some(state), ServerNotificationView::TurnStarted { .. }) => Some(
            ThreadInputStateView { user_turn_pending_start: false, ..state },
        ),
        (Some(state), ServerNotificationView::TurnCompleted { turn }) => Some(
            ThreadInputStateView {
                user_turn_pending_start: false,
                ..state.turn_completed(turn.id)
            },
        ),
        _ => input,
    }
}

/// A store with room keeps a notification behind the events that it has. Only turns change which
/// turn runs: one that starts does from then on, and one that ends does no longer, if it did. The
/// end of the turn that runs also ends the wakeup that it was. An item that has ended frees the
/// names of its terminal. All else stays.
pub proof fn law_notification_is_kept_and_noted(
    store: ThreadEventStoreView,
    notification: ServerNotificationView,
)
    requires
        !store.closed || !is_late(notification),
        store.buffer.len() < store.capacity,
        !(notification is ThreadClosed),
    ensures
        store.notified(notification) == (ThreadEventStoreView {
            buffer: store.buffer.push(ThreadBufferedEventView::Notification(notification)),
            pending: after_notification(store.pending, notification),
            active_turn_id: match notification {
                ServerNotificationView::TurnStarted { turn } => Some(turn.id),
                ServerNotificationView::TurnCompleted { turn } => if store.active_turn_id == Some(
                    turn.id,
                ) {
                    None
                } else {
                    store.active_turn_id
                },
                _ => store.active_turn_id,
            },
            wakeup_in_flight: match notification {
                ServerNotificationView::TurnCompleted { turn } => store.wakeup_in_flight
                    && store.active_turn_id != Some(turn.id),
                _ => store.wakeup_in_flight,
            },
            input_state: input_after(store.input_state, notification),
            stopped: match notification {
                ServerNotificationView::ItemCompleted { .. } => store.stopped.difference(
                    notification_ids(notification).to_set(),
                ),
                _ => store.stopped,
            },
            ..store
        }),
{
}

/// Whether an event stays when its thread closes: requests do not, and neither does what is about a
/// background terminal.
pub open spec fn stays_after_close(event: ThreadBufferedEventView) -> bool {
    match event {
        ThreadBufferedEventView::Request(_) => false,
        ThreadBufferedEventView::Notification(notification) => !is_terminal_event(event),
        _ => true,
    }
}

/// Closing a thread leaves it idle: no turn, no wakeup, no question, no terminal and no turn about
/// to start. Of the events it keeps those that are neither requests nor about terminals. The
/// session, the turns and what the user has written stay.
pub proof fn law_closing_leaves_the_record(store: ThreadEventStoreView)
    ensures
        store.after_close() == (ThreadEventStoreView {
            closed: true,
            active_turn_id: None,
            wakeup_in_flight: false,
            wakeups: Seq::empty(),
            pending: Seq::empty(),
            buffer: store.buffer.filter(|event: ThreadBufferedEventView| stays_after_close(event)),
            input_state: match store.input_state {
                Some(state) => Some(
                    ThreadInputStateView {
                        user_turn_pending_start: false,
                        terminals: Seq::empty(),
                        ..state
                    },
                ),
                None => None,
            },
            ..store
        }),
{
    lemma_filter_same(
        store.buffer,
        |event: ThreadBufferedEventView| survives_close(event),
        |event: ThreadBufferedEventView| stays_after_close(event),
    );
}

/// That a thread is closed is kept as the last event, where the store may hold any, and the thread
/// is closed. The oldest event makes room for it, where one has to.
pub proof fn law_end_of_a_thread_is_kept(store: ThreadEventStoreView)
    ensures
        ({
            let kept = store.after_close().buffer.push(
                ThreadBufferedEventView::Notification(ServerNotificationView::ThreadClosed),
            );
            store.notified(ServerNotificationView::ThreadClosed) == (ThreadEventStoreView {
                buffer: if kept.len() <= store.capacity {
                    kept
                } else {
                    kept.subrange(1, kept.len() as int)
                },
                ..store.after_close()
            })
        }),
{
    let closed = store.noted(ServerNotificationView::ThreadClosed);
    assert(closed.pending =~= Seq::<PendingRequestView>::empty());
    assert(closed =~= store.after_close());
    let kept = closed.buffer.push(
        ThreadBufferedEventView::Notification(ServerNotificationView::ThreadClosed),
    );
    assert(kept.skip(1) =~= kept.subrange(1, kept.len() as int));
    if let ThreadBufferedEventView::Request(oldest) = kept[0] {
        law_question_is_open_while_its_request_is(closed.pending, oldest);
        reveal(Seq::filter);
        assert(closed.buffered(
            ThreadBufferedEventView::Notification(ServerNotificationView::ThreadClosed),
        ).pending =~= Seq::<PendingRequestView>::empty());
    }
}

/// A store that is full gives up its oldest event for a new one, and the question of that event
/// with it. All else is as in a store that has room.
pub proof fn law_oldest_event_makes_room(
    store: ThreadEventStoreView,
    event: ThreadBufferedEventView,
    notification: ServerNotificationView,
    request: ServerRequestView,
)
    requires
        store.buffer.len() >= store.capacity,
        store.buffer.len() > 0,
        !(notification is ThreadClosed),
        !store.closed || !is_late(notification),
    ensures
        ({
            let roomy = ThreadEventStoreView { capacity: store.buffer.len() + 1, ..store };
            &&& store.buffered(event) == without_oldest(roomy.buffered(event), store.capacity)
            &&& store.notified(notification) == without_oldest(
                roomy.notified(notification),
                store.capacity,
            )
            &&& store.requested(request) == without_oldest(
                roomy.requested(request),
                store.capacity,
            )
        }),
{
    let roomy = ThreadEventStoreView { capacity: store.buffer.len() + 1, ..store };
    let kept = roomy.notified(notification);
    let asked = roomy.requested(request);
    assert(kept.buffer[0] == store.buffer[0]);
    assert(asked.buffer[0] == store.buffer[0]);
    assert(roomy.buffered(event).buffer[0] == store.buffer[0]);
    if let ThreadBufferedEventView::Request(oldest) = store.buffer[0] {
        law_question_is_open_while_its_request_is(store.pending, oldest);
        law_question_is_open_while_its_request_is(kept.pending, oldest);
        law_question_is_open_while_its_request_is(asked.pending, oldest);
    }
}

/// A store without its oldest event and without the question that the event has asked.
pub open spec fn without_oldest(store: ThreadEventStoreView, capacity: nat) -> ThreadEventStoreView {
    ThreadEventStoreView {
        capacity,
        buffer: store.buffer.skip(1),
        pending: match store.buffer[0] {
            ThreadBufferedEventView::Request(oldest) => match question_of(oldest) {
                Some(question) => store.pending.filter(
                    |p: PendingRequestView| !is_one_question(p, question),
                ),
                None => store.pending,
            },
            _ => store.pending,
        },
        ..store
    }
}

/// A session that is taken over opens the thread with those turns, on the last one that is in
/// progress, and changes nothing else. Once it was fetched anew, of the events only requests,
/// feedback and the notices of hooks stay.
pub proof fn law_session_is_taken_over(
    store: ThreadEventStoreView,
    session: ThreadSessionStateView,
    turns: Seq<TurnView>,
    event: ThreadBufferedEventView,
)
    ensures
        store.with_session(session, turns) == (ThreadEventStoreView {
            session: Some(session),
            turns,
            closed: false,
            active_turn_id: running_turn(turns),
            ..store
        }),
        store.with_turns(turns) == (ThreadEventStoreView {
            turns,
            active_turn_id: running_turn(turns),
            ..store
        }),
        store.rebased() == (ThreadEventStoreView { buffer: store.rebased().buffer, ..store }),
        store.rebased().buffer == store.buffer.filter(
            |e: ThreadBufferedEventView| survives_refresh(e),
        ),
        survives_refresh(event) <==> event is Request || event is FeedbackSubmission || (
        event matches ThreadBufferedEventView::Notification(notification)
            && notification matches ServerNotificationView::Notice { kind, .. } && (kind
            == NoticeKind::HookStarted || kind == NoticeKind::HookCompleted)),
{
}

/// Turns that are taken back leave the thread open with the turns that are left, without events,
/// questions, a running turn or wakeups. The session, the input and the stopped terminals stay.
pub proof fn law_rollback_leaves_session_and_input(
    store: ThreadEventStoreView,
    turns: Seq<TurnView>,
)
    ensures
        store.rolled_back(turns) == (ThreadEventStoreView {
            session: store.session,
            turns,
            buffer: Seq::empty(),
            pending: Seq::empty(),
            active_turn_id: None,
            input_state: store.input_state,
            capacity: store.capacity,
            active: store.active,
            closed: false,
            wakeups: Seq::empty(),
            wakeup_in_flight: false,
            stopped: store.stopped,
        }),
        ThreadEventStoreView::empty(store.capacity) == (ThreadEventStoreView {
            session: None,
            turns: Seq::empty(),
            buffer: Seq::empty(),
            pending: Seq::empty(),
            active_turn_id: None,
            input_state: None,
            capacity: store.capacity,
            active: false,
            closed: false,
            wakeups: Seq::empty(),
            wakeup_in_flight: false,
            stopped: Set::empty(),
        }),
{
}

/// A thread is busy while a turn runs, while a wakeup is on its way, and while the user's turn is
/// about to start; and only then.
pub proof fn law_when_a_thread_is_busy(store: ThreadEventStoreView)
    ensures
        store.busy() <==> store.active_turn_id is Some || store.wakeup_in_flight || (
        store.input_state is Some && store.input_state->0.user_turn_pending_start),
{
}

/// An idle open thread hands a prompt out at once, and is on its way from then on; a busy one lets
/// it wait at the end; a closed one drops it. A prompt that waits is handed out, the oldest first,
/// once the thread is idle. Nothing else changes.
pub proof fn law_prompt_is_handed_out_or_waits(store: ThreadEventStoreView, text: Seq<char>)
    ensures
        store.closed ==> store.wakeup_offered(text) == (store, None::<Seq<char>>)
            && store.wakeup_taken() == (store, None::<Seq<char>>) && store.with_wakeup(text)
            == store,
        !store.closed ==> store.with_wakeup(text) == (ThreadEventStoreView {
            wakeups: store.wakeups.push(text),
            ..store
        }),
        !store.closed && store.busy() ==> store.wakeup_offered(text) == (
            ThreadEventStoreView { wakeups: store.wakeups.push(text), ..store },
            None::<Seq<char>>,
        ) && store.wakeup_taken() == (store, None::<Seq<char>>),
        !store.closed && !store.busy() ==> store.wakeup_offered(text) == (
            ThreadEventStoreView { wakeup_in_flight: true, ..store },
            Some(text),
        ),
        !store.closed && !store.busy() && store.wakeups.len() == 0 ==> store.wakeup_taken() == (
            store,
            None::<Seq<char>>,
        ),
        !store.closed && !store.busy() && store.wakeups.len() > 0 ==> {
            let (next, taken) = store.wakeup_taken();
            &&& taken == Some(store.wakeups[0])
            &&& next == (ThreadEventStoreView {
                wakeups: store.wakeups.subrange(1, store.wakeups.len() as int),
                wakeup_in_flight: true,
                ..store
            })
        },
{
    if store.wakeups.len() > 0 {
        assert(store.wakeups.skip(1) =~= store.wakeups.subrange(1, store.wakeups.len() as int));
    }
}

/// A wakeup that is called off is no longer on its way, unless a turn runs; nothing else changes.
/// Where the thread has no session to run it under, the prompt is kept with the input.
pub proof fn law_wakeup_that_is_called_off(store: ThreadEventStoreView, text: Seq<char>)
    ensures
        store.wakeup_cancelled() == (ThreadEventStoreView {
            wakeup_in_flight: store.wakeup_in_flight && store.active_turn_id is Some,
            ..store
        }),
        store.wakeup_put_back(text) == (ThreadEventStoreView {
            wakeup_in_flight: store.wakeup_in_flight && store.active_turn_id is Some,
            input_state: match store.input_state {
                Some(state) => Some(
                    ThreadInputStateView {
                        queued_completion_prompts: state.queued_completion_prompts.push(text),
                        ..state
                    },
                ),
                None => None,
            },
            ..store
        }),
        store.wakeup_started(None).0 == store && store.wakeup_started(None).1 is None,
        store.session is None ==> store.wakeup_started(Some(text)).0 == store.wakeup_put_back(text)
            && store.wakeup_started(Some(text)).1 is None,
        store.session is Some ==> store.wakeup_started(Some(text)).0 == store
            && store.wakeup_started(Some(text)).1 is Some,
{
    if let Some(state) = store.input_state {
        assert(state.queued_completion_prompts + seq![text]
            =~= state.queued_completion_prompts.push(text));
    }
}

/// Stopping terminals drops what was kept under their names, and remembers the names.
pub proof fn law_stopping_drops_what_was_kept(
    store: ThreadEventStoreView,
    ids: Seq<Seq<char>>,
    name: Seq<char>,
)
    ensures
        ({
            let next = store.with_stopped(ids);
            &&& next.buffer == store.buffer.filter(
                |event: ThreadBufferedEventView| !event_matches(event, ids),
            )
            &&& next.stopped.contains(name) <==> store.stopped.contains(name) || ids.contains(name)
            &&& next == (ThreadEventStoreView {
                buffer: next.buffer,
                stopped: next.stopped,
                ..store
            })
        }),
{
}

} // verus!
