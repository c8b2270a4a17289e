//! What holds of an event store whatever happens to it.
use crate::background_terminal_wakeup::prompt_text;
use crate::collections::{lemma_filter_all, lemma_filter_holds, overlap};
use crate::input_state::{
    first_terminal, goes_by_any, with_turn_completed, ThreadInputStateView, TrackedTerminalView,
};
use crate::pending_replay::{
    after_op, after_request, question_of, same_question, settled_by_notification, settled_by_op,
    PendingKind, PendingRequestView,
};
use crate::protocol::{
    AppCommandView, CommandExecutionSource, FileUpdateChangeView, ServerNotificationView,
    ServerRequestView, ThreadBufferedEventView, ThreadItemView, ThreadSessionStateView, TurnStatus,
    TurnView,
};
use crate::terminal_ids::{
    command_ids, event_matches, is_late, is_terminal_event, is_terminal_item, is_terminal_source,
    notification_ids, notification_reusable_ids, notification_stable_ids,
};
use crate::thread_events::{
    all_ids, dropped, live_ids, nothing_follows, or_tracking_only, running_turn, survives_close,
    survives_refresh, turn_accepts, with_ids, without_terminals_named, ThreadEventStoreView,
};
use vstd::prelude::*;

verus! {

/// A store that holds no more events than it may never comes to hold more.
pub proof fn law_capacity_is_kept(
    store: ThreadEventStoreView,
    notification: ServerNotificationView,
    request: ServerRequestView,
    event: ThreadBufferedEventView,
    session: ThreadSessionStateView,
    turns: Seq<TurnView>,
    ids: Seq<Seq<char>>,
)
    requires
        store.within_capacity(),
    ensures
        store.buffered(event).within_capacity(),
        store.notified(notification).within_capacity(),
        store.requested(request).within_capacity(),
        store.watched(notification).0.within_capacity(),
        store.with_session(session, turns).within_capacity(),
        store.rebased().within_capacity(),
        store.after_close().within_capacity(),
        store.with_stopped(ids).within_capacity(),
        store.with_all_stopped().within_capacity(),
        store.stopped_taken(notification).within_capacity(),
        store.rolled_back(turns).within_capacity(),
{
    broadcast use Seq::lemma_filter_len;

    let noted = store.noted(notification);
    assert(noted.within_capacity());
}

/// Whether every open question has its request among the events.
pub open spec fn questions_have_requests(store: ThreadEventStoreView) -> bool {
    forall|i: int| 0 <= i < store.pending.len() ==> has_request(store.buffer, #[trigger] store.pending[i])
}

/// Whether one of the events is a request that asks `question`.
pub open spec fn has_request(
    buffer: Seq<ThreadBufferedEventView>,
    question: PendingRequestView,
) -> bool {
    exists|i: int| 0 <= i < buffer.len() && asks(#[trigger] buffer[i], question)
}

/// Whether an event is a request that asks `question`.
pub open spec fn asks(event: ThreadBufferedEventView, question: PendingRequestView) -> bool {
    &&& event matches ThreadBufferedEventView::Request(request)
    &&& question_of(request) matches Some(asked)
    &&& same_question(asked, question)
}

/// Filters that keep requests keep the requests that open questions have.
proof fn lemma_filter_keeps_requests(
    store: ThreadEventStoreView,
    keep: spec_fn(ThreadBufferedEventView) -> bool,
)
    requires
        questions_have_requests(store),
        forall|i: int|
            0 <= i < store.buffer.len() && (#[trigger] store.buffer[i]) is Request ==> keep(
                store.buffer[i],
            ),
    ensures
        forall|i: int|
            0 <= i < store.pending.len() ==> has_request(
                store.buffer.filter(keep),
                #[trigger] store.pending[i],
            ),
{
    assert forall|i: int| 0 <= i < store.pending.len() implies has_request(
        store.buffer.filter(keep),
        #[trigger] store.pending[i],
    ) by {
        let question = store.pending[i];
        assert(has_request(store.buffer, question));
        let j = choose|j: int| 0 <= j < store.buffer.len() && asks(#[trigger] store.buffer[j], question);
        store.buffer.lemma_filter_contains(keep, j);
        let kept = store.buffer.filter(keep);
        let k = choose|k: int| 0 <= k < kept.len() && kept[k] == store.buffer[j];
        assert(asks(kept[k], question));
    }
}

/// Where some questions are settled, the others still have their requests.
proof fn lemma_fewer_questions(
    buffer: Seq<ThreadBufferedEventView>,
    pending: Seq<PendingRequestView>,
    keep: spec_fn(PendingRequestView) -> bool,
)
    requires
        forall|i: int| 0 <= i < pending.len() ==> has_request(buffer, #[trigger] pending[i]),
    ensures
        forall|i: int|
            0 <= i < pending.filter(keep).len() ==> has_request(
                buffer,
                #[trigger] pending.filter(keep)[i],
            ),
{
    assert forall|i: int| 0 <= i < pending.filter(keep).len() implies has_request(
        buffer,
        #[trigger] pending.filter(keep)[i],
    ) by {
        let question = pending.filter(keep)[i];
        pending.lemma_filter_contains_rev(keep, question);
        let j = choose|j: int| 0 <= j < pending.len() && pending[j] == question;
        assert(has_request(buffer, pending[j]));
    }
}

/// One more event leaves every open question with its request: a question goes with the request
/// that asked it.
pub proof fn lemma_buffered_keeps_requests(store: ThreadEventStoreView, event: ThreadBufferedEventView)
    requires
        forall|i: int|
            0 <= i < store.pending.len() ==> has_request(
                store.buffer.push(event),
                #[trigger] store.pending[i],
            ),
    ensures
        questions_have_requests(store.buffered(event)),
{
    let all = store.buffer.push(event);
    let next = store.buffered(event);
    if all.len() > store.capacity {
        let settled = match all[0] {
            ThreadBufferedEventView::Request(request) => question_of(request),
            _ => None,
        };
        assert forall|i: int| 0 <= i < next.pending.len() implies has_request(
            next.buffer,
            #[trigger] next.pending[i],
        ) by {
            let question = next.pending[i];
            if let Some(evicted) = settled {
                let kept = |p: PendingRequestView| !same_question(p, evicted);
                assert(next.pending == store.pending.filter(kept));
                lemma_filter_holds(store.pending, kept);
                assert(kept(next.pending[i]));
                store.pending.lemma_filter_contains_rev(kept, question);
            }
            let j = choose|j: int| 0 <= j < store.pending.len() && store.pending[j] == question;
            assert(store.pending[j] == question);
            assert(has_request(all, store.pending[j]));
            let k = choose|k: int| 0 <= k < all.len() && asks(#[trigger] all[k], question);
            assert(k != 0);
            assert(next.buffer[k - 1] == all[k]);
        }
    } else {
        assert(next.buffer == all);
    }
}

/// Every open question has its request among the events, so whenever the user is told that a
/// thread waits for an answer, the request is there to be shown. No operation changes that.
pub proof fn law_questions_keep_their_requests(
    store: ThreadEventStoreView,
    notification: ServerNotificationView,
    request: ServerRequestView,
    op: AppCommandView,
    session: ThreadSessionStateView,
    turns: Seq<TurnView>,
    ids: Seq<Seq<char>>,
)
    requires
        questions_have_requests(store),
    ensures
        questions_have_requests(store.notified(notification)),
        questions_have_requests(store.requested(request)),
        questions_have_requests(store.watched(notification).0),
        questions_have_requests(store.with_session(session, turns)),
        questions_have_requests(store.rebased()),
        questions_have_requests(store.after_close()),
        questions_have_requests(store.with_stopped(ids)),
        questions_have_requests(store.with_all_stopped()),
        questions_have_requests(store.rolled_back(turns)),
        questions_have_requests(
            (ThreadEventStoreView { pending: after_op(store.pending, op), ..store }),
        ),
{
    lemma_notified_keeps_requests(store, notification);
    lemma_requested_keeps_requests(store, request);
    lemma_filter_keeps_requests(store, |e: ThreadBufferedEventView| survives_refresh(e));
    lemma_filter_keeps_requests(store, |e: ThreadBufferedEventView| !event_matches(e, ids));
    let named = all_ids(store.buffer);
    lemma_filter_keeps_requests(store, |e: ThreadBufferedEventView| !event_matches(e, named));
    lemma_fewer_questions(
        store.buffer,
        store.pending,
        |p: PendingRequestView| !settled_by_op(store.pending, op, p),
    );
    if let ServerNotificationView::ItemCompleted { item, .. } = notification {
        if let ThreadItemView::CommandExecution { id, process_id, .. } = item {
            let named = command_ids(id, process_id);
            lemma_filter_keeps_requests(store, |e: ThreadBufferedEventView| !event_matches(e, named));
        }
    }
}

proof fn lemma_notified_keeps_requests(
    store: ThreadEventStoreView,
    notification: ServerNotificationView,
)
    requires
        questions_have_requests(store),
    ensures
        questions_have_requests(store.notified(notification)),
{
    lemma_fewer_questions(
        store.buffer,
        store.pending,
        |p: PendingRequestView| !settled_by_notification(notification, p),
    );
    let noted = store.noted(notification);
    let event = ThreadBufferedEventView::Notification(notification);
    assert forall|i: int| 0 <= i < noted.pending.len() implies has_request(
        noted.buffer.push(event),
        #[trigger] noted.pending[i],
    ) by {
        let question = noted.pending[i];
        assert(has_request(noted.buffer, question));
        let j = choose|j: int| 0 <= j < noted.buffer.len() && asks(#[trigger] noted.buffer[j], question);
        assert(noted.buffer.push(event)[j] == noted.buffer[j]);
    }
    lemma_buffered_keeps_requests(noted, event);
}

proof fn lemma_requested_keeps_requests(store: ThreadEventStoreView, request: ServerRequestView)
    requires
        questions_have_requests(store),
    ensures
        questions_have_requests(store.requested(request)),
{
    let next = ThreadEventStoreView { pending: after_request(store.pending, request), ..store };
    let event = ThreadBufferedEventView::Request(request);
    let all = store.buffer.push(event);
    assert forall|i: int| 0 <= i < next.pending.len() implies has_request(
        all,
        #[trigger] next.pending[i],
    ) by {
        if i < store.pending.len() {
            let question = store.pending[i];
            assert(has_request(store.buffer, question));
            let j = choose|j: int|
                0 <= j < store.buffer.len() && asks(#[trigger] store.buffer[j], question);
            assert(all[j] == store.buffer[j]);
        } else {
            assert(asks(all[store.buffer.len() as int], next.pending[i]));
        }
    }
    lemma_buffered_keeps_requests(next, event);
}

/// Whenever an open thread is said to wait for the user, there is a request that waits.
pub proof fn law_waiting_thread_has_a_request(store: ThreadEventStoreView)
    requires
        questions_have_requests(store),
        store.waits_for() is Some,
    ensures
        store.open_requests().len() > 0,
{
    assert(store.pending.len() > 0);
    let question = store.pending[0];
    assert(has_request(store.buffer, question));
    let j = choose|j: int| 0 <= j < store.buffer.len() && asks(#[trigger] store.buffer[j], question);
    let keep = |e: ThreadBufferedEventView| e is Request && store.is_replayed(e);
    assert(same_question(store.pending[0], question_of(store.buffer[j]->Request_0)->0));
    assert(keep(store.buffer[j]));
    store.buffer.lemma_filter_contains(keep, j);
}

/// A closed thread stays idle: no turn runs on it, no prompt waits and nothing is asked, until
/// it gets a session again.
pub proof fn law_closed_thread_stays_idle(
    store: ThreadEventStoreView,
    notification: ServerNotificationView,
    op: AppCommandView,
    text: Seq<char>,
    ids: Seq<Seq<char>>,
)
    requires
        store.closed_is_idle(),
    ensures
        store.notified(notification).closed_is_idle(),
        store.after_close().closed_is_idle(),
        store.watched(notification).0.closed ==> store.watched(notification).0 == store,
        store.with_wakeup(text).closed_is_idle(),
        store.wakeup_offered(text).0.closed_is_idle(),
        store.wakeup_taken().0.closed_is_idle(),
        store.wakeup_cancelled().closed_is_idle(),
        store.rebased().closed_is_idle(),
        store.with_stopped(ids).closed_is_idle(),
        store.with_all_stopped().closed_is_idle(),
        (ThreadEventStoreView { pending: after_op(store.pending, op), ..store }).closed_is_idle(),
{
    broadcast use Seq::lemma_filter_len;

    lemma_filter_holds(store.buffer, |e: ThreadBufferedEventView| survives_close(e));
    if !store.closed || !is_late(notification) {
        assert(store.noted(notification).closed_is_idle());
    }
    if store.closed {
        lemma_filter_subset(store.buffer, |e: ThreadBufferedEventView| survives_refresh(e));
        lemma_filter_subset(store.buffer, |e: ThreadBufferedEventView| !event_matches(e, ids));
        let named = all_ids(store.buffer);
        lemma_filter_subset(store.buffer, |e: ThreadBufferedEventView| !event_matches(e, named));
    }
}

/// What a filter keeps was there before.
proof fn lemma_filter_subset(
    buffer: Seq<ThreadBufferedEventView>,
    keep: spec_fn(ThreadBufferedEventView) -> bool,
)
    requires
        forall|i: int| 0 <= i < buffer.len() ==> survives_close(#[trigger] buffer[i]),
    ensures
        forall|i: int| 0 <= i < buffer.filter(keep).len() ==> survives_close(#[trigger] buffer.filter(keep)[i]),
{
    assert forall|i: int| 0 <= i < buffer.filter(keep).len() implies survives_close(
        #[trigger] buffer.filter(keep)[i],
    ) by {
        buffer.lemma_filter_contains_rev(keep, buffer.filter(keep)[i]);
    }
}

/// A closed thread takes no notice of what comes too late: it is dropped, and nothing changes.
pub proof fn law_closed_thread_ignores_late_notifications(
    store: ThreadEventStoreView,
    notification: ServerNotificationView,
)
    requires
        store.closed,
        is_late(notification),
    ensures
        store.notified(notification) == store,
        store.watched(notification) == (store, dropped()),
{
}

/// Once a thread is closed it waits for nothing, has no request to show, and replays neither a
/// request nor an event of a background terminal.
pub proof fn law_closing_leaves_nothing_to_answer(store: ThreadEventStoreView)
    ensures
        store.after_close().waits_for() is None,
        store.after_close().open_requests().len() == 0,
        store.after_close().wakeup_taken() == (store.after_close(), None::<Seq<char>>),
        forall|i: int|
            0 <= i < store.after_close().snapshotted().events.len() ==> {
                let event = #[trigger] store.after_close().snapshotted().events[i];
                !(event is Request) && !is_terminal_event(event)
            },
{
    let next = store.after_close();
    let keep = |e: ThreadBufferedEventView| next.is_replayed(e);
    lemma_filter_holds(store.buffer, |e: ThreadBufferedEventView| survives_close(e));
    lemma_filter_subset(next.buffer, keep);
}

/// While a turn runs or is about to, no prompt that wakes the agent up is handed out, and a
/// prompt that is handed out counts as a turn that is about to run.
pub proof fn law_wakeups_are_serialized(store: ThreadEventStoreView, text: Seq<char>)
    ensures
        store.busy() ==> store.wakeup_offered(text).1 is None,
        store.busy() ==> store.wakeup_taken() == (store, None::<Seq<char>>),
        store.wakeup_offered(text).1 is Some ==> store.wakeup_offered(text).0.busy(),
        store.wakeup_taken().1 is Some ==> store.wakeup_taken().0.busy(),
{
}

/// No prompt gets lost on an open thread, and none is submitted out of turn: an offered prompt is
/// handed out or waits behind those that were offered before.
pub proof fn law_wakeups_keep_their_order(store: ThreadEventStoreView, text: Seq<char>)
    requires
        !store.closed,
    ensures
        match store.wakeup_offered(text) {
            (next, Some(start)) => start == text && next.wakeups == store.wakeups,
            (next, None) => next.wakeups == store.wakeups.push(text),
        },
        match store.wakeup_taken() {
            (next, Some(start)) => seq![start] + next.wakeups == store.wakeups,
            (next, None) => next == store,
        },
{
}

/// A prompt that waits is submitted once the turn that the prompt before it started has ended.
pub proof fn law_waiting_wakeup_starts_after_the_turn(
    store: ThreadEventStoreView,
    first: Seq<char>,
    second: Seq<char>,
    started: TurnView,
    completed: TurnView,
)
    requires
        !store.closed,
        !store.busy(),
        store.wakeups.len() == 0,
        started.id == completed.id,
    ensures
        ({
            let one = store.wakeup_offered(first);
            let two = one.0.wakeup_offered(second);
            let running = two.0.notified(ServerNotificationView::TurnStarted { turn: started });
            let ended = running.notified(ServerNotificationView::TurnCompleted { turn: completed });
            &&& one.1 == Some(first)
            &&& two.1 is None
            &&& running.wakeup_taken().1 is None
            &&& ended.wakeup_taken().1 == Some(second)
        }),
{
}

/// The turn that runs is the one that has started last, until that very turn ends.
pub proof fn law_turn_lifecycle(
    store: ThreadEventStoreView,
    started: TurnView,
    completed: TurnView,
)
    requires
        !store.closed,
    ensures
        ({
            let running = store.notified(ServerNotificationView::TurnStarted { turn: started });
            let ended = running.notified(ServerNotificationView::TurnCompleted { turn: completed });
            &&& running.active_turn_id == Some(started.id)
            &&& completed.id == started.id ==> ended.active_turn_id is None
            &&& completed.id != started.id ==> ended.active_turn_id == Some(started.id)
        }),
{
}

/// A thread that gets its turns from the server is on the last one that is in progress, and on
/// none exactly where none is.
pub proof fn law_restored_turn_is_the_last_in_progress(turns: Seq<TurnView>)
    ensures
        match running_turn(turns) {
            Some(id) => exists|i: int|
                0 <= i < turns.len() && (#[trigger] turns[i]).id == id && turns[i].status
                    == TurnStatus::InProgress && forall|j: int|
                    i < j < turns.len() ==> (#[trigger] turns[j]).status != TurnStatus::InProgress,
            None => forall|i: int|
                0 <= i < turns.len() ==> (#[trigger] turns[i]).status != TurnStatus::InProgress,
        },
    decreases turns.len(),
{
    if turns.len() > 0 {
        let rest = turns.drop_last();
        law_restored_turn_is_the_last_in_progress(rest);
        let last = turns.len() - 1;
        if turns.last().status == TurnStatus::InProgress {
            assert(turns[last].id == turns.last().id);
        } else {
            assert(forall|i: int| 0 <= i < last ==> #[trigger] turns[i] == rest[i]);
            if let Some(id) = running_turn(rest) {
                let i = choose|i: int|
                    0 <= i < rest.len() && (#[trigger] rest[i]).id == id && rest[i].status
                        == TurnStatus::InProgress && forall|j: int|
                        i < j < rest.len() ==> (#[trigger] rest[j]).status
                            != TurnStatus::InProgress;
                assert(turns[i].id == id);
            }
        }
    }
}

/// Once the user has stopped a terminal, nothing that was kept of it is replayed, and whatever
/// else comes in under one of its names is dropped.
pub proof fn law_stopped_terminal_is_dropped(
    store: ThreadEventStoreView,
    ids: Seq<Seq<char>>,
    notification: ServerNotificationView,
)
    ensures
        !store.closed && overlap(notification_ids(notification), ids) ==> store.with_stopped(
            ids,
        ).watched(notification).1 == dropped(),
        forall|i: int|
            0 <= i < store.with_stopped(ids).snapshotted().events.len() ==> !event_matches(
                #[trigger] store.with_stopped(ids).snapshotted().events[i],
                ids,
            ),
{
    let next = store.with_stopped(ids);
    let named = notification_ids(notification);
    if overlap(named, ids) {
        let i = choose|i: int| 0 <= i < named.len() && ids.contains(#[trigger] named[i]);
        assert(next.stopped.contains(named[i]));
        assert(next.is_about_stopped(notification));
    }
    let keep = |e: ThreadBufferedEventView| !event_matches(e, ids);
    let replayed = |e: ThreadBufferedEventView| next.is_replayed(e);
    lemma_filter_holds(store.buffer, keep);
    assert forall|i: int| 0 <= i < next.snapshotted().events.len() implies !event_matches(
        #[trigger] next.snapshotted().events[i],
        ids,
    ) by {
        let event = next.snapshotted().events[i];
        next.buffer.lemma_filter_contains_rev(replayed, event);
        let j = choose|j: int| 0 <= j < next.buffer.len() && next.buffer[j] == event;
        assert(keep(next.buffer[j]));
    }
}

/// When a stopped terminal ends, its process may be used again, while its call stays stopped: a
/// late event of that call is still dropped.
pub proof fn law_only_the_process_of_a_stopped_terminal_is_reused(
    store: ThreadEventStoreView,
    turn_id: Seq<char>,
    item: ThreadItemView,
    id: Seq<char>,
    process_id: Seq<char>,
)
    requires
        !store.closed,
        item matches ThreadItemView::CommandExecution { id: item_call, process_id: item_process, source, .. }
            && item_call == id && item_process == Some(process_id) && is_terminal_source(source),
        id != process_id,
        store.stopped.contains(id),
    ensures
        ({
            let ended = store.watched(ServerNotificationView::ItemCompleted { turn_id, item });
            &&& ended.1 == dropped()
            &&& ended.0.stopped.contains(id)
            &&& !ended.0.stopped.contains(process_id)
        }),
{
    let notification = ServerNotificationView::ItemCompleted { turn_id, item };
    let named = notification_ids(notification);
    assert(named[0] == id);
    assert(store.is_about_stopped(notification));
    assert(notification_reusable_ids(notification) == seq![process_id]);
    assert(seq![process_id].contains(process_id)) by {
        assert(seq![process_id][0] == process_id);
    }
}

/// The end of a terminal wakes the agent up at most once: where it does, now or when the turn that
/// runs has ended, a second notice of the end finds nothing that is tracked any more.
pub proof fn law_terminal_end_is_reported_once(
    store: ThreadEventStoreView,
    notification: ServerNotificationView,
)
    requires
        !store.closed,
        !store.is_about_stopped(notification),
        store.watched(notification).1.drop_notification,
    ensures
        store.watched(notification).0.watched(notification) == (
            store.watched(notification).0,
            nothing_follows(),
        ),
{
    if let ServerNotificationView::ItemCompleted { item, .. } = notification {
        if let ThreadItemView::CommandExecution { id, process_id, .. } = item {
            let named = command_ids(id, process_id);
            let state = store.input_state->0;
            lemma_no_terminal_left(state.terminals, named);
        }
    }
}

/// Where the terminals that go by one of `ids` are left out, none goes by one of them.
proof fn lemma_no_terminal_left(terminals: Seq<TrackedTerminalView>, ids: Seq<Seq<char>>)
    ensures
        first_terminal(
            terminals.filter(|t: TrackedTerminalView| !goes_by_any(t, ids)),
            ids,
        ) is None,
{
    let keep = |t: TrackedTerminalView| !goes_by_any(t, ids);
    lemma_filter_holds(terminals, keep);
    lemma_none_goes_by(terminals.filter(keep), ids);
}

proof fn lemma_none_goes_by(terminals: Seq<TrackedTerminalView>, ids: Seq<Seq<char>>)
    requires
        forall|i: int| 0 <= i < terminals.len() ==> !goes_by_any(#[trigger] terminals[i], ids),
    ensures
        first_terminal(terminals, ids) is None,
    decreases terminals.len(),
{
    if terminals.len() > 0 {
        lemma_none_goes_by(terminals.skip(1), ids);
    }
}

/// Of the requests, only those that still wait for an answer are replayed, and of the other
/// events all.
pub proof fn law_snapshot_replays_open_questions_only(store: ThreadEventStoreView)
    ensures
        forall|i: int|
            0 <= i < store.snapshotted().events.len() ==> store.is_replayed(
                #[trigger] store.snapshotted().events[i],
            ),
        forall|i: int|
            0 <= i < store.buffer.len() && store.is_replayed(#[trigger] store.buffer[i])
                ==> store.snapshotted().events.contains(store.buffer[i]),
{
    let keep = |e: ThreadBufferedEventView| store.is_replayed(e);
    lemma_filter_holds(store.buffer, keep);
    assert forall|i: int|
        0 <= i < store.buffer.len() && store.is_replayed(#[trigger] store.buffer[i]) implies store.snapshotted().events.contains(
    store.buffer[i]) by {
        store.buffer.lemma_filter_contains(keep, i);
    }
}

/// Whether a command of the user answers `question`.
pub open spec fn answers(op: AppCommandView, question: PendingRequestView) -> bool {
    match op {
        AppCommandView::ExecApproval { id } => question.kind == PendingKind::ExecApproval
            && question.key == id,
        AppCommandView::PatchApproval { id } => question.kind == PendingKind::PatchApproval
            && question.key == id,
        AppCommandView::RequestPermissionsResponse { id } => question.kind
            == PendingKind::Permissions && question.key == id,
        AppCommandView::ResolveElicitation { server_name, request_id } => question.kind
            == PendingKind::Elicitation && question.key == server_name && question.request_id
            == request_id,
        _ => false,
    }
}

/// A request that was answered is not replayed.
pub proof fn law_answered_request_is_not_replayed(
    store: ThreadEventStoreView,
    request: ServerRequestView,
    op: AppCommandView,
)
    requires
        question_of(request) matches Some(question) && answers(op, question),
    ensures
        ({
            let next = ThreadEventStoreView { pending: after_op(store.pending, op), ..store };
            !next.snapshotted().events.contains(ThreadBufferedEventView::Request(request))
        }),
{
    let next = ThreadEventStoreView { pending: after_op(store.pending, op), ..store };
    let open = |p: PendingRequestView| !settled_by_op(store.pending, op, p);
    lemma_filter_holds(store.pending, open);
    let question = question_of(request)->0;
    assert forall|i: int| 0 <= i < next.pending.len() implies !same_question(
        #[trigger] next.pending[i],
        question,
    ) by {
        assert(open(next.pending[i]));
    }
    let event = ThreadBufferedEventView::Request(request);
    let keep = |e: ThreadBufferedEventView| next.is_replayed(e);
    if next.snapshotted().events.contains(event) {
        lemma_filter_holds(next.buffer, keep);
        let i = choose|i: int|
            0 <= i < next.snapshotted().events.len() && next.snapshotted().events[i] == event;
        assert(keep(next.snapshotted().events[i]));
    }
}

/// A request that has just come in is replayed, as the newest of the events. The one exception is
/// that the event that has to go for it has asked the same: the question goes with that event.
pub proof fn law_new_request_is_replayed(store: ThreadEventStoreView, request: ServerRequestView)
    requires
        store.capacity > 0,
        store.buffer.len() >= store.capacity ==> !(question_of(request) matches Some(question)
            && asks(store.buffer[0], question)),
    ensures
        store.requested(request).snapshotted().events.len() > 0,
        store.requested(request).snapshotted().events.last() == ThreadBufferedEventView::Request(
            request,
        ),
{
    let next = store.requested(request);
    let event = ThreadBufferedEventView::Request(request);
    let keep = |e: ThreadBufferedEventView| next.is_replayed(e);
    let asked = after_request(store.pending, request);
    let all = store.buffer.push(event);
    if let Some(question) = question_of(request) {
        assert(same_question(asked.last(), question));
        if all.len() > store.capacity {
            if let ThreadBufferedEventView::Request(evicted) = all[0] {
                if let Some(gone) = question_of(evicted) {
                    let open = |p: PendingRequestView| !same_question(p, gone);
                    assert(next.pending == asked.filter(open));
                    assert(open(asked.last()));
                    asked.lemma_filter_contains(open, asked.len() - 1);
                }
            }
        }
        assert(next.pending.contains(asked.last()));
    }
    assert(keep(event));
    assert(next.buffer.last() == event);
    reveal(Seq::filter);
    assert(next.buffer.filter(keep) == next.buffer.drop_last().filter(keep).push(event));
}

/// The prompts that wait are handed over when the user comes back to the thread, in their order
/// and behind those that were kept with the input, and a prompt that was handed out counts as a
/// turn that is about to start.
pub proof fn law_activation_hands_over_wakeups(store: ThreadEventStoreView)
    ensures
        match store.snapshotted().input_state {
            Some(state) => {
                &&& state.queued_completion_prompts == or_tracking_only(
                    store.input_state,
                ).queued_completion_prompts + store.wakeups
                &&& state.terminals == or_tracking_only(store.input_state).terminals
                &&& state.user_turn_pending_start == (store.wakeup_in_flight || or_tracking_only(
                    store.input_state,
                ).user_turn_pending_start)
            },
            None => store.wakeups.len() == 0 && !store.wakeup_in_flight && store.input_state is None,
        },
{
    let kept = or_tracking_only(store.input_state).queued_completion_prompts;
    if store.wakeups.len() == 0 {
        assert(kept + store.wakeups =~= kept);
    }
}

/// What the user has written and not sent.
pub open spec fn written(input_state: Option<ThreadInputStateView>) -> Option<Seq<char>> {
    match input_state {
        Some(state) => state.composer,
        None => None,
    }
}

/// Whatever happens to a thread that is not on screen, what the user has written there stays, and
/// is handed back with what is replayed.
pub proof fn law_written_text_stays(
    store: ThreadEventStoreView,
    notification: ServerNotificationView,
    request: ServerRequestView,
    session: ThreadSessionStateView,
    turns: Seq<TurnView>,
    text: Seq<char>,
    ids: Seq<Seq<char>>,
)
    ensures
        written(store.notified(notification).input_state) == written(store.input_state),
        written(store.watched(notification).0.input_state) == written(store.input_state),
        written(store.requested(request).input_state) == written(store.input_state),
        written(store.wakeup_offered(text).0.input_state) == written(store.input_state),
        written(store.wakeup_taken().0.input_state) == written(store.input_state),
        written(store.wakeup_put_back(text).input_state) == written(store.input_state),
        written(store.with_session(session, turns).input_state) == written(store.input_state),
        written(store.rebased().input_state) == written(store.input_state),
        written(store.after_close().input_state) == written(store.input_state),
        written(store.with_stopped(ids).input_state) == written(store.input_state),
        written(store.with_all_stopped().input_state) == written(store.input_state),
        written(store.stopped_taken(notification).input_state) == written(store.input_state),
        written(store.rolled_back(turns).input_state) == written(store.input_state),
        written(store.snapshotted().input_state) == written(store.input_state),
{
    if let Some(state) = store.input_state {
        lemma_named_terminals_only(state, notification_ids(notification));
    }
}

/// Leaving out terminals changes nothing else.
proof fn lemma_named_terminals_only(state: ThreadInputStateView, ids: Seq<Seq<char>>)
    ensures
        without_terminals_named(state, ids).composer == state.composer,
    decreases ids.len(),
{
    if ids.len() > 0 {
        lemma_named_terminals_only(state, ids.drop_last());
    }
}

/// Fetching the session anew leaves only events that the session does not hold, and leaves what
/// is asked as it is. Doing so again changes nothing.
pub proof fn law_refresh_keeps_what_the_session_lacks(store: ThreadEventStoreView)
    ensures
        forall|i: int|
            0 <= i < store.rebased().buffer.len() ==> survives_refresh(
                #[trigger] store.rebased().buffer[i],
            ),
        store.rebased().pending == store.pending,
        store.rebased().rebased() == store.rebased(),
{
    let keep = |e: ThreadBufferedEventView| survives_refresh(e);
    lemma_filter_holds(store.buffer, keep);
    lemma_filter_all(store.buffer.filter(keep), keep);
}

/// Turns that are taken back take everything along that came in with them.
pub proof fn law_rollback_starts_afresh(store: ThreadEventStoreView, turns: Seq<TurnView>)
    ensures
        ({
            let next = store.rolled_back(turns);
            &&& next.snapshotted().turns == turns
            &&& next.snapshotted().events.len() == 0
            &&& next.waits_for() is None
            &&& next.wakeup_taken().1 is None
            &&& !next.closed
        }),
{
    reveal(Seq::filter);
}

/// The changes that are shown with a request are those of the newest event about it.
pub proof fn law_newest_file_changes_are_shown(
    store: ThreadEventStoreView,
    request_turn_id: Seq<char>,
    turn_id: Seq<char>,
    item_id: Seq<char>,
    changes: Seq<FileUpdateChangeView>,
    payload: Seq<char>,
)
    requires
        !store.closed,
        store.capacity > 0,
        turn_accepts(request_turn_id, turn_id),
    ensures
        store.notified(
            ServerNotificationView::ItemStarted {
                turn_id,
                item: ThreadItemView::FileChange { id: item_id, changes, payload },
            },
        ).file_changes(request_turn_id, item_id) == Some(changes),
{
    let notification = ServerNotificationView::ItemStarted {
        turn_id,
        item: ThreadItemView::FileChange { id: item_id, changes, payload },
    };
    let next = store.notified(notification);
    assert(store.noted(notification).buffer == store.buffer);
    if store.buffer.len() + 1 > store.capacity {
        assert(next.buffer == store.buffer.push(
            ThreadBufferedEventView::Notification(notification),
        ).skip(1));
    }
    assert(next.buffer.last() == ThreadBufferedEventView::Notification(notification));
}

/// A terminal that was started on a thread that is not on screen, and that ends after the turn
/// that started it, wakes the agent up with what it was, how it ended and what it put out; and
/// no notice of it is shown.
pub proof fn law_ended_terminal_wakes_the_agent(
    store: ThreadEventStoreView,
    turn: TurnView,
    id: Seq<char>,
    process_id: Option<Seq<char>>,
    command: Seq<char>,
    started: ThreadItemView,
    completed: ThreadItemView,
)
    requires
        !store.closed,
        !store.active,
        !store.wakeup_in_flight,
        store.active_turn_id == Some(turn.id),
        forall|i: int|
            0 <= i < or_tracking_only(store.input_state).terminals.len() ==> !goes_by_any(
                #[trigger] or_tracking_only(store.input_state).terminals[i],
                command_ids(id, process_id),
            ),
        started matches ThreadItemView::CommandExecution {
            id: started_id,
            command: started_command,
            process_id: started_process,
            source,
            ..
        } && started_id == id && started_command == command && started_process == process_id
            && source == CommandExecutionSource::UnifiedExecStartup,
        completed matches ThreadItemView::CommandExecution {
            id: completed_id,
            process_id: completed_process,
            source,
            ..
        } && completed_id == id && completed_process == process_id && is_terminal_source(source),
        forall|i: int|
            0 <= i < command_ids(id, process_id).len() ==> !store.stopped.contains(
                #[trigger] command_ids(id, process_id)[i],
            ),
    ensures
        ({
            let running = store.watched(
                ServerNotificationView::ItemStarted { turn_id: turn.id, item: started },
            ).0;
            let idle = running.notified(ServerNotificationView::TurnCompleted { turn });
            let ended = idle.watched(
                ServerNotificationView::ItemCompleted { turn_id: turn.id, item: completed },
            );
            &&& ended.1.drop_notification
            &&& ended.1.wakeup_text == Some(
                prompt_text(
                    command,
                    completed->status,
                    completed->exit_code,
                    match completed->aggregated_output {
                        Some(output) => output,
                        None => Seq::empty(),
                    },
                ),
            )
        }),
{
    let start = ServerNotificationView::ItemStarted { turn_id: turn.id, item: started };
    let end = ServerNotificationView::ItemCompleted { turn_id: turn.id, item: completed };
    let ids = command_ids(id, process_id);
    assert(notification_ids(start) == ids);
    assert(!store.is_about_stopped(start));
    let running = store.watched(start).0;
    let terminal = TrackedTerminalView {
        call_id: id,
        process_id,
        command,
        turn_id: Some(turn.id),
        turn_completed: false,
        output: Seq::empty(),
    };
    let before = or_tracking_only(store.input_state).terminals;
    let others = |t: TrackedTerminalView| t.call_id != id;
    assert(ids[0] == id && ids.contains(ids[0]));
    assert forall|i: int| 0 <= i < before.len() implies others(#[trigger] before[i]) by {
        if before[i].call_id == id {
            let names = command_ids(before[i].call_id, before[i].process_id);
            assert(names[0] == id && ids.contains(names[0]));
            assert(goes_by_any(before[i], ids));
        }
    }
    lemma_filter_all(before, others);
    assert(running.input_state->0.terminals == before.push(terminal));
    let idle = running.notified(ServerNotificationView::TurnCompleted { turn });
    let done = TrackedTerminalView { turn_completed: true, ..terminal };
    let kept = before.map_values(|t: TrackedTerminalView| with_turn_completed(t, turn.id));
    assert(idle.input_state->0.terminals =~= kept.push(done));
    assert forall|i: int| 0 <= i < kept.len() implies !goes_by_any(#[trigger] kept[i], ids) by {
        assert(!goes_by_any(before[i], ids));
    }
    let names = command_ids(done.call_id, done.process_id);
    assert(names[0] == id && ids.contains(names[0]));
    assert(goes_by_any(done, ids));
    lemma_last_goes_by(kept, done, ids);
    assert(first_terminal(idle.input_state->0.terminals, ids) == Some(done));
    assert(notification_ids(end) == ids);
    assert(idle.stopped == store.stopped);
    assert(!idle.is_about_stopped(end));
    assert(done.output =~= Seq::<char>::empty());
}

/// Where none of the others goes by one of `ids`, the last terminal is the first that does.
proof fn lemma_last_goes_by(
    others: Seq<TrackedTerminalView>,
    last: TrackedTerminalView,
    ids: Seq<Seq<char>>,
)
    requires
        forall|i: int| 0 <= i < others.len() ==> !goes_by_any(#[trigger] others[i], ids),
        goes_by_any(last, ids),
    ensures
        first_terminal(others.push(last), ids) == Some(last),
    decreases others.len(),
{
    if others.len() > 0 {
        assert(!goes_by_any(others[0], ids));
        assert(others.push(last).skip(1) =~= others.skip(1).push(last));
        lemma_last_goes_by(others.skip(1), last, ids);
    }
}

/// Whether an event tells that a background terminal has started or ended.
pub open spec fn starts_or_ends_terminal(event: ThreadBufferedEventView) -> bool {
    match event {
        ThreadBufferedEventView::Notification(notification) => match notification {
            ServerNotificationView::ItemStarted { item, .. } => is_terminal_item(item),
            ServerNotificationView::ItemCompleted { item, .. } => is_terminal_item(item),
            _ => false,
        },
        _ => false,
    }
}

/// Once all terminals were stopped, no start or end of a terminal is replayed, and whatever else
/// comes in under the call of one that ran is dropped. A process of a terminal that had ended
/// before may be used again at once.
pub proof fn law_stopping_all_leaves_no_terminal(
    store: ThreadEventStoreView,
    notification: ServerNotificationView,
)
    ensures
        !store.closed && overlap(
            notification_ids(notification),
            live_ids(store.buffer, store.buffer.len() as int),
        ) ==> store.with_all_stopped().watched(notification).1 == dropped(),
        forall|i: int|
            0 <= i < store.with_all_stopped().snapshotted().events.len()
                ==> !starts_or_ends_terminal(
                #[trigger] store.with_all_stopped().snapshotted().events[i],
            ),
        forall|name: Seq<char>| #[trigger]
            store.with_all_stopped().stopped.contains(name) ==> store.stopped.contains(name)
                || live_ids(store.buffer, store.buffer.len() as int).contains(name),
{
    let next = store.with_all_stopped();
    let live = live_ids(store.buffer, store.buffer.len() as int);
    let named = notification_ids(notification);
    if overlap(named, live) {
        let i = choose|i: int| 0 <= i < named.len() && live.contains(#[trigger] named[i]);
        assert(next.stopped.contains(named[i]));
        assert(next.is_about_stopped(notification));
    }
    let ids = all_ids(store.buffer);
    let keep = |e: ThreadBufferedEventView| !event_matches(e, ids);
    let replayed = |e: ThreadBufferedEventView| next.is_replayed(e);
    lemma_filter_holds(store.buffer, keep);
    assert forall|i: int| 0 <= i < next.snapshotted().events.len() implies !starts_or_ends_terminal(
        #[trigger] next.snapshotted().events[i],
    ) by {
        let event = next.snapshotted().events[i];
        next.buffer.lemma_filter_contains_rev(replayed, event);
        let j = choose|j: int| 0 <= j < next.buffer.len() && next.buffer[j] == event;
        assert(keep(next.buffer[j]));
        store.buffer.lemma_filter_contains_rev(keep, event);
        let k = choose|k: int| 0 <= k < store.buffer.len() && store.buffer[k] == event;
        if starts_or_ends_terminal(event) {
            lemma_all_ids(store.buffer, k);
            let notification = event->Notification_0;
            assert(notification_ids(notification)[0] == notification_stable_ids(notification)[0]);
            assert(ids.contains(notification_stable_ids(notification)[0]));
            assert(overlap(notification_ids(notification), ids));
        }
    }
}

/// The call of a terminal that an event tells of is among all calls.
proof fn lemma_all_ids(buffer: Seq<ThreadBufferedEventView>, k: int)
    requires
        0 <= k < buffer.len(),
        buffer[k] matches ThreadBufferedEventView::Notification(notification) && (
        notification is ItemStarted || notification is ItemCompleted),
    ensures
        forall|i: int|
            0 <= i < notification_stable_ids(buffer[k]->Notification_0).len() ==> all_ids(buffer).contains(
                #[trigger] notification_stable_ids(buffer[k]->Notification_0)[i],
            ),
    decreases buffer.len(),
{
    let rest = buffer.drop_last();
    let named = notification_stable_ids(buffer[k]->Notification_0);
    if k == buffer.len() - 1 {
        lemma_with_ids(all_ids(rest), named);
    } else {
        lemma_all_ids(rest, k);
        if let ThreadBufferedEventView::Notification(last) = buffer.last() {
            lemma_with_ids(all_ids(rest), notification_stable_ids(last));
        }
        assert(rest[k] == buffer[k]);
    }
}

/// Adding names keeps those that are there, and adds them all.
proof fn lemma_with_ids(ids: Seq<Seq<char>>, more: Seq<Seq<char>>)
    ensures
        forall|id: Seq<char>| ids.contains(id) ==> #[trigger] with_ids(ids, more).contains(id),
        forall|i: int| 0 <= i < more.len() ==> with_ids(ids, more).contains(#[trigger] more[i]),
    decreases more.len(),
{
    if more.len() > 0 {
        let before = with_ids(ids, more.drop_last());
        let next = with_ids(ids, more);
        lemma_with_ids(ids, more.drop_last());
        assert forall|id: Seq<char>| before.contains(id) implies #[trigger] next.contains(id) by {
            let j = choose|j: int| 0 <= j < before.len() && before[j] == id;
            assert(next[j] == id);
        }
        assert(next.contains(more.last())) by {
            if !before.contains(more.last()) {
                assert(next[before.len() as int] == more.last());
            }
        }
        assert forall|i: int| 0 <= i < more.len() implies next.contains(#[trigger] more[i]) by {
            if i < more.len() - 1 {
                assert(more.drop_last()[i] == more[i]);
                assert(before.contains(more[i]));
            }
        }
    }
}

} // verus!
