//! What a store that is not on screen makes of notices of background terminals and of patches.
use crate::collections::lemma_filter_same;
use crate::input_state::{
    completion_of, first_terminal, goes_by, InactiveBackgroundTerminalCompletionView,
    ThreadInputStateView, TrackedTerminalView,
};
use crate::protocol::{
    CommandExecutionSource, FileUpdateChangeView, ServerNotificationView, ThreadBufferedEventView,
    ThreadItemView, TurnView,
};
use crate::terminal_ids::{
    command_ids, event_matches, is_late, notification_ids, notification_reusable_ids,
    notification_stable_ids,
};
use crate::thread_events::{
    all_ids, ends_terminal, event_changes, live_ids, newest_event_changes, newest_item_changes,
    newest_turn_changes, or_tracking_only, related_ids, starts_live_terminal, with_ids,
    without_terminals_named, ThreadEventStoreView,
};
use vstd::prelude::*;

verus! {

/// A notification is about a stopped terminal where one of its names was stopped.
pub proof fn law_stopped_name_is_recognised(
    store: ThreadEventStoreView,
    notification: ServerNotificationView,
    name: Seq<char>,
)
    ensures
        notification_ids(notification).contains(name) && store.stopped.contains(name)
            ==> store.is_about_stopped(notification),
        (forall|id: Seq<char>|
            store.stopped.contains(id) ==> !#[trigger] notification_ids(notification).contains(id))
            ==> !store.is_about_stopped(notification),
{
    let names = notification_ids(notification);
    if names.contains(name) && store.stopped.contains(name) {
        let i = choose|i: int| 0 <= i < names.len() && names[i] == name;
        assert(store.stopped.contains(names[i]));
    }
    if store.is_about_stopped(notification) {
        let i = choose|i: int| 0 <= i < names.len() && store.stopped.contains(#[trigger] names[i]);
        assert(names.contains(names[i]));
    }
}

/// On a closed thread a notification changes nothing here and is dropped where it comes too late. On
/// an open one, what is about a stopped terminal is dropped; the end of it frees its process and
/// takes it off the list. While the thread is on screen, all else is passed on as it is.
pub proof fn law_notice_is_dropped_or_passed_on(
    store: ThreadEventStoreView,
    notification: ServerNotificationView,
)
    ensures
        store.closed ==> {
            &&& store.watched(notification).0 == store
            &&& store.watched(notification).1.wakeup_text is None
            &&& store.watched(notification).1.drop_notification == is_late(notification)
        },
        !store.closed && store.is_about_stopped(notification) ==> {
            &&& store.watched(notification).1.wakeup_text is None
            &&& store.watched(notification).1.drop_notification
            &&& !(notification is ItemCompleted) ==> store.watched(notification).0 == store
            &&& notification is ItemCompleted ==> store.watched(notification).0
                == (ThreadEventStoreView {
                stopped: store.stopped.difference(
                    notification_reusable_ids(notification).to_set(),
                ),
                input_state: match store.input_state {
                    Some(state) => Some(
                        without_terminals_named(state, notification_ids(notification)),
                    ),
                    None => None,
                },
                ..store
            })
        },
        !store.closed && !store.is_about_stopped(notification) && store.active ==> {
            &&& store.watched(notification).0 == store
            &&& store.watched(notification).1.wakeup_text is None
            &&& !store.watched(notification).1.drop_notification
        },
        !store.is_about_stopped(notification) || !(notification is ItemCompleted)
            ==> store.stopped_taken(notification) == store,
        store.is_about_stopped(notification) && notification is ItemCompleted
            ==> store.stopped_taken(notification) == (ThreadEventStoreView {
            stopped: store.stopped.difference(notification_reusable_ids(notification).to_set()),
            input_state: match store.input_state {
                Some(state) => Some(without_terminals_named(state, notification_ids(notification))),
                None => None,
            },
            ..store
        }),
{
}

/// A terminal that starts while its thread is not on screen is tracked with its call, its process,
/// its command and its turn, and the notice is kept. Only a start counts, not an interaction.
pub proof fn law_start_is_tracked_off_screen(
    store: ThreadEventStoreView,
    turn_id: Seq<char>,
    item: ThreadItemView,
)
    requires
        !store.closed,
        !store.active,
        !store.is_about_stopped(ServerNotificationView::ItemStarted { turn_id, item }),
    ensures
        ({
            let (next, result) = store.watched(
                ServerNotificationView::ItemStarted { turn_id, item },
            );
            &&& result.wakeup_text is None
            &&& !result.drop_notification
            &&& match item {
                ThreadItemView::CommandExecution { id, command, process_id, source, .. } => if source
                    == CommandExecutionSource::UnifiedExecStartup {
                    next == (ThreadEventStoreView {
                        input_state: Some(
                            (match store.input_state {
                                Some(state) => state,
                                None => ThreadInputStateView::tracking_only(),
                            }).terminal_started(id, process_id, command, Some(turn_id)),
                        ),
                        ..store
                    })
                } else {
                    next == store
                },
                _ => next == store,
            }
        }),
{
}

/// Output that comes while a thread is not on screen is kept with its terminal, and the notice is
/// kept too.
pub proof fn law_output_is_tracked_off_screen(
    store: ThreadEventStoreView,
    turn_id: Seq<char>,
    item_id: Seq<char>,
    delta: Seq<char>,
)
    requires
        !store.closed,
        !store.active,
        !store.is_about_stopped(
            ServerNotificationView::CommandExecutionOutputDelta { turn_id, item_id, delta },
        ),
    ensures
        ({
            let (next, result) = store.watched(
                ServerNotificationView::CommandExecutionOutputDelta { turn_id, item_id, delta },
            );
            &&& result.wakeup_text is None
            &&& !result.drop_notification
            &&& next == (ThreadEventStoreView {
                input_state: match store.input_state {
                    Some(state) => Some(state.terminal_output(item_id, delta)),
                    None => None,
                },
                ..store
            })
        }),
{
}

/// A terminal that is tracked and ends off screen is tracked no longer. Where its end is news, the
/// prompt is offered to the agent, nothing that was kept of the terminal stays and the notice is
/// dropped; where it is not, the notice is kept. The end of what is not tracked is kept, and so is
/// every other notification.
pub proof fn law_end_is_reported_off_screen(
    store: ThreadEventStoreView,
    notification: ServerNotificationView,
)
    requires
        !store.closed,
        !store.active,
        !store.is_about_stopped(notification),
        !(notification is ItemStarted),
        !(notification is CommandExecutionOutputDelta),
    ensures
        ({
            let (next, result) = store.watched(notification);
            match ended_terminal(store.input_state, notification) {
                Some((terminal, item)) => {
                    let ids = command_ids(item->CommandExecution_id, item->process_id);
                    let rest = ThreadEventStoreView {
                        input_state: Some(store.input_state->0.without_terminals_by(ids)),
                        ..store
                    };
                    match completion_of(
                        terminal,
                        item->status,
                        item->exit_code,
                        match item->aggregated_output {
                            Some(output) => output,
                            None => Seq::empty(),
                        },
                        Some(notification->ItemCompleted_turn_id),
                        store.active_turn_id,
                    ) {
                        InactiveBackgroundTerminalCompletionView::Wakeup(text) => {
                            let (offered, start) = rest.wakeup_offered(text);
                            &&& result.wakeup_text == start
                            &&& result.drop_notification
                            &&& next == (ThreadEventStoreView {
                                buffer: store.buffer.filter(
                                    |event: ThreadBufferedEventView| !event_matches(event, ids),
                                ),
                                ..offered
                            })
                        },
                        InactiveBackgroundTerminalCompletionView::Handled => {
                            &&& result.wakeup_text is None
                            &&& !result.drop_notification
                            &&& next == rest
                        },
                    }
                },
                None => next == store && result.wakeup_text is None && !result.drop_notification,
            }
        }),
{
}

/// The tracked terminal that a notification tells the end of, and the item that does so.
pub open spec fn ended_terminal(
    input: Option<ThreadInputStateView>,
    notification: ServerNotificationView,
) -> Option<(TrackedTerminalView, ThreadItemView)> {
    match (notification, input) {
        (ServerNotificationView::ItemCompleted { item, .. }, Some(state)) => match item {
            ThreadItemView::CommandExecution { id, process_id, source, .. } => if source
                == CommandExecutionSource::UnifiedExecStartup || source
                == CommandExecutionSource::UnifiedExecInteraction {
                match first_terminal(state.terminals, command_ids(id, process_id)) {
                    Some(terminal) => Some((terminal, item)),
                    None => None,
                }
            } else {
                None
            },
            _ => None,
        },
        _ => None,
    }
}

/// The input that is handed over with a thread: what was kept, with the prompts that wait behind
/// those of the input, and with a turn about to start where a wakeup is on its way. Where nothing
/// was kept and nothing waits, there is none.
pub proof fn law_input_is_handed_over(store: ThreadEventStoreView)
    ensures
        store.snapshotted().input_state == (if store.wakeups.len() == 0
            && !store.wakeup_in_flight {
            store.input_state
        } else {
            let kept = match store.input_state {
                Some(state) => state,
                None => ThreadInputStateView::tracking_only(),
            };
            Some(
                ThreadInputStateView {
                    queued_completion_prompts: kept.queued_completion_prompts + store.wakeups,
                    user_turn_pending_start: kept.user_turn_pending_start
                        || store.wakeup_in_flight,
                    ..kept
                },
            )
        }),
{
    let kept = or_tracking_only(store.input_state);
    if store.wakeups.len() == 0 {
        assert(kept.queued_completion_prompts + store.wakeups =~= kept.queued_completion_prompts);
    }
}

/// Whether an item tells the changes of a patch.
pub open spec fn tells_changes(
    item: ThreadItemView,
    item_id: Seq<char>,
    changes: Seq<FileUpdateChangeView>,
) -> bool {
    item matches ThreadItemView::FileChange { id, changes: told, .. } && id == item_id && told
        == changes
}

/// Whether an event tells the changes of a patch on a turn; where no turn is given, any will do.
pub open spec fn event_tells_changes(
    event: ThreadBufferedEventView,
    turn_id: Seq<char>,
    item_id: Seq<char>,
    changes: Seq<FileUpdateChangeView>,
) -> bool {
    event matches ThreadBufferedEventView::Notification(notification) && match notification {
        ServerNotificationView::ItemStarted { turn_id: told_on, item } => (turn_id.len() == 0
            || told_on == turn_id) && tells_changes(item, item_id, changes),
        ServerNotificationView::ItemCompleted { turn_id: told_on, item } => (turn_id.len() == 0
            || told_on == turn_id) && tells_changes(item, item_id, changes),
        _ => false,
    }
}

/// The changes of a patch are those that the last event about it tells. Where no event does, they
/// are those of the turns.
pub proof fn law_changes_are_those_told_last(
    store: ThreadEventStoreView,
    turn_id: Seq<char>,
    item_id: Seq<char>,
    changes: Seq<FileUpdateChangeView>,
    last: int,
)
    ensures
        0 <= last < store.buffer.len() && event_tells_changes(
            store.buffer[last],
            turn_id,
            item_id,
            changes,
        ) && (forall|j: int, other: Seq<FileUpdateChangeView>|
            last < j < store.buffer.len() ==> !#[trigger] event_tells_changes(
                store.buffer[j],
                turn_id,
                item_id,
                other,
            )) ==> store.file_changes(turn_id, item_id) == Some(changes),
        (forall|j: int, other: Seq<FileUpdateChangeView>|
            0 <= j < store.buffer.len() ==> !#[trigger] event_tells_changes(
                store.buffer[j],
                turn_id,
                item_id,
                other,
            )) ==> store.file_changes(turn_id, item_id) == newest_turn_changes(
            store.turns,
            turn_id,
            item_id,
        ),
{
    if 0 <= last < store.buffer.len() && event_tells_changes(
        store.buffer[last],
        turn_id,
        item_id,
        changes,
    ) && (forall|j: int, other: Seq<FileUpdateChangeView>|
        last < j < store.buffer.len() ==> !#[trigger] event_tells_changes(
            store.buffer[j],
            turn_id,
            item_id,
            other,
        )) {
        lemma_newest_event(store.buffer, turn_id, item_id, changes, last);
    }
    if forall|j: int, other: Seq<FileUpdateChangeView>|
        0 <= j < store.buffer.len() ==> !#[trigger] event_tells_changes(
            store.buffer[j],
            turn_id,
            item_id,
            other,
        ) {
        lemma_no_event(store.buffer, turn_id, item_id);
    }
}

proof fn lemma_event(
    event: ThreadBufferedEventView,
    turn_id: Seq<char>,
    item_id: Seq<char>,
)
    ensures
        event_changes(event, turn_id, item_id) matches Some(changes) ==> event_tells_changes(
            event,
            turn_id,
            item_id,
            changes,
        ),
        forall|changes: Seq<FileUpdateChangeView>| #[trigger]
            event_tells_changes(event, turn_id, item_id, changes) ==> event_changes(
                event,
                turn_id,
                item_id,
            ) == Some(changes),
{
}

proof fn lemma_newest_event(
    buffer: Seq<ThreadBufferedEventView>,
    turn_id: Seq<char>,
    item_id: Seq<char>,
    changes: Seq<FileUpdateChangeView>,
    last: int,
)
    requires
        0 <= last < buffer.len(),
        event_tells_changes(buffer[last], turn_id, item_id, changes),
        forall|j: int, other: Seq<FileUpdateChangeView>|
            last < j < buffer.len() ==> !#[trigger] event_tells_changes(
                buffer[j],
                turn_id,
                item_id,
                other,
            ),
    ensures
        newest_event_changes(buffer, turn_id, item_id) == Some(changes),
    decreases buffer.len(),
{
    let end = buffer.len() - 1;
    lemma_event(buffer[end], turn_id, item_id);
    if last < end {
        if let Some(other) = event_changes(buffer.last(), turn_id, item_id) {
            assert(event_tells_changes(buffer[end], turn_id, item_id, other));
        }
        let rest = buffer.drop_last();
        assert forall|j: int, other: Seq<FileUpdateChangeView>|
            last < j < rest.len() implies !#[trigger] event_tells_changes(
            rest[j],
            turn_id,
            item_id,
            other,
        ) by {
            assert(rest[j] == buffer[j]);
            assert(!event_tells_changes(buffer[j], turn_id, item_id, other));
        }
        lemma_newest_event(rest, turn_id, item_id, changes, last);
    }
}

proof fn lemma_no_event(
    buffer: Seq<ThreadBufferedEventView>,
    turn_id: Seq<char>,
    item_id: Seq<char>,
)
    requires
        forall|j: int, other: Seq<FileUpdateChangeView>|
            0 <= j < buffer.len() ==> !#[trigger] event_tells_changes(
                buffer[j],
                turn_id,
                item_id,
                other,
            ),
    ensures
        newest_event_changes(buffer, turn_id, item_id) is None,
    decreases buffer.len(),
{
    if buffer.len() > 0 {
        let end = buffer.len() - 1;
        lemma_event(buffer[end], turn_id, item_id);
        if let Some(other) = event_changes(buffer.last(), turn_id, item_id) {
            assert(event_tells_changes(buffer[end], turn_id, item_id, other));
        }
        let rest = buffer.drop_last();
        assert forall|j: int, other: Seq<FileUpdateChangeView>|
            0 <= j < rest.len() implies !#[trigger] event_tells_changes(
            rest[j],
            turn_id,
            item_id,
            other,
        ) by {
            assert(rest[j] == buffer[j]);
            assert(!event_tells_changes(buffer[j], turn_id, item_id, other));
        }
        lemma_no_event(rest, turn_id, item_id);
    }
}

/// In the turns, the last item of the last turn that tells of the patch counts; a turn that is not
/// the given one is passed over, where one is given.
pub proof fn law_turns_tell_changes_from_the_last(
    turns: Seq<TurnView>,
    turn: TurnView,
    items: Seq<ThreadItemView>,
    item: ThreadItemView,
    turn_id: Seq<char>,
    item_id: Seq<char>,
    changes: Seq<FileUpdateChangeView>,
)
    ensures
        newest_turn_changes(Seq::empty(), turn_id, item_id) is None,
        turn_id.len() > 0 && turn.id != turn_id ==> newest_turn_changes(
            turns.push(turn),
            turn_id,
            item_id,
        ) == newest_turn_changes(turns, turn_id, item_id),
        turn_id.len() == 0 || turn.id == turn_id ==> newest_turn_changes(
            turns.push(turn),
            turn_id,
            item_id,
        ) == match newest_item_changes(turn.items, item_id) {
            Some(changes) => Some(changes),
            None => newest_turn_changes(turns, turn_id, item_id),
        },
        newest_item_changes(Seq::empty(), item_id) is None,
        tells_changes(item, item_id, changes) ==> newest_item_changes(items.push(item), item_id)
            == Some(changes),
        !(item matches ThreadItemView::FileChange { id, .. } && id == item_id)
            ==> newest_item_changes(items.push(item), item_id) == newest_item_changes(
            items,
            item_id,
        ),
{
    assert(turns.push(turn).drop_last() =~= turns);
    assert(items.push(item).drop_last() =~= items);
}

/// The names that belong to a terminal are the given one and, event by event, the calls that are
/// named together with one of them.
pub proof fn law_names_that_belong_together(
    buffer: Seq<ThreadBufferedEventView>,
    event: ThreadBufferedEventView,
    first: Seq<char>,
)
    ensures
        related_ids(Seq::empty(), first) == seq![first],
        ({
            let known = related_ids(buffer, first);
            let more = related_ids(buffer.push(event), first);
            &&& event_matches(event, known) ==> more == with_ids(
                known,
                notification_stable_ids(event->Notification_0),
            )
            &&& !event_matches(event, known) ==> more == known
        }),
{
    assert(buffer.push(event).drop_last() =~= buffer);
}

/// All terminals that the events tell of are those that an event starts or ends, each by its call
/// and once.
pub proof fn law_all_terminals_are_those_started_or_ended(
    buffer: Seq<ThreadBufferedEventView>,
    event: ThreadBufferedEventView,
)
    ensures
        all_ids(Seq::empty()).len() == 0,
        event is Notification && (event->Notification_0 is ItemStarted
            || event->Notification_0 is ItemCompleted) ==> all_ids(buffer.push(event)) == with_ids(
            all_ids(buffer),
            notification_stable_ids(event->Notification_0),
        ),
        !(event is Notification && (event->Notification_0 is ItemStarted
            || event->Notification_0 is ItemCompleted)) ==> all_ids(buffer.push(event)) == all_ids(
            buffer,
        ),
{
    assert(buffer.push(event).drop_last() =~= buffer);
}

/// A terminal runs where an event has started it and no later one has ended it under one of its
/// names.
pub proof fn law_terminal_runs_until_it_ends(
    buffer: Seq<ThreadBufferedEventView>,
    i: int,
    n: int,
    name: Seq<char>,
)
    requires
        0 <= i < buffer.len(),
        0 <= n < buffer.len(),
    ensures
        starts_live_terminal(buffer, i) <==> {
            &&& buffer[i] matches ThreadBufferedEventView::Notification(notification)
            &&& notification matches ServerNotificationView::ItemStarted { item, .. }
            &&& item is CommandExecution
            &&& (item->source == CommandExecutionSource::UnifiedExecStartup || item->source
                == CommandExecutionSource::UnifiedExecInteraction)
            &&& forall|j: int|
                i < j < buffer.len() ==> !(#[trigger] ends_by_name(buffer[j], notification))
        },
        live_ids(buffer, 0).len() == 0,
        starts_live_terminal(buffer, n) ==> live_ids(buffer, n + 1) == with_ids(
            live_ids(buffer, n),
            notification_stable_ids(buffer[n]->Notification_0),
        ),
        !starts_live_terminal(buffer, n) ==> live_ids(buffer, n + 1) == live_ids(buffer, n),
{
    if let ThreadBufferedEventView::Notification(notification) = buffer[i] {
        let ids = notification_ids(notification);
        assert forall|j: int| i < j < buffer.len() implies ends_terminal(#[trigger] buffer[j], ids)
            == ends_by_name(buffer[j], notification) by {
            lemma_ends(buffer[j], notification);
        }
        if starts_live_terminal(buffer, i) {
            assert forall|j: int| i < j < buffer.len() implies !(#[trigger] ends_by_name(
                buffer[j],
                notification,
            )) by {
                assert(!ends_terminal(buffer[j], ids));
            }
        }
    }
}

proof fn lemma_ends(event: ThreadBufferedEventView, started: ServerNotificationView)
    ensures
        ends_terminal(event, notification_ids(started)) == ends_by_name(event, started),
{
}

/// Whether an event ends a terminal that `started` names.
pub open spec fn ends_by_name(
    event: ThreadBufferedEventView,
    started: ServerNotificationView,
) -> bool {
    event matches ThreadBufferedEventView::Notification(ended) && ended is ItemCompleted && exists|
        k: int,
    |
        0 <= k < notification_ids(started).len() && notification_ids(ended).contains(
            #[trigger] notification_ids(started)[k],
        )
}

/// Names are added behind those that are there, in their order and each once.
pub proof fn law_names_are_added_once(ids: Seq<Seq<char>>, more: Seq<Seq<char>>, id: Seq<char>)
    ensures
        with_ids(ids, Seq::empty()) == ids,
        with_ids(ids, more).contains(id) ==> with_ids(ids, more.push(id)) == with_ids(ids, more),
        !with_ids(ids, more).contains(id) ==> with_ids(ids, more.push(id)) == with_ids(
            ids,
            more,
        ).push(id),
{
    assert(more.push(id).drop_last() =~= more);
}

/// Once all terminals were stopped, nothing that was kept of any of them stays and none is tracked;
/// the calls of those that ran count as stopped. Nothing else changes.
pub proof fn law_stopping_all_drops_all(store: ThreadEventStoreView, name: Seq<char>)
    ensures
        ({
            let next = store.with_all_stopped();
            &&& next.buffer == store.buffer.filter(
                |event: ThreadBufferedEventView| !event_matches(event, all_ids(store.buffer)),
            )
            &&& next.stopped.contains(name) <==> store.stopped.contains(name) || live_ids(
                store.buffer,
                store.buffer.len() as int,
            ).contains(name)
            &&& next.input_state == match store.input_state {
                Some(state) => Some(ThreadInputStateView { terminals: Seq::empty(), ..state }),
                None => None,
            }
            &&& next == (ThreadEventStoreView {
                buffer: next.buffer,
                stopped: next.stopped,
                input_state: next.input_state,
                ..store
            })
        }),
{
}

/// Taking terminals off the list one name after the other leaves those that go by none of them.
pub proof fn law_terminals_are_taken_off_name_by_name(
    state: ThreadInputStateView,
    ids: Seq<Seq<char>>,
    id: Seq<char>,
)
    ensures
        without_terminals_named(state, Seq::empty()) == state,
        without_terminals_named(state, ids.push(id)) == (ThreadInputStateView {
            terminals: without_terminals_named(state, ids).terminals.filter(
                |t: TrackedTerminalView| t.call_id != id && t.process_id != Some(id),
            ),
            ..without_terminals_named(state, ids)
        }),
{
    assert(ids.push(id).drop_last() =~= ids);
    let before = without_terminals_named(state, ids);
    lemma_filter_same(
        before.terminals,
        |t: TrackedTerminalView| !goes_by(t, id),
        |t: TrackedTerminalView| t.call_id != id && t.process_id != Some(id),
    );
}

} // verus!
