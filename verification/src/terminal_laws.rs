//! Which background terminals run, what they go by, and what follows when one ends.
use crate::background_terminal_wakeup::prompt_text;
use crate::collections::{lemma_filter_same, overlap};
use crate::input_state::{
    completion_of, first_terminal, goes_by, goes_by_any, summary_of,
    BackgroundTerminalActivitySummaryView, InactiveBackgroundTerminalCompletionView,
    ThreadInputStateView, TrackedTerminalView,
};
use crate::protocol::{
    CommandExecutionSource, CommandExecutionStatus, NoticeKind, ServerNotificationView,
    ThreadBufferedEventView, ThreadItemView,
};
use crate::terminal_ids::{
    command_ids, event_matches, is_late, is_terminal_event, is_terminal_item,
    is_terminal_notification, is_terminal_source, notification_ids, notification_reusable_ids,
    notification_stable_ids, with_id,
};
use crate::thread_id::ThreadId;
use vstd::prelude::*;

verus! {

/// A terminal that can outlive its turn goes by its call and, where it has one, by its process. The
/// call stays its own; the process may be used again. A notice of output names the call, and
/// nothing else is about such a terminal.
pub proof fn law_terminal_goes_by_its_call_and_its_process(
    turn_id: Seq<char>,
    item: ThreadItemView,
    notification: ServerNotificationView,
)
    requires
        notification == (ServerNotificationView::ItemStarted { turn_id, item }) || notification
            == (ServerNotificationView::ItemCompleted { turn_id, item }),
    ensures
        match item {
            ThreadItemView::CommandExecution { id, process_id, source, .. } => if source
                == CommandExecutionSource::UnifiedExecStartup || source
                == CommandExecutionSource::UnifiedExecInteraction {
                &&& is_terminal_notification(notification)
                &&& is_terminal_event(ThreadBufferedEventView::Notification(notification))
                &&& notification_stable_ids(notification) == seq![id]
                &&& match process_id {
                    Some(process_id) => {
                        &&& notification_reusable_ids(notification) == seq![process_id]
                        &&& process_id != id ==> notification_ids(notification) == seq![
                            id,
                            process_id,
                        ]
                        &&& process_id == id ==> notification_ids(notification) == seq![id]
                    },
                    None => {
                        &&& notification_reusable_ids(notification).len() == 0
                        &&& notification_ids(notification) == seq![id]
                    },
                }
            } else {
                &&& !is_terminal_notification(notification)
                &&& notification_ids(notification).len() == 0
                &&& notification_stable_ids(notification).len() == 0
                &&& notification_reusable_ids(notification).len() == 0
            },
            _ => {
                &&& !is_terminal_notification(notification)
                &&& notification_ids(notification).len() == 0
                &&& notification_stable_ids(notification).len() == 0
                &&& notification_reusable_ids(notification).len() == 0
            },
        },
{
    if let ThreadItemView::CommandExecution { id, process_id, .. } = item {
        if let Some(process_id) = process_id {
            if process_id == id {
                assert(seq![id][0] == process_id);
                assert(seq![id].contains(process_id));
            } else {
                assert(!seq![id].contains(process_id));
                assert(seq![id].push(process_id) =~= seq![id, process_id]);
            }
        }
    }
}

/// Output is about the terminal with that call; no other notification is about one.
pub proof fn law_other_notifications_name_no_terminal(
    notification: ServerNotificationView,
    event: ThreadBufferedEventView,
)
    ensures
        match notification {
            ServerNotificationView::CommandExecutionOutputDelta { item_id, .. } => {
                &&& is_terminal_notification(notification)
                &&& notification_ids(notification) == seq![item_id]
                &&& notification_stable_ids(notification) == seq![item_id]
                &&& notification_reusable_ids(notification).len() == 0
            },
            ServerNotificationView::ItemStarted { .. } => true,
            ServerNotificationView::ItemCompleted { .. } => true,
            _ => {
                &&& !is_terminal_notification(notification)
                &&& notification_ids(notification).len() == 0
                &&& notification_stable_ids(notification).len() == 0
                &&& notification_reusable_ids(notification).len() == 0
            },
        },
        is_terminal_event(event) <==> event is Notification && is_terminal_notification(
            event->Notification_0,
        ),
{
}

/// An event is about a terminal where it is a notification that names it by one of its names.
pub proof fn law_event_is_about_the_terminal_it_names(
    event: ThreadBufferedEventView,
    ids: Seq<Seq<char>>,
    name: Seq<char>,
)
    ensures
        event is Notification && notification_ids(event->Notification_0).contains(name)
            && ids.contains(name) ==> event_matches(event, ids),
        !(event is Notification) ==> !event_matches(event, ids),
        (forall|id: Seq<char>|
            ids.contains(id) ==> !#[trigger] notification_ids(event->Notification_0).contains(id))
            ==> !event_matches(event, ids),
{
    if event is Notification {
        let names = notification_ids(event->Notification_0);
        if names.contains(name) && ids.contains(name) {
            let i = choose|i: int| 0 <= i < names.len() && names[i] == name;
            assert(ids.contains(names[i]));
        }
        if overlap(names, ids) {
            let i = choose|i: int| 0 <= i < names.len() && ids.contains(#[trigger] names[i]);
            assert(names.contains(names[i]));
        }
    }
}

/// What is said of a closed thread itself still counts: that it is closed, and its name, use, goal
/// and place in the archive. Everything else comes too late.
pub proof fn law_what_comes_too_late(notification: ServerNotificationView)
    ensures
        !is_late(notification) <==> notification is ThreadClosed || (
        notification matches ServerNotificationView::Notice { kind, .. } && (kind
            == NoticeKind::ThreadNameUpdated || kind == NoticeKind::ThreadTokenUsageUpdated || kind
            == NoticeKind::ThreadGoalUpdated || kind == NoticeKind::ThreadGoalCleared || kind
            == NoticeKind::ThreadArchived || kind == NoticeKind::ThreadUnarchived)),
{
}

/// A name is put at the end of a list once.
pub proof fn law_name_is_listed_once(ids: Seq<Seq<char>>, id: Seq<char>)
    ensures
        with_id(ids, id).contains(id),
        ids.is_prefix_of(with_id(ids, id)),
        ids.contains(id) ==> with_id(ids, id) == ids,
        !ids.contains(id) ==> with_id(ids, id) == ids.push(id),
        ids.no_duplicates() ==> with_id(ids, id).no_duplicates(),
{
    let next = with_id(ids, id);
    if !ids.contains(id) {
        assert(next[ids.len() as int] == id);
    }
    assert(next.subrange(0, ids.len() as int) =~= ids);
}

/// A tracked terminal is found by its call or by its process, and the first one is taken.
pub proof fn law_terminal_is_found_by_its_names(
    terminals: Seq<TrackedTerminalView>,
    ids: Seq<Seq<char>>,
    terminal: TrackedTerminalView,
    id: Seq<char>,
)
    ensures
        goes_by(terminal, id) <==> terminal.call_id == id || terminal.process_id == Some(id),
        goes_by_any(terminal, ids) <==> ids.contains(terminal.call_id) || (
        terminal.process_id is Some && ids.contains(terminal.process_id->0)),
        match first_terminal(terminals, ids) {
            Some(found) => exists|i: int|
                {
                    &&& 0 <= i < terminals.len()
                    &&& #[trigger] terminals[i] == found
                    &&& is_named(found, ids)
                    &&& forall|j: int| 0 <= j < i ==> !is_named(#[trigger] terminals[j], ids)
                },
            None => forall|j: int|
                0 <= j < terminals.len() ==> !is_named(#[trigger] terminals[j], ids),
        },
    decreases terminals.len(),
{
    lemma_names(terminal, ids);
    if terminals.len() > 0 {
        lemma_names(terminals[0], ids);
        if !goes_by_any(terminals[0], ids) {
            let rest = terminals.skip(1);
            law_terminal_is_found_by_its_names(rest, ids, terminal, id);
            match first_terminal(rest, ids) {
                Some(found) => {
                    let i = choose|i: int|
                        {
                            &&& 0 <= i < rest.len()
                            &&& #[trigger] rest[i] == found
                            &&& is_named(found, ids)
                            &&& forall|j: int| 0 <= j < i ==> !is_named(#[trigger] rest[j], ids)
                        };
                    assert(terminals[i + 1] == found);
                    assert forall|j: int| 0 <= j < i + 1 implies !is_named(
                        #[trigger] terminals[j],
                        ids,
                    ) by {
                        if j > 0 {
                            assert(terminals[j] == rest[j - 1]);
                        }
                    }
                },
                None => {
                    assert forall|j: int| 0 <= j < terminals.len() implies !is_named(
                        #[trigger] terminals[j],
                        ids,
                    ) by {
                        if j > 0 {
                            assert(terminals[j] == rest[j - 1]);
                        }
                    }
                },
            }
        }
    }
}

/// Whether a terminal has one of the names.
pub open spec fn is_named(terminal: TrackedTerminalView, ids: Seq<Seq<char>>) -> bool {
    ids.contains(terminal.call_id) || (terminal.process_id is Some && ids.contains(
        terminal.process_id->0,
    ))
}

proof fn lemma_names(terminal: TrackedTerminalView, ids: Seq<Seq<char>>)
    ensures
        goes_by_any(terminal, ids) == is_named(terminal, ids),
{
    let names = command_ids(terminal.call_id, terminal.process_id);
    assert(names[0] == terminal.call_id);
    if let Some(process_id) = terminal.process_id {
        if process_id == terminal.call_id {
            assert(seq![terminal.call_id][0] == process_id);
            assert(seq![terminal.call_id].contains(process_id));
        } else {
            assert(!seq![terminal.call_id].contains(process_id));
            assert(names[1] == process_id);
        }
    }
    if overlap(names, ids) {
        let i = choose|i: int| 0 <= i < names.len() && ids.contains(#[trigger] names[i]);
        assert(i == 0 || i == 1);
    }
    if is_named(terminal, ids) {
        if ids.contains(terminal.call_id) {
            assert(ids.contains(names[0]));
        } else {
            assert(ids.contains(names[1]));
        }
    }
}

/// A terminal that starts is tracked as the last one, with its call, its process, its command and
/// its turn, without output and with its turn still running; an earlier one of the same call gives
/// way to it. Nothing else of the input changes.
pub proof fn law_started_terminal_is_tracked(
    state: ThreadInputStateView,
    call_id: Seq<char>,
    process_id: Option<Seq<char>>,
    command: Seq<char>,
    turn_id: Option<Seq<char>>,
)
    ensures
        ({
            let next = state.terminal_started(call_id, process_id, command, turn_id);
            &&& next.terminals.len() > 0
            &&& next.terminals.last().call_id == call_id
            &&& next.terminals.last().process_id == process_id
            &&& next.terminals.last().command == command
            &&& next.terminals.last().turn_id == turn_id
            &&& !next.terminals.last().turn_completed
            &&& next.terminals.last().output.len() == 0
            &&& next.terminals.drop_last() == state.terminals.filter(
                |t: TrackedTerminalView| t.call_id != call_id,
            )
            &&& next.composer == state.composer
            &&& next.queued_completion_prompts == state.queued_completion_prompts
            &&& next.user_turn_pending_start == state.user_turn_pending_start
        }),
{
    let next = state.terminal_started(call_id, process_id, command, turn_id);
    assert(next.terminals.drop_last() =~= state.terminals.filter(
        |t: TrackedTerminalView| t.call_id != call_id,
    ));
}

/// Output goes to the terminal of that call, behind what it has put out before; the end of a turn is
/// noted at the terminals of that turn. No other terminal changes, and none comes or goes.
pub proof fn law_output_and_turn_end_reach_their_terminals(
    state: ThreadInputStateView,
    call_id: Seq<char>,
    chunk: Seq<char>,
    turn_id: Seq<char>,
    i: int,
)
    ensures
        state.terminal_output(call_id, chunk).terminals.len() == state.terminals.len(),
        state.turn_completed(turn_id).terminals.len() == state.terminals.len(),
        0 <= i < state.terminals.len() ==> {
            let before = state.terminals[i];
            let after = state.terminal_output(call_id, chunk).terminals[i];
            &&& before.call_id != call_id ==> after == before
            &&& before.call_id == call_id ==> after == (TrackedTerminalView {
                output: before.output + chunk,
                ..before
            })
        },
        0 <= i < state.terminals.len() ==> {
            let before = state.terminals[i];
            let after = state.turn_completed(turn_id).terminals[i];
            &&& before.turn_id != Some(turn_id) ==> after == before
            &&& before.turn_id == Some(turn_id) ==> after == (TrackedTerminalView {
                turn_completed: true,
                ..before
            })
        },
        state.terminal_output(call_id, chunk) == (ThreadInputStateView {
            terminals: state.terminal_output(call_id, chunk).terminals,
            ..state
        }),
        state.turn_completed(turn_id) == (ThreadInputStateView {
            terminals: state.turn_completed(turn_id).terminals,
            ..state
        }),
{
}

/// Leaving terminals out leaves out those that go by the given names, or all of them, and changes
/// nothing else.
pub proof fn law_terminals_are_left_out_by_name(
    state: ThreadInputStateView,
    ids: Seq<Seq<char>>,
    id: Seq<char>,
    prompts: Seq<Seq<char>>,
    pending: bool,
)
    ensures
        state.without_terminals_by(ids) == (ThreadInputStateView {
            terminals: state.terminals.filter(|t: TrackedTerminalView| !is_named(t, ids)),
            ..state
        }),
        state.without_terminal(id) == (ThreadInputStateView {
            terminals: state.terminals.filter(
                |t: TrackedTerminalView| t.call_id != id && t.process_id != Some(id),
            ),
            ..state
        }),
        state.without_terminals() == (ThreadInputStateView { terminals: Seq::empty(), ..state }),
        state.with_prompts(prompts) == (ThreadInputStateView {
            queued_completion_prompts: state.queued_completion_prompts + prompts,
            ..state
        }),
        state.without_prompts() == (ThreadInputStateView {
            queued_completion_prompts: Seq::empty(),
            ..state
        }),
        state.with_pending_start(pending) == (ThreadInputStateView {
            user_turn_pending_start: pending,
            ..state
        }),
        ThreadInputStateView::tracking_only() == (ThreadInputStateView {
            user_turn_pending_start: false,
            terminals: Seq::empty(),
            queued_completion_prompts: Seq::empty(),
            composer: None,
        }),
{
    assert forall|i: int| 0 <= i < state.terminals.len() implies goes_by_any(
        #[trigger] state.terminals[i],
        ids,
    ) == is_named(state.terminals[i], ids) by {
        lemma_names(state.terminals[i], ids);
    }
    lemma_filter_same(
        state.terminals,
        |t: TrackedTerminalView| !goes_by_any(t, ids),
        |t: TrackedTerminalView| !is_named(t, ids),
    );
    lemma_filter_same(
        state.terminals,
        |t: TrackedTerminalView| !goes_by(t, id),
        |t: TrackedTerminalView| t.call_id != id && t.process_id != Some(id),
    );
}

/// The end of a terminal is news to the agent unless it comes in the very turn that started it,
/// while that turn runs. The prompt tells the command, how it ended, and the output that came with
/// the end, or else what was put out before.
pub proof fn law_end_of_a_terminal_is_news_after_its_turn(
    terminal: TrackedTerminalView,
    status: CommandExecutionStatus,
    exit_code: Option<i32>,
    output: Seq<char>,
    turn_id: Option<Seq<char>>,
    active_turn_id: Option<Seq<char>>,
)
    ensures
        ({
            let completion = completion_of(
                terminal,
                status,
                exit_code,
                output,
                turn_id,
                active_turn_id,
            );
            &&& completion is Handled <==> !terminal.turn_completed && turn_id is Some && turn_id
                == active_turn_id
            &&& completion matches InactiveBackgroundTerminalCompletionView::Wakeup(text) ==> {
                &&& output.len() > 0 ==> text == prompt_text(
                    terminal.command,
                    status,
                    exit_code,
                    output,
                )
                &&& output.len() == 0 ==> text == prompt_text(
                    terminal.command,
                    status,
                    exit_code,
                    terminal.output,
                )
            }
        }),
{
}

/// A terminal is listed with its thread and its command, by its process or, where it has none, by
/// its call.
pub proof fn law_terminal_is_listed_by_its_process(
    thread_id: ThreadId,
    terminal: TrackedTerminalView,
)
    ensures
        ({
            let listed: BackgroundTerminalActivitySummaryView = summary_of(thread_id, terminal);
            &&& listed.thread_id == thread_id
            &&& listed.command_display == terminal.command
            &&& terminal.process_id is Some ==> listed.process_id == terminal.process_id->0
            &&& terminal.process_id is None ==> listed.process_id == terminal.call_id
        }),
{
}

/// The sources that start terminals which can outlive their turn are the two of the unified
/// execution, and no other.
pub proof fn law_terminal_sources(source: CommandExecutionSource, item: ThreadItemView)
    ensures
        is_terminal_source(source) <==> source == CommandExecutionSource::UnifiedExecStartup
            || source == CommandExecutionSource::UnifiedExecInteraction,
        is_terminal_item(item) <==> item is CommandExecution && (item->source
            == CommandExecutionSource::UnifiedExecStartup || item->source
            == CommandExecutionSource::UnifiedExecInteraction),
{
}

} // verus!
