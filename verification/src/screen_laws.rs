//! What happens when threads are shown, left and shown again.
use crate::active_thread::{
    event_shown, prompts_offered, tells_end, turns_shown, ActiveEventStepView, CwdOverrideView,
    FailoverView,
};
use crate::agent_navigation::{closed_in, entry_of, upserted, AgentEntryView};
use crate::app_state::{AppView, ThreadChannelView};
use crate::collections::lemma_filter_same;
use crate::effects::{
    AppEffectView, PendingSubagentCompletionWakeupView, ReplayKind, SessionDisplay,
};
use crate::input_state::{first_terminal, ThreadInputStateView};
use crate::protocol::{
    NoticeKind, ServerNotificationView, ThreadBufferedEventView, ThreadItemView,
    ThreadSessionStateView, TurnView,
};
use crate::replay::{
    event_replayed, events_replayed, has_question, is_notice, is_question, item_receivers,
    receiver_texts, receivers_of, replay_closed, RunningTerminalView, StopStepView,
};
use crate::text::trimmed;
use crate::thread_events::{related_ids, ThreadEventSnapshotView, ThreadEventStoreView};
use crate::thread_id::{id_text, uuid_of, ThreadId};
use crate::wakeups::{subagent_prompt, tellings, waits_to_be_told, wakeup_turn};
use vstd::prelude::*;

verus! {

/// A thread is put on screen where none is: its events are read from then on, through the receiver
/// that its channel had, and its store knows that it is shown. Where one is on screen already,
/// nothing happens.
pub proof fn law_thread_is_put_on_screen(app: AppView, thread_id: ThreadId)
    ensures
        app.active_thread_id is Some ==> app.activated(thread_id).0 == app && app.activated(
            thread_id,
        ).1.len() == 0,
        app.active_thread_id is None ==> {
            let (next, effects) = app.activated(thread_id);
            &&& next.active_thread_id == Some(thread_id)
            &&& next.has_active_receiver == (app.channel_of(thread_id) is Some && app.channel_of(
                thread_id,
            )->0.has_receiver)
            &&& next == (AppView {
                active_thread_id: next.active_thread_id,
                has_active_receiver: next.has_active_receiver,
                channels: next.channels,
                ..app
            })
            &&& next.channels == app.with_thread_active(thread_id, true).with_receiver_taken(
                thread_id,
            ).channels
            &&& effects == seq![next.approvals_listed()]
        },
{
}

/// A thread is marked as shown or not in its store, and its receiver is taken from its channel;
/// nothing else of either changes.
pub proof fn law_marks_of_a_shown_thread(app: AppView, thread_id: ThreadId, active: bool)
    ensures
        match app.channel_of(thread_id) {
            Some(channel) => {
                &&& app.with_thread_active(thread_id, active) == app.with_store(
                    thread_id,
                    ThreadEventStoreView { active, ..channel.store },
                )
                &&& app.with_receiver_taken(thread_id) == app.with_channel(
                    ThreadChannelView { thread_id, has_receiver: false, store: channel.store },
                )
            },
            None => {
                &&& app.with_thread_active(thread_id, active) == app
                &&& app.with_receiver_taken(thread_id) == app
            },
        },
{
}

/// Taking the thread off the screen leaves none there, marks it as not shown, and lists anew who
/// waits.
pub proof fn law_screen_is_cleared(app: AppView)
    ensures
        ({
            let (next, effects) = app.without_active();
            &&& next.active_thread_id is None
            &&& !next.has_active_receiver
            &&& next == (AppView {
                active_thread_id: None,
                has_active_receiver: false,
                channels: match app.active_thread_id {
                    Some(thread_id) => app.with_thread_active(thread_id, false).channels,
                    None => app.channels,
                },
                ..app
            })
            &&& effects == seq![next.approvals_listed()]
        }),
{
}

/// The prompts of a thread that is left are offered to it, the oldest first. Where the user's turn
/// is about to start, they all wait. A prompt that is handed out is started as a command.
pub proof fn law_prompts_are_offered_in_order(
    store: ThreadEventStoreView,
    pending: bool,
    prompts: Seq<Seq<char>>,
    text: Seq<char>,
)
    ensures
        prompts_offered(store, pending, Seq::empty()).0 == store,
        prompts_offered(store, pending, Seq::empty()).1.len() == 0,
        ({
            let (before, ops) = prompts_offered(store, pending, prompts);
            let (next, more) = prompts_offered(store, pending, prompts.push(text));
            let (offered, start) = before.wakeup_offered(text);
            &&& pending ==> next == before.with_wakeup(text) && more == ops
            &&& !pending && start is None ==> next == offered && more == ops
            &&& !pending && start is Some && before.session is Some ==> next == offered && more
                == ops.push(wakeup_turn(before.session->0, text))
            &&& !pending && start is Some && before.session is None ==> next
                == offered.wakeup_put_back(text) && more == ops
        }),
{
    assert(prompts.push(text).drop_last() =~= prompts);
}

/// A thread that is left keeps what the user has written, without the prompts, which are offered to
/// it; a closed one keeps neither prompts nor terminals nor a turn about to start. It is no longer
/// shown, and its receiver goes back to its channel. The commands that its prompts lead to are
/// submitted on it, in their order.
pub proof fn law_thread_is_left_with_its_input(
    app: AppView,
    input: Option<ThreadInputStateView>,
    thread_id: ThreadId,
)
    ensures
        app.active_thread_id is None ==> app.left(input).0 == app && app.left(input).1.len() == 0,
        app.active_thread_id == Some(thread_id) && app.channel_of(thread_id) is None ==> app.left(
            input,
        ).0 == app && app.left(input).1.len() == 0,
        app.active_thread_id == Some(thread_id) && app.channel_of(thread_id) is Some ==> {
            let channel = app.channel_of(thread_id)->0;
            let rested = ThreadEventStoreView {
                active: false,
                input_state: match input {
                    Some(state) => Some(
                        if channel.store.closed {
                            ThreadInputStateView {
                                queued_completion_prompts: Seq::empty(),
                                user_turn_pending_start: false,
                                terminals: Seq::empty(),
                                composer: state.composer,
                            }
                        } else {
                            ThreadInputStateView {
                                queued_completion_prompts: Seq::empty(),
                                ..state
                            }
                        },
                    ),
                    None => None,
                },
                ..channel.store
            };
            let (store, ops) = if input is Some && !channel.store.closed {
                prompts_offered(
                    rested,
                    input->0.user_turn_pending_start,
                    input->0.queued_completion_prompts,
                )
            } else {
                (rested, Seq::empty())
            };
            let (next, effects) = app.left(input);
            &&& next == (AppView {
                has_active_receiver: false,
                ..app.with_channel(
                    ThreadChannelView {
                        thread_id,
                        store,
                        has_receiver: channel.has_receiver || app.has_active_receiver,
                    },
                )
            })
            &&& effects.len() == ops.len()
            &&& forall|i: int|
                0 <= i < ops.len() ==> #[trigger] effects[i] == (AppEffectView::SubmitThreadOp {
                    thread_id,
                    op: ops[i],
                })
        },
{
}

/// A thread whose receiver rests in its channel is shown again with what its store gives back; the
/// receiver is taken, the store knows that it is shown, and the prompts that waited are gone from it.
/// Any other is not.
pub proof fn law_thread_is_shown_again(app: AppView, thread_id: ThreadId)
    ensures
        ({
            let (next, snapshot) = app.replay_activated(thread_id);
            match app.channel_of(thread_id) {
                Some(channel) => if channel.has_receiver {
                    &&& snapshot == Some(channel.store.snapshotted())
                    &&& next == app.with_channel(
                        ThreadChannelView {
                            thread_id,
                            has_receiver: false,
                            store: ThreadEventStoreView {
                                active: true,
                                wakeups: Seq::empty(),
                                ..channel.store
                            },
                        },
                    )
                } else {
                    next == app && snapshot is None
                },
                None => next == app && snapshot is None,
            }
        }),
{
    if let Some(channel) = app.channel_of(thread_id) {
        let shown = ThreadEventStoreView { active: true, ..channel.store };
        let keep = |e: ThreadBufferedEventView| channel.store.is_replayed(e);
        let again = |e: ThreadBufferedEventView| shown.is_replayed(e);
        lemma_filter_same(channel.store.buffer, keep, again);
        assert(shown.snapshotted() =~= channel.store.snapshotted());
    }
}

/// An event of the thread on screen is dropped where it is about a terminal that was stopped there,
/// and the store takes note of that.
pub proof fn law_event_of_a_stopped_terminal_is_dropped(
    app: AppView,
    event: ThreadBufferedEventView,
)
    ensures
        app.drops_event(event) <==> event is Notification && app.active_thread_id is Some
            && app.store_of(app.active_thread_id->0) is Some && app.store_of(
            app.active_thread_id->0,
        )->0.is_about_stopped(event->Notification_0),
        app.drops_event(event) ==> app.stopped_taken(event) == app.with_store(
            app.active_thread_id->0,
            app.store_of(app.active_thread_id->0)->0.stopped_taken(event->Notification_0),
        ),
        !(event is Notification) || app.active_thread_id is None ==> app.stopped_taken(event) == app,
{
}

/// Where a subagent on screen ends and the user has not asked for that, the client goes back to the
/// main thread: the end is kept in the subagent's store, its agent counts as closed, and the main
/// agent is told of it by name, where that is news and it is a subagent.
pub proof fn law_client_goes_back_to_the_main_thread(
    app: AppView,
    event: ThreadBufferedEventView,
)
    ensures
        ({
            let goes_back = event == ThreadBufferedEventView::Notification(
                ServerNotificationView::ThreadClosed,
            ) && app.active_thread_id is Some && app.primary_thread_id is Some
                && app.active_thread_id != app.primary_thread_id
                && app.pending_shutdown_exit_thread_id != app.active_thread_id;
            let closed = app.active_thread_id->0;
            let (next, step, effects) = app.active_event_taken(event);
            &&& goes_back <==> step is FailOver
            &&& goes_back ==> {
                let kept = match app.store_of(closed) {
                    Some(store) => app.with_store(
                        closed,
                        store.notified(ServerNotificationView::ThreadClosed),
                    ),
                    None => app,
                };
                &&& next == (AppView { agents: closed_in(kept.agents, closed).0, ..kept })
                &&& effects == seq![AppEffectView::AgentEntryChanged { thread_id: closed }]
                &&& step->FailOver_0.closed_thread_id == closed
                &&& step->FailOver_0.primary_thread_id == app.primary_thread_id->0
                &&& step->FailOver_0.is_side == app.is_side(closed)
                &&& step->FailOver_0.wake_label is Some <==> app.should_wake_primary(closed)
                    && closed_in(app.agents, closed).1
                &&& step->FailOver_0.wake_label is Some ==> step->FailOver_0.wake_label == Some(
                    app.subagent_name(closed),
                )
            }
        }),
{
}

/// Any other event of the thread on screen is shown, unless it is about a stopped terminal. The end
/// of the thread whose end the user has asked for fulfils that wish, and nothing else does.
pub proof fn law_event_on_screen_is_shown_or_dropped(
    app: AppView,
    event: ThreadBufferedEventView,
)
    requires
        !(app.active_event_taken(event).1 is FailOver),
    ensures
        ({
            let (next, step, effects) = app.active_event_taken(event);
            let leaving = AppView {
                pending_shutdown_exit_thread_id: if event == ThreadBufferedEventView::Notification(
                    ServerNotificationView::ThreadClosed,
                ) && app.pending_shutdown_exit_thread_id == app.active_thread_id {
                    None
                } else {
                    app.pending_shutdown_exit_thread_id
                },
                ..app
            };
            &&& next == leaving.stopped_taken(event)
            &&& leaving.drops_event(event) ==> step == ActiveEventStepView::Dropped && effects
                == seq![next.terminals_listed()]
            &&& !leaving.drops_event(event) ==> step == ActiveEventStepView::Handle(event)
                && effects.len() == 0
        }),
        tells_end(event) <==> event == ThreadBufferedEventView::Notification(
            ServerNotificationView::ThreadClosed,
        ),
{
}

/// Each kind of event is shown in its own way; a request only while it waits for an answer. The
/// status line follows when a turn starts and when the use of tokens is known.
pub proof fn law_event_is_shown_by_its_kind(event: ThreadBufferedEventView, waits: bool)
    ensures
        ({
            let shown = event_shown(event, waits);
            let first = match event {
                ThreadBufferedEventView::Notification(notification) => Some(
                    AppEffectView::HandleNotification { notification },
                ),
                ThreadBufferedEventView::Request(request) => if waits {
                    Some(AppEffectView::HandleRequest { request })
                } else {
                    None
                },
                ThreadBufferedEventView::HistoryEntryResponse(_) => Some(
                    AppEffectView::HandleHistoryEntry { event },
                ),
                ThreadBufferedEventView::FeedbackSubmission(_) => Some(
                    AppEffectView::HandleFeedback { event },
                ),
            };
            let status = event matches ThreadBufferedEventView::Notification(notification) && (
            notification is TurnStarted || (
            notification matches ServerNotificationView::Notice { kind, .. } && kind
                == NoticeKind::ThreadTokenUsageUpdated));
            &&& first is Some ==> shown.len() > 0 && shown[0] == first->0
            &&& status ==> shown.len() == 2 && shown[1] == AppEffectView::RefreshStatusLine
            &&& !status && first is Some ==> shown.len() == 1
            &&& first is None ==> shown.len() == 0
        }),
{
}

/// Back on the main thread, the user is told which thread has closed, and the main agent of the
/// subagent's end, where that is due. Where the way back has failed, no thread is on screen, and the
/// user is told both threads.
pub proof fn law_user_is_told_of_the_way_back(app: AppView, failover: FailoverView)
    ensures
        ({
            let closed = failover.closed_thread_id;
            let primary = failover.primary_thread_id;
            let (next, effects) = app.failover_ended(failover);
            &&& app.active_thread_id == Some(primary) ==> effects.len() > 0 && effects[0] == (
            AppEffectView::AddInfoMessage {
                message: "Agent thread "@ + id_text(closed)
                    + " closed. Switched back to main thread."@,
            })
            &&& app.active_thread_id == Some(primary) && failover.wake_label is None ==> next == app
                && effects.len() == 1
            &&& app.active_thread_id == Some(primary) && failover.wake_label is Some ==> next
                == app.subagent_ended(failover.wake_label->0, closed).0 && effects.skip(1)
                == app.subagent_ended(failover.wake_label->0, closed).1
            &&& app.active_thread_id != Some(primary) ==> next == app.without_active().0 && effects
                == app.without_active().1 + seq![
                AppEffectView::AddErrorMessage {
                    message: "Agent thread "@ + id_text(closed)
                        + " closed. Failed to switch back to main thread "@ + id_text(primary)
                        + "."@,
                },
            ]
        }),
{
    let (next, effects) = app.failover_ended(failover);
    if app.active_thread_id == Some(failover.primary_thread_id) && failover.wake_label is Some {
        assert(effects.skip(1) =~= app.subagent_ended(
            failover.wake_label->0,
            failover.closed_thread_id,
        ).1);
    }
}

/// Once the events that waited were read, the receiver goes on being read where the thread is still
/// on screen, and back to its channel where it is not; a channel that has ended takes the thread off
/// the screen.
pub proof fn law_receiver_is_put_back(app: AppView, thread_id: ThreadId, disconnected: bool)
    ensures
        ({
            let (next, effects) = app.drained(thread_id, disconnected);
            if app.active_thread_id == Some(thread_id) {
                if disconnected {
                    (next, effects) == app.without_active()
                } else {
                    next == (AppView { has_active_receiver: true, ..app }) && effects.len() == 0
                }
            } else {
                &&& effects.len() == 0
                &&& disconnected || app.channel_of(thread_id) is None ==> next == app
                &&& !disconnected && app.channel_of(thread_id) is Some ==> next == app.with_channel(
                    ThreadChannelView {
                        thread_id,
                        has_receiver: true,
                        store: app.channel_of(thread_id)->0.store,
                    },
                )
            }
        }),
{
}

/// Turns that are taken back leave their thread with the turns that are left, and the screen is told
/// how many went. Where the thread is on screen and its channel has ended, it goes off the screen.
pub proof fn law_rollback_reaches_store_and_screen(
    app: AppView,
    thread_id: ThreadId,
    num_turns: u32,
    turns: Seq<TurnView>,
    disconnected: bool,
)
    ensures
        ({
            let kept = match app.store_of(thread_id) {
                Some(store) => app.with_store(thread_id, store.rolled_back(turns)),
                None => app,
            };
            let (next, effects) = app.rolled_back(thread_id, num_turns, turns, disconnected);
            let ends = app.active_thread_id == Some(thread_id) && app.has_active_receiver
                && disconnected;
            &&& effects.len() > 0
            &&& effects.last() == (AppEffectView::HandleRollbackSucceeded { num_turns })
            &&& ends ==> next == kept.without_active().0 && effects.drop_last()
                == kept.without_active().1
            &&& !ends ==> next == kept && effects.len() == 1
        }),
{
    let kept = match app.store_of(thread_id) {
        Some(store) => app.with_store(thread_id, store.rolled_back(turns)),
        None => app,
    };
    let (next, effects) = app.rolled_back(thread_id, num_turns, turns, disconnected);
    assert(effects.drop_last() =~= if app.active_thread_id == Some(thread_id)
        && app.has_active_receiver && disconnected {
        kept.without_active().1
    } else {
        Seq::empty()
    });
}

/// The primary thread becomes known with its session: it gets an entry without a nickname or a role,
/// a store with the session and the turns, and goes on screen where none is there. The session is
/// shown, with the user's first message held back.
pub proof fn law_primary_thread_becomes_known(
    app: AppView,
    session: ThreadSessionStateView,
    turns: Seq<TurnView>,
)
    ensures
        ({
            let thread_id = session.thread_id;
            let entered = AppView {
                primary_thread_id: Some(thread_id),
                primary_session: Some(session),
                agents: upserted(
                    app.agents,
                    AgentEntryView {
                        thread_id,
                        agent_nickname: None,
                        agent_role: None,
                        is_closed: false,
                    },
                ),
                ..app
            }.with_channel_for(thread_id);
            let kept = entered.with_store(
                thread_id,
                entered.store_of(thread_id)->0.with_session(session, turns),
            );
            let (next, effects) = app.primary_session_set(session, turns);
            &&& next == (AppView {
                widget_thread_id: Some(thread_id),
                ..kept.activated(thread_id).0
            })
            &&& effects == seq![AppEffectView::AgentEntryChanged { thread_id }] + kept.activated(
                thread_id,
            ).1 + seq![
                AppEffectView::SetInitialUserMessageSuppressed { suppressed: true },
                AppEffectView::ShowSession { session, display: SessionDisplay::Normal },
            ]
        }),
{
}

/// With the session of the primary thread, its turns are shown and what has waited for it is taken
/// in; then the user's first message is let go. A directory that the user has given takes the place
/// of the session's by the client's own, and is applied; where it cannot be made out, it ends with
/// the session shown and nothing more.
pub proof fn law_primary_session_is_taken_over(
    app: AppView,
    session: ThreadSessionStateView,
    turns: Seq<TurnView>,
    cwd: CwdOverrideView,
    reflow: bool,
)
    ensures
        ({
            let thread_id = session.thread_id;
            let (known, announcing) = app.primary_session_set(
                ThreadSessionStateView {
                    cwd: if cwd is Absent {
                        session.cwd
                    } else {
                        app.config_cwd
                    },
                    ..session
                },
                turns,
            );
            let (next, effects) = app.primary_session_enqueued(session, turns, cwd, reflow);
            &&& cwd is Unresolvable ==> next == known && effects == announcing
            &&& !(cwd is Unresolvable) ==> {
                let ready = AppView { pending_primary_events: Seq::empty(), ..known };
                let (taken, taking) = ready.events_taken_in(
                    thread_id,
                    known.pending_primary_events,
                );
                &&& next == taken
                &&& effects == announcing + turns_shown(thread_id, turns, cwd, reflow) + taking
                    + seq![
                    AppEffectView::SetInitialUserMessageSuppressed { suppressed: false },
                    AppEffectView::SubmitInitialUserMessage,
                ]
            }
        }),
{
}

/// The turns of a session are shown as those of a session that is resumed, in a buffer where the
/// screen asks for one and there are any; a directory that the user has given is applied before.
pub proof fn law_turns_are_shown_once(
    thread_id: ThreadId,
    turns: Seq<TurnView>,
    cwd: CwdOverrideView,
    reflow: bool,
)
    ensures
        ({
            let shown = turns_shown(thread_id, turns, cwd, reflow);
            let moved: int = if cwd is Given {
                1
            } else {
                0
            };
            let replaying = AppEffectView::ReplayTurns {
                turns,
                kind: ReplayKind::ResumeInitialMessages,
            };
            &&& cwd matches CwdOverrideView::Given(path) ==> shown.len() > 0 && shown[0] == (
            AppEffectView::ApplyRuntimeCwd { thread_id, cwd: path })
            &&& reflow && turns.len() > 0 ==> shown.len() == moved + 3 && shown[moved]
                == AppEffectView::BeginInitialHistoryReplayBuffer && shown[moved + 1] == replaying
                && shown[moved + 2] == AppEffectView::EndInitialHistoryReplayBuffer
            &&& !(reflow && turns.len() > 0) ==> shown.len() == moved + 1 && shown[moved]
                == replaying
        }),
{
}

/// What a thread is shown again by: its session, its input with the queue held back, its turns and
/// then its events, in a buffer where the screen asks for one and there is anything; then the queue
/// and the first message are let go. The screen shows the thread from then on.
pub proof fn law_snapshot_is_shown(
    app: AppView,
    snapshot: ThreadEventSnapshotView,
    resume: bool,
    reflow: bool,
)
    ensures
        ({
            let (next, effects) = app.replayed(snapshot, resume, reflow);
            let buffered = reflow && (snapshot.turns.len() > 0 || snapshot.events.len() > 0);
            let quiet = has_question(snapshot.events);
            &&& snapshot.session is Some ==> next == (AppView {
                widget_thread_id: Some(snapshot.session->0.thread_id),
                ..app
            })
            &&& snapshot.session is None ==> next == app
            &&& effects == (if buffered {
                seq![AppEffectView::BeginThreadSwitchHistoryReplayBuffer]
            } else {
                Seq::empty()
            }) + (match snapshot.session {
                Some(session) => seq![
                    AppEffectView::ShowSession {
                        session,
                        display: if app.is_side(session.thread_id) {
                            SessionDisplay::Side
                        } else if quiet {
                            SessionDisplay::Quiet
                        } else {
                            SessionDisplay::Normal
                        },
                    },
                ],
                None => Seq::empty(),
            }) + seq![
                AppEffectView::SetQueueAutosendSuppressed { suppressed: true },
                AppEffectView::RestoreInputState { input_state: snapshot.input_state },
            ] + (if snapshot.turns.len() > 0 {
                seq![
                    AppEffectView::ReplayTurns {
                        turns: snapshot.turns,
                        kind: ReplayKind::ThreadSnapshot,
                    },
                ]
            } else {
                Seq::empty()
            }) + events_replayed(snapshot.events, quiet) + (seq![
                AppEffectView::MarkReplayedTerminalsLive,
            ] + (if buffered {
                seq![AppEffectView::EndInitialHistoryReplayBuffer]
            } else {
                Seq::empty()
            }) + seq![
                AppEffectView::SetQueueAutosendSuppressed { suppressed: false },
                AppEffectView::SetInitialUserMessageSuppressed { suppressed: false },
                AppEffectView::SubmitInitialUserMessage,
            ] + (if resume {
                seq![AppEffectView::SendNextQueuedInput]
            } else {
                Seq::empty()
            }) + seq![AppEffectView::RefreshStatusLine])
        }),
{
    let buffered = reflow && (snapshot.turns.len() > 0 || snapshot.events.len() > 0);
    assert(replay_closed(buffered, resume) =~= seq![
        AppEffectView::MarkReplayedTerminalsLive,
    ] + (if buffered {
        seq![AppEffectView::EndInitialHistoryReplayBuffer]
    } else {
        Seq::empty()
    }) + seq![
        AppEffectView::SetQueueAutosendSuppressed { suppressed: false },
        AppEffectView::SetInitialUserMessageSuppressed { suppressed: false },
        AppEffectView::SubmitInitialUserMessage,
    ] + (if resume {
        seq![AppEffectView::SendNextQueuedInput]
    } else {
        Seq::empty()
    }) + seq![AppEffectView::RefreshStatusLine]);
}

/// Every event is shown again, each in the way of its kind and in its order. Only warnings are left
/// out, and only while a question is to be asked.
pub proof fn law_events_are_shown_again(
    events: Seq<ThreadBufferedEventView>,
    event: ThreadBufferedEventView,
    suppress: bool,
)
    ensures
        events_replayed(Seq::empty(), suppress).len() == 0,
        suppress && event is Notification && event->Notification_0 is Notice
            && event->Notification_0->kind == NoticeKind::Warning ==> events_replayed(
            events.push(event),
            suppress,
        ) == events_replayed(events, suppress),
        !(suppress && event is Notification && event->Notification_0 is Notice
            && event->Notification_0->kind == NoticeKind::Warning) ==> events_replayed(
            events.push(event),
            suppress,
        ) == events_replayed(events, suppress).push(
            match event {
                ThreadBufferedEventView::HistoryEntryResponse(_) => {
                    AppEffectView::HandleHistoryEntry { event }
                },
                ThreadBufferedEventView::FeedbackSubmission(_) => AppEffectView::HandleFeedback {
                    event,
                },
                _ => AppEffectView::ReplayEvent { event },
            },
        ),
{
    reveal(Seq::filter);
    let keep = |event: ThreadBufferedEventView| !(suppress && is_notice(event));
    let all = events.push(event);
    assert(all.drop_last() =~= events);
    assert(events_replayed(Seq::empty(), suppress) =~= Seq::<AppEffectView>::empty());
    if keep(event) {
        assert(all.filter(keep) == events.filter(keep).push(event));
        assert(events_replayed(all, suppress) =~= events_replayed(events, suppress).push(
            event_replayed(event),
        ));
    } else {
        assert(all.filter(keep) == events.filter(keep));
    }
}

/// A question is to be asked where some event is a request that asks one.
pub proof fn law_when_a_question_is_asked(events: Seq<ThreadBufferedEventView>, i: int)
    ensures
        0 <= i < events.len() && events[i] is Request && !(events[i]->Request_0 is Other)
            ==> has_question(events),
        (forall|j: int|
            0 <= j < events.len() ==> !((#[trigger] events[j]) is Request && !(
            events[j]->Request_0 is Other))) ==> !has_question(events),
{
    if 0 <= i < events.len() && events[i] is Request && !(events[i]->Request_0 is Other) {
        assert(is_question(events[i]));
    }
}

/// The session of a thread that is shown again is fetched anew where it is not known, where its
/// model is blank or where its record is not known; but never for a side conversation, nor where
/// the thread can only be looked at.
pub proof fn law_when_a_session_is_fetched_anew(
    app: AppView,
    thread_id: ThreadId,
    only_looked_at: bool,
    session: Option<ThreadSessionStateView>,
    fetched: ThreadSessionStateView,
    turns: Seq<TurnView>,
)
    ensures
        app.refreshes_session(thread_id, only_looked_at, session) <==> !only_looked_at
            && !app.is_side(thread_id) && (session is None || trimmed(session->0.model).len() == 0
            || session->0.rollout_path is None),
        app.session_refreshed(thread_id, fetched, turns) == match app.store_of(thread_id) {
            Some(store) => app.with_store(
                thread_id,
                store.with_session(fetched, turns).rebased(),
            ),
            None => app,
        },
{
}

/// A terminal to stop is the one that the screen knows, where its thread is on it, and else the
/// first that its thread's store tracks under that name. Where it runs, it is ended; where it does
/// not, the user is told so.
pub proof fn law_terminal_to_stop_is_found(
    app: AppView,
    thread_id: ThreadId,
    process_id: Seq<char>,
    on_screen: RunningTerminalView,
)
    ensures
        ({
            let known = app.terminal_of(thread_id, process_id, on_screen);
            let terminals = app.store_of(thread_id)->0.input_state->0.terminals;
            let tracked_there = app.store_of(thread_id) is Some && app.store_of(
                thread_id,
            )->0.input_state is Some && first_terminal(terminals, seq![process_id]) is Some;
            &&& app.active_thread_id == Some(thread_id) ==> known == on_screen
            &&& app.active_thread_id != Some(thread_id) && tracked_there ==> known.command_display
                == Some(first_terminal(terminals, seq![process_id])->0.command) && known.call_id
                == Some(first_terminal(terminals, seq![process_id])->0.call_id)
            &&& app.active_thread_id != Some(thread_id) && !tracked_there
                ==> known.command_display is None && known.call_id is None
            &&& known.command_display is Some ==> app.stop_step(
                thread_id,
                process_id,
                on_screen,
            ).0 == (StopStepView::Terminate {
                command_display: known.command_display->0,
                call_id: known.call_id,
            }) && app.stop_step(thread_id, process_id, on_screen).1.len() == 0
            &&& known.command_display is None ==> app.stop_step(
                thread_id,
                process_id,
                on_screen,
            ) == (
                StopStepView::NotRunning,
                seq![
                    AppEffectView::AddErrorMessage {
                        message: "Background terminal is no longer running."@,
                    },
                    app.terminals_listed(),
                ],
            )
        }),
{
}

/// A terminal that was stopped is forgotten under all its names: by the screen where its thread is
/// on it, else by its thread's input. The user is told which command it was.
pub proof fn law_stopped_terminal_is_forgotten(
    app: AppView,
    thread_id: ThreadId,
    process_id: Seq<char>,
    call_id: Option<Seq<char>>,
    command_display: Seq<char>,
)
    ensures
        ({
            let (next, effects) = app.terminal_stopped(
                thread_id,
                process_id,
                call_id,
                command_display,
            );
            let on_screen = app.active_thread_id == Some(thread_id);
            let said = seq![
                next.terminals_listed(),
                AppEffectView::AddInfoMessage {
                    message: "Stopping background terminal: "@ + command_display,
                },
            ];
            &&& on_screen ==> effects == seq![AppEffectView::RemoveShownTerminal { process_id }]
                + said
            &&& !on_screen ==> effects == said
            &&& app.store_of(thread_id) is None ==> next == app
            &&& app.store_of(thread_id) is Some ==> {
                let store = app.store_of(thread_id)->0;
                let first = if call_id is Some {
                    call_id->0
                } else {
                    process_id
                };
                let stopped = store.with_stopped(related_ids(store.buffer, first));
                &&& on_screen ==> next == app.with_store(thread_id, stopped)
                &&& !on_screen ==> next == app.with_store(
                    thread_id,
                    ThreadEventStoreView {
                        input_state: match store.input_state {
                            Some(state) => Some(state.without_terminal(process_id)),
                            None => None,
                        },
                        ..stopped
                    },
                )
            }
        }),
        ({
            let (next, effect) = app.terminals_stopped(thread_id);
            &&& effect == next.terminals_listed()
            &&& next == match app.store_of(thread_id) {
                Some(store) => app.with_store(thread_id, store.with_all_stopped()),
                None => app,
            }
        }),
{
    assert(Seq::<AppEffectView>::empty() + seq![
        app.terminal_stopped(
            thread_id,
            process_id,
            call_id,
            command_display,
        ).0.terminals_listed(),
        AppEffectView::AddInfoMessage {
            message: "Stopping background terminal: "@ + command_display,
        },
    ] =~= seq![
        app.terminal_stopped(
            thread_id,
            process_id,
            call_id,
            command_display,
        ).0.terminals_listed(),
        AppEffectView::AddInfoMessage {
            message: "Stopping background terminal: "@ + command_display,
        },
    ]);
}

/// The threads that a call between agents names are those whose texts are ids, in their order; no
/// other item names any.
pub proof fn law_receivers_are_those_with_an_id(
    texts: Seq<Seq<char>>,
    text: Seq<char>,
    turn_id: Seq<char>,
    item: ThreadItemView,
    other: ServerNotificationView,
)
    ensures
        receivers_of(Seq::empty()).len() == 0,
        uuid_of(text) is Some ==> receivers_of(texts.push(text)) == receivers_of(texts).push(
            ThreadId { value: uuid_of(text)->0 },
        ),
        uuid_of(text) is None ==> receivers_of(texts.push(text)) == receivers_of(texts),
        receiver_texts(ServerNotificationView::ItemStarted { turn_id, item }) == item_receivers(
            item,
        ),
        receiver_texts(ServerNotificationView::ItemCompleted { turn_id, item }) == item_receivers(
            item,
        ),
        !(other is ItemStarted) && !(other is ItemCompleted) ==> receiver_texts(other).len() == 0,
        item is CollabAgentToolCall ==> item_receivers(item) == item->receiver_thread_ids,
        !(item is CollabAgentToolCall) ==> item_receivers(item).len() == 0,
{
    assert(texts.push(text).drop_last() =~= texts);
}

/// The main agent is told of the end of an agent that is known, is not the main one and is not that
/// of a side conversation.
pub proof fn law_of_whom_the_main_agent_is_told(
    app: AppView,
    thread_id: ThreadId,
    changed: bool,
)
    ensures
        app.should_wake_primary(thread_id) <==> app.primary_thread_id != Some(thread_id)
            && !app.is_side(thread_id) && entry_of(app.agents, thread_id) is Some,
        changed && app.should_wake_primary(thread_id) ==> app.closed_subagent_told(
            thread_id,
            changed,
        ) == app.subagent_ended(app.subagent_name(thread_id), thread_id),
        !changed || !app.should_wake_primary(thread_id) ==> app.closed_subagent_told(
            thread_id,
            changed,
        ).0 == app && app.closed_subagent_told(thread_id, changed).1.len() == 0,
        ({
            let (agents, news) = closed_in(app.agents, thread_id);
            let noted = AppView { agents, ..app };
            let (next, effects) = app.subagent_closed(thread_id);
            &&& next == noted.closed_subagent_told(thread_id, news).0
            &&& effects == seq![AppEffectView::AgentEntryChanged { thread_id }]
                + noted.closed_subagent_told(thread_id, news).1
        }),
{
}

/// The main agent on screen is told of a subagent's end by the screen. Off screen, the prompt is
/// offered to its thread, and where it is handed out, submitted there under the primary session.
/// Where there is no main thread yet, the end waits, once.
pub proof fn law_end_of_a_subagent_reaches_the_main_agent(
    app: AppView,
    label: Seq<char>,
    thread_id: ThreadId,
)
    ensures
        ({
            let (next, effects) = app.subagent_ended(label, thread_id);
            let prompt = subagent_prompt(label, thread_id);
            if app.displayed() == app.primary_thread_id {
                next == app && effects == seq![
                    AppEffectView::SubmitSubagentCompletionWakeup { thread_id, label },
                ]
            } else if app.primary_thread_id is Some && app.primary_session is Some {
                let primary = app.primary_thread_id->0;
                let ensured = app.with_channel_for(primary);
                let (store, start) = ensured.store_of(primary)->0.wakeup_offered(prompt);
                &&& next == ensured.with_store(primary, store)
                &&& start is Some ==> effects == seq![
                    AppEffectView::SubmitThreadOp {
                        thread_id: primary,
                        op: wakeup_turn(app.primary_session->0, prompt),
                    },
                ]
                &&& start is None ==> effects.len() == 0
            } else {
                &&& effects.len() == 0
                &&& waits_to_be_told(app.pending_subagent_wakeups, thread_id) ==> next == app
                &&& !waits_to_be_told(app.pending_subagent_wakeups, thread_id) ==> next == (AppView {
                    pending_subagent_wakeups: app.pending_subagent_wakeups.push(
                        PendingSubagentCompletionWakeupView { thread_id, label },
                    ),
                    ..app
                })
            }
        }),
{
}

/// What waits to be told is told one after the other, each with its thread and its name.
pub proof fn law_what_waits_is_told_in_order(
    pending: Seq<PendingSubagentCompletionWakeupView>,
    thread_id: ThreadId,
    i: int,
)
    ensures
        tellings(pending).len() == pending.len(),
        0 <= i < pending.len() ==> tellings(pending)[i] == (
        AppEffectView::SubmitSubagentCompletionWakeup {
            thread_id: pending[i].thread_id,
            label: pending[i].label,
        }),
        0 <= i < pending.len() && pending[i].thread_id == thread_id ==> waits_to_be_told(
            pending,
            thread_id,
        ),
        (forall|j: int| 0 <= j < pending.len() ==> (#[trigger] pending[j]).thread_id != thread_id)
            ==> !waits_to_be_told(pending, thread_id),
{
}

} // verus!
