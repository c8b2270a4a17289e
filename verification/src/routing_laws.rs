//! What holds of a client's threads whatever comes in.
use crate::active_thread::{prompts_offered, tells_end, CwdOverrideView, FailoverView};
use crate::agent_navigation::{
    closed_in, is_marked_closed, law_closing_is_news_once, AgentEntryView,
};
use crate::app_state::{
    channel_place, lemma_channel_place, lemma_channel_place_is, AppView, ThreadChannelView,
};
use crate::effects::{AppEffectView, PendingSubagentCompletionWakeupView};
use crate::input_state::ThreadInputStateView;
use crate::listings::waiting_elsewhere;
use crate::op_submission::{
    RequestResolutionView, SteerAttemptView, SteerReplyView, TurnConfigView,
};
use crate::pending_replay::{after_op, asks_approval};
use crate::protocol::{
    AppCommandView, HistoryLookupResponseView, RequestIdView, ServerNotificationView,
    ServerRequestView, ThreadBufferedEventView, ThreadSessionStateView, TurnView, UserTurnView,
};
use crate::server_events::{
    closed_message, request_id_of, McpServerView, NotificationTargetView, RequestStepView,
    UnsupportedRequestView,
};
use crate::terminal_ids::notification_ids;
use crate::thread_event_laws::{
    asks, has_request, law_capacity_is_kept, law_closed_thread_stays_idle,
    law_questions_keep_their_requests, lemma_buffered_keeps_requests, questions_have_requests,
    written,
};
use crate::thread_events::{
    related_ids, survives_close, without_terminals_named, ThreadEventStoreView,
};
use crate::thread_id::ThreadId;
use crate::thread_routing::ThreadRequestEnqueueResult;
use crate::wakeups::{subagent_prompt, wakeup_turn};
use vstd::prelude::*;

verus! {

/// What holds of every store: it holds no more events than it may, a closed thread is idle, and
/// every open question has its request among the events.
pub open spec fn store_is_sound(capacity: nat, store: ThreadEventStoreView) -> bool {
    &&& store.capacity == capacity
    &&& store.within_capacity()
    &&& store.closed_is_idle()
    &&& questions_have_requests(store)
}

impl AppView {
    /// What holds of a client's threads: each has one channel, every store is sound, and the
    /// server was asked about no agent twice.
    pub open spec fn is_sound(self) -> bool {
        &&& forall|i: int, j: int|
            0 <= i < j < self.channels.len() ==> (#[trigger] self.channels[i]).thread_id != (
            #[trigger] self.channels[j]).thread_id
        &&& forall|i: int|
            0 <= i < self.channels.len() ==> store_is_sound(
                self.channel_capacity,
                (#[trigger] self.channels[i]).store,
            )
        &&& self.asked.no_duplicates()
    }
}

proof fn lemma_with_channel(app: AppView, channel: ThreadChannelView)
    requires
        app.is_sound(),
        app.has_store(channel.thread_id),
        store_is_sound(app.channel_capacity, channel.store),
    ensures
        app.with_channel(channel).is_sound(),
        app.with_channel(channel).channel_of(channel.thread_id) == Some(channel),
        forall|other: ThreadId|
            other != channel.thread_id ==> #[trigger] app.with_channel(channel).channel_of(other)
                == app.channel_of(other),
{
    let place = channel_place(app.channels, channel.thread_id);
    let next = app.with_channel(channel);
    lemma_channel_place(app.channels, channel.thread_id);
    assert(forall|i: int|
        0 <= i < app.channels.len() ==> (#[trigger] next.channels[i]).thread_id
            == app.channels[i].thread_id);
    lemma_channel_place_is(next.channels, channel.thread_id, place);
    assert forall|other: ThreadId| other != channel.thread_id implies #[trigger] next.channel_of(
        other,
    ) == app.channel_of(other) by {
        lemma_channel_place(app.channels, other);
        lemma_channel_place_is(next.channels, other, channel_place(app.channels, other));
    }
    assert forall|i: int, j: int| 0 <= i < j < next.channels.len() implies (
    #[trigger] next.channels[i]).thread_id != (#[trigger] next.channels[j]).thread_id by {
        assert(app.channels[i].thread_id != app.channels[j].thread_id);
    }
    assert forall|i: int| 0 <= i < next.channels.len() implies store_is_sound(
        next.channel_capacity,
        (#[trigger] next.channels[i]).store,
    ) by {
        assert(store_is_sound(app.channel_capacity, app.channels[i].store));
    }
}

proof fn lemma_with_store(app: AppView, thread_id: ThreadId, store: ThreadEventStoreView)
    requires
        app.is_sound(),
        app.has_store(thread_id) ==> store_is_sound(app.channel_capacity, store),
    ensures
        app.with_store(thread_id, store).is_sound(),
        app.has_store(thread_id) ==> app.with_store(thread_id, store).store_of(thread_id) == Some(
            store,
        ),
        forall|other: ThreadId|
            other != thread_id ==> #[trigger] app.with_store(thread_id, store).store_of(other)
                == app.store_of(other),
{
    if app.has_store(thread_id) {
        let channel = ThreadChannelView { thread_id, store, ..app.channel_of(thread_id)->0 };
        lemma_with_channel(app, channel);
        assert forall|other: ThreadId| other != thread_id implies #[trigger] app.with_store(
            thread_id,
            store,
        ).store_of(other) == app.store_of(other) by {
            assert(app.with_channel(channel).channel_of(other) == app.channel_of(other));
        }
    }
}

proof fn lemma_with_channel_for(app: AppView, thread_id: ThreadId)
    requires
        app.is_sound(),
    ensures
        app.with_channel_for(thread_id).is_sound(),
        app.with_channel_for(thread_id).has_store(thread_id),
        app.has_store(thread_id) ==> app.with_channel_for(thread_id) == app,
        !app.has_store(thread_id) ==> app.with_channel_for(thread_id).store_of(thread_id) == Some(
            ThreadEventStoreView::empty(app.channel_capacity),
        ),
        forall|other: ThreadId|
            other != thread_id ==> #[trigger] app.with_channel_for(thread_id).store_of(other)
                == app.store_of(other),
{
    lemma_channel_place(app.channels, thread_id);
    if !app.has_store(thread_id) {
        let next = app.with_channel_for(thread_id);
        let last = app.channels.len() as int;
        assert(forall|i: int| 0 <= i < last ==> #[trigger] next.channels[i] == app.channels[i]);
        lemma_channel_place_is(next.channels, thread_id, last);
        assert forall|i: int, j: int| 0 <= i < j < next.channels.len() implies (
        #[trigger] next.channels[i]).thread_id != (#[trigger] next.channels[j]).thread_id by {
            if j < last {
                assert(app.channels[i].thread_id != app.channels[j].thread_id);
            }
        }
        assert(store_is_sound(app.channel_capacity, next.channels[last].store));
        assert forall|other: ThreadId| other != thread_id implies #[trigger] next.store_of(other)
            == app.store_of(other) by {
            lemma_channel_place(app.channels, other);
            let place = channel_place(app.channels, other);
            if place < last {
                lemma_channel_place_is(next.channels, other, place);
            } else {
                lemma_channel_place_is(next.channels, other, last + 1);
            }
        }
    }
}

proof fn lemma_store(app: AppView, thread_id: ThreadId)
    requires
        app.is_sound(),
    ensures
        app.store_of(thread_id) matches Some(store) ==> store_is_sound(app.channel_capacity, store),
{
    lemma_channel_place(app.channels, thread_id);
}

/// A store stays sound when a prompt is offered, taken, put back or lets itself wait.
proof fn lemma_wakeups(capacity: nat, store: ThreadEventStoreView, text: Seq<char>)
    requires
        store_is_sound(capacity, store),
    ensures
        store_is_sound(capacity, store.with_wakeup(text)),
        store_is_sound(capacity, store.wakeup_offered(text).0),
        store_is_sound(capacity, store.wakeup_taken().0),
        store_is_sound(capacity, store.wakeup_put_back(text)),
        store.wakeup_taken().1 is Some ==> !store.closed,
        store.wakeup_offered(text).1 is Some ==> !store.closed,
{
}

/// A store stays sound when a notification is taken in.
proof fn lemma_taken_in(
    capacity: nat,
    store: ThreadEventStoreView,
    inferred: Option<ThreadSessionStateView>,
    notification: ServerNotificationView,
)
    requires
        store_is_sound(capacity, store),
    ensures
        store_is_sound(capacity, store.taken_in(inferred, notification).0),
{
    let known = if store.session is None && inferred is Some {
        ThreadEventStoreView { session: inferred, ..store }
    } else {
        store
    };
    assert(store_is_sound(capacity, known));
    lemma_notified(capacity, known, notification);
    let (watched, result) = known.watched(notification);
    lemma_notified(capacity, watched, notification);
    let kept = if result.drop_notification {
        watched
    } else {
        watched.notified(notification)
    };
    assert(store_is_sound(capacity, kept));
    let (ready, text) = if result.wakeup_text is Some {
        (kept, result.wakeup_text)
    } else {
        kept.wakeup_taken()
    };
    lemma_wakeups(capacity, kept, Seq::empty());
    if let Some(text) = text {
        lemma_wakeups(capacity, ready, text);
    }
}

/// A store stays sound when a notification is looked at or kept.
proof fn lemma_notified(
    capacity: nat,
    store: ThreadEventStoreView,
    notification: ServerNotificationView,
)
    requires
        store_is_sound(capacity, store),
    ensures
        store_is_sound(capacity, store.notified(notification)),
        store_is_sound(capacity, store.watched(notification).0),
        store_is_sound(capacity, store.stopped_taken(notification)),
{
    let request = ServerRequestView::Other {
        request_id: RequestIdView::Integer(0),
        method: Seq::empty(),
        payload: Seq::empty(),
    };
    let event = ThreadBufferedEventView::Notification(notification);
    let session = arbitrary::<ThreadSessionStateView>();
    let op = AppCommandView::Compact;
    law_capacity_is_kept(
        store,
        notification,
        request,
        event,
        session,
        Seq::empty(),
        Seq::empty(),
    );
    law_closed_thread_stays_idle(store, notification, op, Seq::empty(), Seq::empty());
    law_questions_keep_their_requests(
        store,
        notification,
        request,
        op,
        session,
        Seq::empty(),
        Seq::empty(),
    );
    assert(store.watched(notification).0.closed == store.closed);
    if let Some(state) = store.input_state {
        lemma_fewer_terminals(state, notification_ids(notification));
    }
}

/// Leaving out terminals adds none, and starts no turn.
proof fn lemma_fewer_terminals(state: ThreadInputStateView, ids: Seq<Seq<char>>)
    ensures
        without_terminals_named(state, ids).terminals.len() <= state.terminals.len(),
        without_terminals_named(state, ids).user_turn_pending_start
            == state.user_turn_pending_start,
    decreases ids.len(),
{
    broadcast use Seq::lemma_filter_len;

    if ids.len() > 0 {
        lemma_fewer_terminals(state, ids.drop_last());
    }
}

/// A store stays sound when a request, an answer or a turn comes in, and when the session is
/// fetched anew or turns are taken back.
proof fn lemma_other_changes(
    capacity: nat,
    store: ThreadEventStoreView,
    request: ServerRequestView,
    op: AppCommandView,
    session: ThreadSessionStateView,
    turns: Seq<TurnView>,
    ids: Seq<Seq<char>>,
)
    requires
        store_is_sound(capacity, store),
    ensures
        !store.closed ==> store_is_sound(capacity, store.requested(request)),
        store_is_sound(
            capacity,
            (ThreadEventStoreView { pending: after_op(store.pending, op), ..store }),
        ),
        store_is_sound(capacity, store.with_session(session, turns)),
        store_is_sound(capacity, store.rebased()),
        store_is_sound(capacity, store.after_close()),
        store_is_sound(capacity, store.with_stopped(ids)),
        store_is_sound(capacity, store.with_all_stopped()),
        store_is_sound(capacity, store.rolled_back(turns)),
{
    let notification = ServerNotificationView::ThreadClosed;
    let event = ThreadBufferedEventView::Request(request);
    law_capacity_is_kept(store, notification, request, event, session, turns, ids);
    law_closed_thread_stays_idle(store, notification, op, Seq::empty(), ids);
    law_questions_keep_their_requests(store, notification, request, op, session, turns, ids);
}

/// A store stays sound when an entry of the message history comes in.
proof fn lemma_history(
    capacity: nat,
    store: ThreadEventStoreView,
    response: HistoryLookupResponseView,
)
    requires
        store_is_sound(capacity, store),
    ensures
        store_is_sound(
            capacity,
            store.buffered(ThreadBufferedEventView::HistoryEntryResponse(response)),
        ),
{
    broadcast use Seq::lemma_filter_len;

    let event = ThreadBufferedEventView::HistoryEntryResponse(response);
    let all = store.buffer.push(event);
    assert forall|i: int| 0 <= i < store.pending.len() implies has_request(
        all,
        #[trigger] store.pending[i],
    ) by {
        let question = store.pending[i];
        assert(has_request(store.buffer, question));
        let j = choose|j: int|
            0 <= j < store.buffer.len() && asks(#[trigger] store.buffer[j], question);
        assert(all[j] == store.buffer[j]);
    }
    lemma_buffered_keeps_requests(store, event);
    assert(survives_close(event));
}

/// A store stays sound when prompts are offered one after the other.
proof fn lemma_prompts(
    capacity: nat,
    store: ThreadEventStoreView,
    turn_start_pending: bool,
    prompts: Seq<Seq<char>>,
)
    requires
        store_is_sound(capacity, store),
    ensures
        store_is_sound(capacity, prompts_offered(store, turn_start_pending, prompts).0),
    decreases prompts.len(),
{
    if prompts.len() > 0 {
        lemma_prompts(capacity, store, turn_start_pending, prompts.drop_last());
        let before = prompts_offered(store, turn_start_pending, prompts.drop_last()).0;
        lemma_wakeups(capacity, before, prompts.last());
        let (offered, start) = before.wakeup_offered(prompts.last());
        if let Some(text) = start {
            lemma_wakeups(capacity, offered, text);
        }
    }
}

/// A client's threads stay sound when the main agent is told that a subagent has ended.
proof fn lemma_subagent_ended(app: AppView, label: Seq<char>, thread_id: ThreadId)
    requires
        app.is_sound(),
    ensures
        app.subagent_ended(label, thread_id).0.is_sound(),
        forall|other: ThreadId|
            Some(other) != app.primary_thread_id ==> #[trigger] app.subagent_ended(
                label,
                thread_id,
            ).0.store_of(other) == app.store_of(other),
{
    if app.displayed() != app.primary_thread_id {
        if let (Some(primary), Some(_)) = (app.primary_thread_id, app.primary_session) {
            lemma_with_channel_for(app, primary);
            let ensured = app.with_channel_for(primary);
            lemma_store(ensured, primary);
            let prompt = subagent_prompt(label, thread_id);
            let store = ensured.store_of(primary)->0;
            lemma_wakeups(app.channel_capacity, store, prompt);
            lemma_with_store(ensured, primary, store.wakeup_offered(prompt).0);
            let next = app.subagent_ended(label, thread_id).0;
            assert forall|other: ThreadId| Some(other)
                != app.primary_thread_id implies #[trigger] next.store_of(other) == app.store_of(
                other,
            ) by {
                assert(ensured.with_store(primary, store.wakeup_offered(prompt).0).store_of(other)
                    == ensured.store_of(other));
                assert(app.with_channel_for(primary).store_of(other) == app.store_of(other));
            }
        }
    }
}

/// Agents that change leave the threads as they are.
proof fn lemma_agents(app: AppView, agents: Seq<AgentEntryView>)
    requires
        app.is_sound(),
    ensures
        (AppView { agents, ..app }).is_sound(),
        forall|id: ThreadId| #[trigger]
            (AppView { agents, ..app }).store_of(id) == app.store_of(id),
{
}

/// Whatever notification comes in, the client's threads stay sound, and only two stores can
/// change: that of the thread that it is for, and that of the primary thread, which may be told of
/// a subagent's end.
pub proof fn law_notification_concerns_its_thread(
    app: AppView,
    thread_id: ThreadId,
    notification: ServerNotificationView,
)
    requires
        app.is_sound(),
    ensures
        app.notified(thread_id, notification).0.is_sound(),
        forall|other: ThreadId|
            other != thread_id && Some(other) != app.primary_thread_id
                ==> #[trigger] app.notified(thread_id, notification).0.store_of(other)
                == app.store_of(other),
{
    if !app.ignores(thread_id, notification) {
        let (known, inferred, _) = app.session_inferred(thread_id, notification);
        lemma_agents(app, known.agents);
        assert(known =~= AppView { agents: known.agents, ..app });
        lemma_with_channel_for(known, thread_id);
        let ensured = known.with_channel_for(thread_id);
        lemma_store(ensured, thread_id);
        let before = ensured.store_of(thread_id)->0;
        lemma_taken_in(app.channel_capacity, before, inferred, notification);
        let store = before.taken_in(inferred, notification).0;
        lemma_with_store(ensured, thread_id, store);
        let kept = ensured.with_store(thread_id, store);
        let told = AppView { agents: closed_in(kept.agents, thread_id).0, ..kept };
        lemma_agents(kept, told.agents);
        lemma_subagent_ended(told, told.subagent_name(thread_id), thread_id);
        let next = app.notified(thread_id, notification).0;
        assert forall|other: ThreadId|
            other != thread_id && Some(other) != app.primary_thread_id implies #[trigger] next.store_of(
        other) == app.store_of(other) by {
            assert(known.with_channel_for(thread_id).store_of(other) == known.store_of(other));
            assert(ensured.with_store(thread_id, store).store_of(other) == ensured.store_of(
                other,
            ));
            assert((AppView { agents: told.agents, ..kept }).store_of(other) == kept.store_of(
                other,
            ));
            assert((AppView { agents: known.agents, ..app }).store_of(other) == app.store_of(
                other,
            ));
        }
    }
}

/// A request is turned down exactly where its thread is closed, and then nothing changes; else it
/// is kept in its thread's store, and no other store changes.
pub proof fn law_request_is_kept_or_turned_down(
    app: AppView,
    thread_id: ThreadId,
    request: ServerRequestView,
)
    requires
        app.is_sound(),
    ensures
        ({
            let (next, effects, result) = app.requested(thread_id, request);
            &&& next.is_sound()
            &&& result == ThreadRequestEnqueueResult::ThreadClosed <==> app.is_closed(thread_id)
            &&& result == ThreadRequestEnqueueResult::ThreadClosed ==> next == app && effects.len()
                == 0
            &&& result == ThreadRequestEnqueueResult::Enqueued ==> next.store_of(thread_id) == Some(
                app.with_channel_for(thread_id).store_of(thread_id)->0.requested(request),
            )
            &&& forall|other: ThreadId|
                other != thread_id ==> #[trigger] next.store_of(other) == app.store_of(other)
        }),
{
    lemma_with_channel_for(app, thread_id);
    let ensured = app.with_channel_for(thread_id);
    lemma_store(ensured, thread_id);
    let store = ensured.store_of(thread_id)->0;
    lemma_other_changes(
        app.channel_capacity,
        store,
        request,
        AppCommandView::Compact,
        arbitrary(),
        Seq::empty(),
        Seq::empty(),
    );
    if !app.is_discarded(thread_id) && !is_marked_closed(app.agents, thread_id) && !store.closed {
        lemma_with_store(ensured, thread_id, store.requested(request));
        let next = app.requested(thread_id, request).0;
        assert forall|other: ThreadId| other != thread_id implies #[trigger] next.store_of(other)
            == app.store_of(other) by {
            assert(ensured.with_store(thread_id, store.requested(request)).store_of(other)
                == ensured.store_of(other));
            assert(app.with_channel_for(thread_id).store_of(other) == app.store_of(other));
        }
    }
}

/// Whatever else happens to the threads leaves them sound: events that have waited, turns and
/// answers of the user, threads that are shown, left and shown again, and terminals that are
/// stopped.
pub proof fn law_threads_stay_sound(
    app: AppView,
    thread_id: ThreadId,
    event: ThreadBufferedEventView,
    op: AppCommandView,
    input: Option<ThreadInputStateView>,
    session: ThreadSessionStateView,
    turns: Seq<TurnView>,
    num_turns: u32,
    disconnected: bool,
    process_id: Seq<char>,
    call_id: Option<Seq<char>>,
    command_display: Seq<char>,
)
    requires
        app.is_sound(),
    ensures
        app.event_taken_in(thread_id, event).0.is_sound(),
        app.with_op_noted(thread_id, op).is_sound(),
        app.activated(thread_id).0.is_sound(),
        app.without_active().0.is_sound(),
        app.left(input).0.is_sound(),
        app.replay_activated(thread_id).0.is_sound(),
        app.active_event_taken(event).0.is_sound(),
        app.session_refreshed(thread_id, session, turns).is_sound(),
        app.rolled_back(thread_id, num_turns, turns, disconnected).0.is_sound(),
        app.drained(thread_id, disconnected).0.is_sound(),
        app.terminal_stopped(thread_id, process_id, call_id, command_display).0.is_sound(),
        app.terminals_stopped(thread_id).0.is_sound(),
{
    lemma_event_taken_in(app, thread_id, event);
    lemma_store(app, thread_id);
    if let Some(store) = app.store_of(thread_id) {
        let ids = related_ids(
            store.buffer,
            match call_id {
                Some(call_id) => call_id,
                None => process_id,
            },
        );
        let request = ServerRequestView::Other {
            request_id: RequestIdView::Integer(0),
            method: Seq::empty(),
            payload: Seq::empty(),
        };
        let capacity = app.channel_capacity;
        lemma_other_changes(capacity, store, request, op, session, turns, ids);
        lemma_other_changes(
            capacity,
            store.with_session(session, turns),
            request,
            op,
            session,
            turns,
            ids,
        );
        lemma_with_store(
            app,
            thread_id,
            ThreadEventStoreView { pending: after_op(store.pending, op), ..store },
        );
        lemma_with_store(app, thread_id, store.with_session(session, turns).rebased());
        lemma_with_store(app, thread_id, store.rolled_back(turns));
        lemma_with_store(app, thread_id, store.with_all_stopped());
        lemma_with_store(app, thread_id, store.with_stopped(ids));
        let stopped = store.with_stopped(ids);
        let without = ThreadEventStoreView {
            input_state: match stopped.input_state {
                Some(state) => Some(state.without_terminal(process_id)),
                None => None,
            },
            ..stopped
        };
        assert(store_is_sound(capacity, without)) by {
            broadcast use Seq::lemma_filter_len;

        }
        lemma_with_store(app, thread_id, without);
        lemma_with_channel(
            app,
            ThreadChannelView {
                thread_id,
                has_receiver: false,
                store: ThreadEventStoreView { active: true, wakeups: Seq::empty(), ..store },
            },
        );
        lemma_with_channel(
            app,
            ThreadChannelView { thread_id, has_receiver: true, ..app.channel_of(thread_id)->0 },
        );
        lemma_without_active(app.with_store(thread_id, store.rolled_back(turns)));
    }
    lemma_without_active(app);
    lemma_activated(app, thread_id);
    if let Some(shown) = app.active_thread_id {
        lemma_left(app, shown, input);
        lemma_active_event(app, shown, event);
    }
}

proof fn lemma_event_taken_in(app: AppView, thread_id: ThreadId, event: ThreadBufferedEventView)
    requires
        app.is_sound(),
    ensures
        app.event_taken_in(thread_id, event).0.is_sound(),
{
    match event {
        ThreadBufferedEventView::Notification(notification) => {
            law_notification_concerns_its_thread(app, thread_id, notification);
        },
        ThreadBufferedEventView::Request(request) => {
            law_request_is_kept_or_turned_down(app, thread_id, request);
        },
        ThreadBufferedEventView::HistoryEntryResponse(response) => {
            if !app.is_closed(thread_id) {
                lemma_with_channel_for(app, thread_id);
                let ensured = app.with_channel_for(thread_id);
                lemma_store(ensured, thread_id);
                let store = ensured.store_of(thread_id)->0;
                lemma_history(app.channel_capacity, store, response);
                lemma_with_store(ensured, thread_id, store.buffered(event));
            }
        },
        ThreadBufferedEventView::FeedbackSubmission(_) => {},
    }
}

proof fn lemma_thread_active(app: AppView, thread_id: ThreadId, active: bool)
    requires
        app.is_sound(),
    ensures
        app.with_thread_active(thread_id, active).is_sound(),
{
    lemma_store(app, thread_id);
    if let Some(store) = app.store_of(thread_id) {
        lemma_with_store(app, thread_id, ThreadEventStoreView { active, ..store });
    }
}

proof fn lemma_without_active(app: AppView)
    requires
        app.is_sound(),
    ensures
        app.without_active().0.is_sound(),
{
    if let Some(shown) = app.active_thread_id {
        lemma_thread_active(app, shown, false);
    }
}

proof fn lemma_activated(app: AppView, thread_id: ThreadId)
    requires
        app.is_sound(),
    ensures
        app.activated(thread_id).0.is_sound(),
{
    lemma_thread_active(app, thread_id, true);
    let active = app.with_thread_active(thread_id, true);
    if let Some(channel) = active.channel_of(thread_id) {
        lemma_store(active, thread_id);
        lemma_channel_place(active.channels, thread_id);
        lemma_with_channel(
            active,
            ThreadChannelView { thread_id, has_receiver: false, ..channel },
        );
    }
}

proof fn lemma_events_taken_in(
    app: AppView,
    thread_id: ThreadId,
    events: Seq<ThreadBufferedEventView>,
)
    requires
        app.is_sound(),
    ensures
        app.events_taken_in(thread_id, events).0.is_sound(),
    decreases events.len(),
{
    if events.len() > 0 {
        lemma_events_taken_in(app, thread_id, events.drop_last());
        let before = app.events_taken_in(thread_id, events.drop_last()).0;
        lemma_event_taken_in(before, thread_id, events.last());
    }
}

/// The threads stay sound when the primary thread becomes known and what has waited for it is
/// taken in, when the client goes back to it, and whatever the server sends.
pub proof fn law_threads_stay_sound_around_the_primary_thread(
    app: AppView,
    session: ThreadSessionStateView,
    turns: Seq<TurnView>,
    cwd: CwdOverrideView,
    reflow: bool,
    failover: FailoverView,
    notification: ServerNotificationView,
    target: NotificationTargetView,
    servers: Seq<McpServerView>,
    thread_id: ThreadId,
    request: ServerRequestView,
    unsupported: Option<UnsupportedRequestView>,
)
    requires
        app.is_sound(),
    ensures
        app.primary_session_enqueued(session, turns, cwd, reflow).0.is_sound(),
        app.failover_ended(failover).0.is_sound(),
        app.server_notified(notification, target, servers).0.is_sound(),
        app.request_ended(thread_id, request, unsupported).0.is_sound(),
{
    let moved = ThreadSessionStateView {
        cwd: if cwd is Absent {
            session.cwd
        } else {
            app.config_cwd
        },
        ..session
    };
    lemma_primary_session_set(app, moved, turns);
    let known = app.primary_session_set(moved, turns).0;
    lemma_events_taken_in(
        AppView { pending_primary_events: Seq::empty(), ..known },
        session.thread_id,
        known.pending_primary_events,
    );
    lemma_without_active(app);
    if let Some(label) = failover.wake_label {
        lemma_subagent_ended(app, label, failover.closed_thread_id);
    }
    if let NotificationTargetView::Thread(id) = target {
        law_notification_concerns_its_thread(app, id, notification);
    }
    law_request_is_kept_or_turned_down(app, thread_id, request);
    if let Some(primary) = app.primary_thread_id {
        law_notification_concerns_its_thread(app, primary, notification);
        law_request_is_kept_or_turned_down(app, primary, request);
    }
}

proof fn lemma_primary_session_set(
    app: AppView,
    session: ThreadSessionStateView,
    turns: Seq<TurnView>,
)
    requires
        app.is_sound(),
    ensures
        app.primary_session_set(session, turns).0.is_sound(),
{
    let thread_id = session.thread_id;
    let named = AppView {
        primary_thread_id: Some(thread_id),
        primary_session: Some(session),
        ..app
    }.with_agent(
        AgentEntryView { thread_id, agent_nickname: None, agent_role: None, is_closed: false },
    );
    assert(named.is_sound());
    lemma_with_channel_for(named, thread_id);
    let known = named.with_channel_for(thread_id);
    lemma_store(known, thread_id);
    let store = known.store_of(thread_id)->0;
    lemma_other_changes(
        app.channel_capacity,
        store,
        arbitrary(),
        AppCommandView::Compact,
        session,
        turns,
        Seq::empty(),
    );
    lemma_with_store(known, thread_id, store.with_session(session, turns));
    lemma_activated(known.with_store(thread_id, store.with_session(session, turns)), thread_id);
}

proof fn lemma_left(app: AppView, shown: ThreadId, input: Option<ThreadInputStateView>)
    requires
        app.is_sound(),
        app.active_thread_id == Some(shown),
    ensures
        app.left(input).0.is_sound(),
{
    if let Some(channel) = app.channel_of(shown) {
        lemma_store(app, shown);
        let closed = channel.store.closed;
        let rested = ThreadEventStoreView {
            active: false,
            input_state: AppView::kept_input(input, closed),
            ..channel.store
        };
        let prompts = match input {
            Some(state) => if closed {
                Seq::empty()
            } else {
                state.queued_completion_prompts
            },
            None => Seq::empty(),
        };
        let pending = input matches Some(state) && state.user_turn_pending_start;
        assert(store_is_sound(app.channel_capacity, rested));
        lemma_prompts(app.channel_capacity, rested, pending, prompts);
        lemma_with_channel(
            app,
            ThreadChannelView {
                thread_id: shown,
                store: prompts_offered(rested, pending, prompts).0,
                has_receiver: channel.has_receiver || app.has_active_receiver,
            },
        );
    }
}

proof fn lemma_active_event(app: AppView, shown: ThreadId, event: ThreadBufferedEventView)
    requires
        app.is_sound(),
        app.active_thread_id == Some(shown),
    ensures
        app.active_event_taken(event).0.is_sound(),
{
    lemma_store(app, shown);
    if let ThreadBufferedEventView::Notification(notification) = event {
        if let Some(store) = app.store_of(shown) {
            lemma_notified(app.channel_capacity, store, notification);
            lemma_with_store(app, shown, store.notified(notification));
            lemma_with_store(app, shown, store.stopped_taken(notification));
        }
    }
}

/// The threads stay sound whatever comes of the user's commands: answers, calls that the server has
/// carried out, and tries to steer a turn. The one exception is a server that says which turn runs
/// on a thread that the client takes to be closed.
pub proof fn law_commands_keep_threads_sound(
    app: AppView,
    thread_id: ThreadId,
    op: AppCommandView,
    config: TurnConfigView,
    resolution: RequestResolutionView,
    supported: bool,
    attempt: SteerAttemptView,
    turn: UserTurnView,
    reply: SteerReplyView,
)
    requires
        app.is_sound(),
        reply is ExpectedTurnMismatch ==> !(app.store_of(attempt.thread_id) matches Some(store)
            && store.closed),
    ensures
        app.submission_resolved(thread_id, op, config, resolution).0.is_sound(),
        app.call_succeeded(thread_id, op).0.is_sound(),
        app.op_submitted(thread_id, op, supported).0.is_sound(),
        app.steered(attempt, turn, config, reply).0.is_sound(),
{
    law_threads_stay_sound(
        app,
        thread_id,
        ThreadBufferedEventView::Notification(ServerNotificationView::ThreadClosed),
        op,
        None,
        arbitrary(),
        Seq::empty(),
        0,
        false,
        Seq::empty(),
        None,
        Seq::empty(),
    );
    lemma_store(app, attempt.thread_id);
    if let Some(store) = app.store_of(attempt.thread_id) {
        let running = match reply {
            SteerReplyView::ExpectedTurnMismatch { actual_turn_id } => Some(actual_turn_id),
            _ => None,
        };
        lemma_with_store(
            app,
            attempt.thread_id,
            ThreadEventStoreView { active_turn_id: running, ..store },
        );
    }
}

/// A side conversation that was closed for good is not heard of again: what comes in for it
/// changes nothing.
pub proof fn law_discarded_thread_is_not_heard_of(
    app: AppView,
    thread_id: ThreadId,
    notification: ServerNotificationView,
    request: ServerRequestView,
    response: HistoryLookupResponseView,
)
    requires
        app.is_discarded(thread_id),
    ensures
        app.notified(thread_id, notification) == (app, Seq::<AppEffectView>::empty()),
        app.requested(thread_id, request) == (
            app,
            Seq::<AppEffectView>::empty(),
            ThreadRequestEnqueueResult::ThreadClosed,
        ),
        app.history_looked_up(thread_id, response) == (app, Seq::<AppEffectView>::empty()),
{
}

/// The client goes back to the primary thread exactly where the thread on screen has ended, is
/// not the primary one, and is not the one whose end the user has asked for in order to leave.
pub proof fn law_failover_rule(app: AppView, notification: ServerNotificationView)
    ensures
        app.failover_target(notification) is Some <==> {
            &&& notification is ThreadClosed
            &&& app.active_thread_id is Some
            &&& app.primary_thread_id is Some
            &&& app.active_thread_id != app.primary_thread_id
            &&& app.pending_shutdown_exit_thread_id != app.active_thread_id
        },
        app.failover_target(notification) matches Some((closed, primary)) ==> Some(closed)
            == app.active_thread_id && Some(primary) == app.primary_thread_id,
{
}

/// The wish to leave is fulfilled by the end of the thread whose end was asked for, and by nothing
/// else; and that end does not make the client go back to the primary thread.
pub proof fn law_exit_is_fulfilled_by_its_thread(
    app: AppView,
    thread_id: ThreadId,
    event: ThreadBufferedEventView,
)
    requires
        app.pending_shutdown_exit_thread_id == Some(thread_id),
    ensures
        ({
            let (next, step, _) = app.active_event_taken(event);
            &&& next.pending_shutdown_exit_thread_id is None <==> tells_end(event)
                && app.active_thread_id == Some(thread_id)
            &&& next.pending_shutdown_exit_thread_id is None ==> !(step is FailOver)
        }),
{
}

/// What comes in for the primary thread before it is known waits, in its order, and is taken in
/// once the thread is known; nothing waits from then on.
pub proof fn law_events_wait_for_the_primary_thread(
    app: AppView,
    notification: ServerNotificationView,
    session: ThreadSessionStateView,
    turns: Seq<TurnView>,
    reflow: bool,
)
    requires
        app.primary_thread_id is None,
    ensures
        app.primary_notified(notification).0.pending_primary_events
            == app.pending_primary_events.push(ThreadBufferedEventView::Notification(notification)),
        app.primary_notified(notification).1.len() == 0,
        ({
            let (known, _) = app.primary_session_set(session, turns);
            &&& known.pending_primary_events == app.pending_primary_events
            &&& app.primary_session_enqueued(session, turns, CwdOverrideView::Absent, reflow).0
                == (AppView { pending_primary_events: Seq::empty(), ..known }).events_taken_in(
                session.thread_id,
                app.pending_primary_events,
            ).0
            &&& app.primary_session_enqueued(
                session,
                turns,
                CwdOverrideView::Absent,
                reflow,
            ).0.pending_primary_events.len() == 0
        }),
{
    let (known, _) = app.primary_session_set(session, turns);
    let ready = AppView { pending_primary_events: Seq::empty(), ..known };
    lemma_nothing_waits(ready, session.thread_id, app.pending_primary_events);
    assert(ThreadSessionStateView { cwd: session.cwd, ..session } == session);
}

proof fn lemma_nothing_waits(
    app: AppView,
    thread_id: ThreadId,
    events: Seq<ThreadBufferedEventView>,
)
    ensures
        app.events_taken_in(thread_id, events).0.pending_primary_events
            == app.pending_primary_events,
    decreases events.len(),
{
    if events.len() > 0 {
        lemma_nothing_waits(app, thread_id, events.drop_last());
    }
}

/// The main agent is told of a subagent's end once: noting the same end again tells it nothing.
pub proof fn law_subagent_end_is_told_once(app: AppView, thread_id: ThreadId)
    ensures
        app.subagent_closed(thread_id).0.subagent_closed(thread_id).1 == seq![
            AppEffectView::AgentEntryChanged { thread_id },
        ],
{
    law_closing_is_news_once(app.agents, thread_id);
    let next = app.subagent_closed(thread_id).0;
    assert(next.agents == closed_in(app.agents, thread_id).0);
    assert(seq![AppEffectView::AgentEntryChanged { thread_id }] + Seq::<AppEffectView>::empty()
        =~= seq![AppEffectView::AgentEntryChanged { thread_id }]);
}

/// Whether no subagent waits twice to be told of.
pub open spec fn told_once_each(pending: Seq<PendingSubagentCompletionWakeupView>) -> bool {
    forall|i: int, j: int|
        0 <= i < j < pending.len() ==> (#[trigger] pending[i]).thread_id != (
        #[trigger] pending[j]).thread_id
}

/// No subagent waits twice to be told of.
pub proof fn law_subagent_waits_once(app: AppView, label: Seq<char>, thread_id: ThreadId)
    requires
        told_once_each(app.pending_subagent_wakeups),
    ensures
        told_once_each(app.subagent_ended(label, thread_id).0.pending_subagent_wakeups),
{
}

/// The threads that are said to wait for the user are exactly those, other than the one on screen
/// and the parent of the side conversation on screen, that are open and ask something.
pub proof fn law_waiting_threads_are_the_ones_that_ask(
    channels: Seq<ThreadChannelView>,
    active: Option<ThreadId>,
    side_parent: Option<ThreadId>,
    thread_id: ThreadId,
)
    ensures
        waiting_elsewhere(channels, active, side_parent).contains(thread_id) <==> exists|i: int|
            0 <= i < channels.len() && (#[trigger] channels[i]).thread_id == thread_id && Some(
                thread_id,
            ) != active && Some(thread_id) != side_parent && !channels[i].store.closed
                && asks_approval(channels[i].store.pending),
    decreases channels.len(),
{
    if channels.len() > 0 {
        let rest = channels.drop_last();
        let last = channels.len() - 1;
        law_waiting_threads_are_the_ones_that_ask(rest, active, side_parent, thread_id);
        let before = waiting_elsewhere(rest, active, side_parent);
        let all = waiting_elsewhere(channels, active, side_parent);
        let asks_now = |i: int|
            channels[i].thread_id == thread_id && Some(thread_id) != active && Some(thread_id)
                != side_parent && !channels[i].store.closed && asks_approval(
                channels[i].store.pending,
            );
        if all.contains(thread_id) {
            if before.contains(thread_id) {
                let i = choose|i: int|
                    0 <= i < rest.len() && (#[trigger] rest[i]).thread_id == thread_id && Some(
                        thread_id,
                    ) != active && Some(thread_id) != side_parent && !rest[i].store.closed
                        && asks_approval(rest[i].store.pending);
                assert(channels[i] == rest[i]);
            } else {
                let k = choose|k: int| 0 <= k < all.len() && all[k] == thread_id;
                if k < before.len() {
                    assert(before[k] == thread_id);
                }
                assert(channels[last].thread_id == thread_id);
            }
        }
        if exists|i: int| 0 <= i < channels.len() && #[trigger] asks_now(i) {
            let i = choose|i: int| 0 <= i < channels.len() && #[trigger] asks_now(i);
            if i < last {
                assert(rest[i] == channels[i]);
                let k = choose|k: int| 0 <= k < before.len() && before[k] == thread_id;
                assert(all[k] == thread_id);
            } else {
                assert(all[before.len() as int] == thread_id);
            }
        }
        assert(forall|i: int|
            0 <= i < channels.len() && (#[trigger] channels[i]).thread_id == thread_id && Some(
                thread_id,
            ) != active && Some(thread_id) != side_parent && !channels[i].store.closed
                && asks_approval(channels[i].store.pending) ==> asks_now(i));
    }
}

/// A request that is turned down before it is noted is answered with the reason, and the server
/// is told which request is meant; one that goes on comes from an open thread.
pub proof fn law_refused_request_is_answered(
    app: AppView,
    request: ServerRequestView,
    unsupported: Option<UnsupportedRequestView>,
    thread_id: Option<ThreadId>,
)
    ensures
        match app.request_begun(request, unsupported, thread_id) {
            (RequestStepView::Rejected, effects) => effects.len() > 0 && (match (
                unsupported,
                thread_id,
            ) {
                (Some(unsupported), _) => effects.last() == (AppEffectView::RejectRequest {
                    request_id: unsupported.request_id,
                    message: unsupported.message,
                }),
                (None, None) => effects.last() matches AppEffectView::RejectRequest {
                    request_id,
                    ..
                } && request_id == request_id_of(request),
                (None, Some(thread_id)) => app.is_closed(thread_id) && effects.last() == (
                AppEffectView::RejectRequest {
                    request_id: request_id_of(request),
                    message: closed_message(thread_id),
                }),
            }),
            (RequestStepView::Note { thread_id: noted }, effects) => effects.len() == 0
                && unsupported is None && thread_id == Some(noted) && !app.is_closed(noted),
        },
{
}

/// A request that was noted is kept for its thread or turned down, never both and never neither:
/// it waits where the primary thread is not known, is answered with the reason where its thread
/// is closed, and is in its thread's store otherwise.
pub proof fn law_noted_request_is_kept_or_answered(
    app: AppView,
    thread_id: ThreadId,
    request: ServerRequestView,
)
    requires
        app.is_sound(),
    ensures
        ({
            let (next, effects) = app.request_ended(thread_id, request, None);
            if app.primary_thread_id is None {
                &&& next.pending_primary_events == app.pending_primary_events.push(
                    ThreadBufferedEventView::Request(request),
                )
                &&& effects.len() == 0
            } else if app.is_closed(thread_id) {
                &&& next == app
                &&& effects == seq![
                    AppEffectView::DiscardPendingRequest { request_id: request_id_of(request) },
                    AppEffectView::RejectRequest {
                        request_id: request_id_of(request),
                        message: closed_message(thread_id),
                    },
                ]
            } else {
                &&& next.store_of(thread_id) == Some(
                    app.with_channel_for(thread_id).store_of(thread_id)->0.requested(request),
                )
                &&& effects == app.requested(thread_id, request).1
            }
        }),
{
    law_request_is_kept_or_turned_down(app, thread_id, request);
}

/// No prompt gets lost when an open thread is left, and their order is kept: where no turn runs or
/// is about to, the first one is submitted under the thread's session, and all others wait.
pub proof fn law_leaving_loses_no_prompt(
    store: ThreadEventStoreView,
    turn_start_pending: bool,
    prompts: Seq<Seq<char>>,
)
    requires
        !store.closed,
        store.session is Some,
    ensures
        ({
            let (next, ops) = prompts_offered(store, turn_start_pending, prompts);
            let waits = turn_start_pending || store.busy() || prompts.len() == 0;
            &&& waits ==> ops.len() == 0 && next.wakeups == store.wakeups + prompts
            &&& !waits ==> ops == seq![wakeup_turn(store.session->0, prompts[0])] && next.wakeups
                == store.wakeups + prompts.skip(1)
            &&& next == (ThreadEventStoreView {
                wakeups: next.wakeups,
                wakeup_in_flight: store.wakeup_in_flight || !waits,
                ..store
            })
        }),
    decreases prompts.len(),
{
    if prompts.len() > 0 {
        let rest = prompts.drop_last();
        law_leaving_loses_no_prompt(store, turn_start_pending, rest);
        let (before, ops) = prompts_offered(store, turn_start_pending, rest);
        if turn_start_pending || store.busy() {
            assert((store.wakeups + rest).push(prompts.last()) =~= store.wakeups + prompts);
        } else if rest.len() == 0 {
            assert(ops =~= Seq::<AppCommandView>::empty());
            assert(store.wakeups + rest =~= store.wakeups + prompts.skip(1));
            assert(ops.push(wakeup_turn(store.session->0, prompts[0])) =~= seq![
                wakeup_turn(store.session->0, prompts[0]),
            ]);
        } else {
            assert(rest[0] == prompts[0]);
            assert((store.wakeups + rest.skip(1)).push(prompts.last()) =~= store.wakeups
                + prompts.skip(1));
        }
    } else {
        assert(store.wakeups + prompts =~= store.wakeups);
    }
}

/// A thread that is left and shown again comes back as it was left: with what the user has
/// written, and, unless it is closed, with the terminals that run on it.
pub proof fn law_thread_comes_back_as_it_was_left(
    app: AppView,
    thread_id: ThreadId,
    input: Option<ThreadInputStateView>,
)
    requires
        app.active_thread_id == Some(thread_id),
        app.channel_of(thread_id) matches Some(channel) && (channel.has_receiver
            || app.has_active_receiver),
    ensures
        app.left(input).0.replay_activated(thread_id).1 matches Some(snapshot) && {
            &&& written(snapshot.input_state) == written(input)
            &&& snapshot.session == app.store_of(thread_id)->0.session
            &&& snapshot.turns == app.store_of(thread_id)->0.turns
            &&& !app.store_of(thread_id)->0.closed && input is Some ==> {
                snapshot.input_state is Some && snapshot.input_state->0.terminals
                    == input->0.terminals
            }
        },
{
    let channel = app.channel_of(thread_id)->0;
    let closed = channel.store.closed;
    let rested = ThreadEventStoreView {
        active: false,
        input_state: AppView::kept_input(input, closed),
        ..channel.store
    };
    let prompts = match input {
        Some(state) => if closed {
            Seq::empty()
        } else {
            state.queued_completion_prompts
        },
        None => Seq::empty(),
    };
    let pending = input matches Some(state) && state.user_turn_pending_start;
    lemma_prompts_leave_the_rest(rested, pending, prompts);
    lemma_channel_place(app.channels, thread_id);
    let left = app.left(input).0;
    let place = channel_place(app.channels, thread_id);
    assert forall|i: int| 0 <= i < place implies (#[trigger] left.channels[i]).thread_id
        != thread_id by {
        assert(left.channels[i] == app.channels[i]);
    }
    lemma_channel_place_is(left.channels, thread_id, place);
}

/// Offering prompts changes nothing but what waits and what is kept of prompts.
proof fn lemma_prompts_leave_the_rest(
    store: ThreadEventStoreView,
    turn_start_pending: bool,
    prompts: Seq<Seq<char>>,
)
    ensures
        ({
            let next = prompts_offered(store, turn_start_pending, prompts).0;
            &&& next.session == store.session
            &&& next.turns == store.turns
            &&& next.closed == store.closed
            &&& written(next.input_state) == written(store.input_state)
            &&& match (next.input_state, store.input_state) {
                (Some(after), Some(before)) => after.terminals == before.terminals,
                (None, None) => true,
                _ => false,
            }
        }),
    decreases prompts.len(),
{
    if prompts.len() > 0 {
        lemma_prompts_leave_the_rest(store, turn_start_pending, prompts.drop_last());
    }
}

} // verus!
