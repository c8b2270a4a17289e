//! How often the server is asked for the nickname and the role of an agent.
use crate::active_thread::{CwdOverrideView, FailoverView};
use crate::agent_navigation::{
    entry_of, is_marked_closed, law_entry_is_the_latest, AgentEntryView,
};
use crate::app_state::AppView;
use crate::effects::AppEffectView;
use crate::input_state::ThreadInputStateView;
use crate::op_submission::{
    RequestResolutionView, SteerAttemptView, SteerReplyView, TurnConfigView,
};
use crate::protocol::{
    AppCommandView, HistoryLookupResponseView, ServerNotificationView, ServerRequestView,
    ThreadBufferedEventView, ThreadSessionStateView, TurnView, UserTurnView,
};
use crate::replay::AgentMetadataView;
use crate::server_events::{McpServerView, NotificationTargetView, UnsupportedRequestView};
use crate::thread_events::{ThreadEventSnapshotView, ThreadEventStoreView};
use crate::thread_id::ThreadId;
use vstd::prelude::*;

verus! {

/// Once a thread was named, its agent is not to be asked about, whatever the server replies and
/// also where it does not: either the nickname or the role was known, or it was asked for.
pub proof fn law_agent_is_asked_about_once(
    app: AppView,
    thread_id: ThreadId,
    reply: Option<AgentMetadataView>,
)
    ensures
        ({
            let (tried, asks) = app.metadata_tried(thread_id);
            &&& asks <==> app.asks_metadata(thread_id)
            &&& asks <==> tried.asked != app.asked
            &&& asks ==> tried.asked.contains(thread_id)
            &&& !tried.asks_metadata(thread_id)
            &&& asks ==> !tried.metadata_read(thread_id, reply).0.asks_metadata(thread_id)
        }),
{
    if app.asks_metadata(thread_id) {
        let asked = app.metadata_tried(thread_id).0.asked;
        assert(asked.last() == thread_id);
        assert(asked.len() != app.asked.len());
    }
}

/// An agent whose nickname or role is known is not asked about.
pub proof fn law_known_agent_is_not_asked_about(app: AppView, thread_id: ThreadId)
    requires
        !app.lacks_metadata(thread_id),
    ensures
        app.metadata_tried(thread_id) == (app, false),
{
}

/// What the server says of an agent is what is known of it afterwards; where it says nothing,
/// nothing changes and nobody is told.
pub proof fn law_reply_is_registered(
    app: AppView,
    thread_id: ThreadId,
    metadata: AgentMetadataView,
)
    ensures
        app.metadata_read(thread_id, None) == (app, None::<AppEffectView>),
        entry_of(app.metadata_read(thread_id, Some(metadata)).0.agents, thread_id) == Some(
            AgentEntryView {
                thread_id,
                agent_nickname: metadata.agent_nickname,
                agent_role: metadata.agent_role,
                is_closed: metadata.not_loaded || is_marked_closed(app.agents, thread_id),
            },
        ),
{
    let entry = AgentEntryView {
        thread_id,
        agent_nickname: metadata.agent_nickname,
        agent_role: metadata.agent_role,
        is_closed: metadata.not_loaded || is_marked_closed(app.agents, thread_id),
    };
    law_entry_is_the_latest(app.agents, entry, thread_id);
}

/// An agent lacks a name where nothing is known of it, or neither a nickname nor a role; it is asked
/// about where it does and was not asked about before.
pub proof fn law_which_agents_lack_a_name(app: AppView, thread_id: ThreadId)
    ensures
        app.lacks_metadata(thread_id) <==> entry_of(app.agents, thread_id) is None || (entry_of(
            app.agents,
            thread_id,
        )->0.agent_nickname is None && entry_of(app.agents, thread_id)->0.agent_role is None),
        app.asks_metadata(thread_id) <==> app.lacks_metadata(thread_id) && !app.asked.contains(
            thread_id,
        ),
{
}

/// What the server says of an agent changes the agents alone, and the screen is told of it.
pub proof fn law_reply_changes_the_agents_alone(
    app: AppView,
    thread_id: ThreadId,
    metadata: AgentMetadataView,
    entry: AgentEntryView,
)
    ensures
        ({
            let (next, effect) = app.metadata_read(thread_id, Some(metadata));
            &&& next == (AppView { agents: next.agents, ..app })
            &&& effect == Some(AppEffectView::AgentEntryChanged { thread_id })
            &&& metadata.not_loaded ==> is_marked_closed(next.agents, thread_id)
            &&& !metadata.not_loaded ==> (is_marked_closed(next.agents, thread_id)
                <==> is_marked_closed(app.agents, thread_id))
        }),
        ({
            let next = app.with_agent(entry);
            &&& next == (AppView { agents: next.agents, ..app })
            &&& entry_of(next.agents, entry.thread_id) == Some(entry)
            &&& thread_id != entry.thread_id ==> entry_of(next.agents, thread_id) == entry_of(
                app.agents,
                thread_id,
            )
        }),
{
    law_reply_is_registered(app, thread_id, metadata);
    law_entry_is_the_latest(app.agents, entry, thread_id);
}

/// The threads that the server is asked about on account of one notification are different from
/// each other, were never asked about before, have neither a nickname nor a role, and are noted
/// behind all those that were asked about before. No thread that the notification names is to be
/// asked about afterwards.
pub proof fn law_receivers_are_asked_about_once(app: AppView, receivers: Seq<ThreadId>)
    ensures
        ({
            let (next, asked) = app.receivers_tried(receivers);
            &&& next == (AppView { asked: app.asked + asked, ..app })
            &&& asked.no_duplicates()
            &&& forall|i: int|
                0 <= i < asked.len() ==> receivers.contains(#[trigger] asked[i])
                    && app.asks_metadata(asked[i])
            &&& forall|i: int|
                0 <= i < receivers.len() ==> !next.asks_metadata(#[trigger] receivers[i])
        }),
    decreases receivers.len(),
{
    let (next, asked) = app.receivers_tried(receivers);
    if receivers.len() == 0 {
        assert(app.asked + asked =~= app.asked);
    } else {
        let rest = receivers.drop_last();
        let id = receivers.last();
        law_receivers_are_asked_about_once(app, rest);
        let (before, earlier) = app.receivers_tried(rest);
        let asks = before.metadata_tried(id).1;
        assert(receivers[rest.len() as int] == id);
        assert forall|i: int| 0 <= i < earlier.len() implies receivers.contains(
            #[trigger] earlier[i],
        ) && app.asks_metadata(earlier[i]) by {
            assert(rest.contains(earlier[i]));
            let j = choose|j: int| 0 <= j < rest.len() && rest[j] == earlier[i];
            assert(receivers[j] == earlier[i]);
        }
        if asks {
            assert(next.asked =~= app.asked + asked);
            assert(next.asked.last() == id);
            assert forall|i: int| 0 <= i < earlier.len() implies earlier[i] != id by {
                assert(before.asked[app.asked.len() + i] == earlier[i]);
            }
            assert forall|i: int| 0 <= i < app.asked.len() implies app.asked[i] != id by {
                assert(before.asked[i] == app.asked[i]);
            }
            assert(app.lacks_metadata(id));
        }
        assert forall|i: int| 0 <= i < receivers.len() implies !next.asks_metadata(
            #[trigger] receivers[i],
        ) by {
            if i < rest.len() {
                assert(receivers[i] == rest[i]);
                assert(!before.asks_metadata(rest[i]));
                if before.asked.contains(rest[i]) {
                    let k = choose|k: int|
                        0 <= k < before.asked.len() && before.asked[k] == rest[i];
                    assert(next.asked[k] == rest[i]);
                }
            }
        }
    }
}

/// Asking about agents leaves a client's threads sound, so that over a whole session the server is
/// asked about no thread twice.
pub proof fn law_no_thread_is_asked_about_twice(
    app: AppView,
    receivers: Seq<ThreadId>,
    thread_id: ThreadId,
    reply: Option<AgentMetadataView>,
)
    requires
        app.is_sound(),
    ensures
        app.receivers_tried(receivers).0.is_sound(),
        app.metadata_tried(thread_id).0.is_sound(),
        app.metadata_read(thread_id, reply).0.is_sound(),
{
    law_receivers_are_asked_about_once(app, receivers);
    let (next, asked) = app.receivers_tried(receivers);
    assert forall|i: int, j: int|
        0 <= i < next.asked.len() && 0 <= j < next.asked.len() && i != j implies next.asked[i]
        != next.asked[j] by {
        let first = app.asked.len();
        if i < first && first <= j {
            assert(app.asks_metadata(asked[j - first]));
            assert(app.asked.contains(app.asked[i]));
        } else if j < first && first <= i {
            assert(app.asks_metadata(asked[i - first]));
            assert(app.asked.contains(app.asked[j]));
        }
    }
}

/// Whether a step leaves alone which threads were asked about, so that an agent that was asked
/// about is not to be asked about afterwards either.
pub open spec fn forgets_no_question(app: AppView, next: AppView, asked_id: ThreadId) -> bool {
    &&& next.asked == app.asked
    &&& app.asked.contains(asked_id) ==> !next.asks_metadata(asked_id)
}

/// An agent that was asked about is not to be asked about again after anything that comes in for
/// a thread: notifications, requests, entries of the message history, and what the server says of
/// agents.
pub proof fn law_incoming_events_forget_no_question(
    app: AppView,
    asked_id: ThreadId,
    thread_id: ThreadId,
    notification: ServerNotificationView,
    request: ServerRequestView,
    response: HistoryLookupResponseView,
    event: ThreadBufferedEventView,
    reply: Option<AgentMetadataView>,
)
    ensures
        forgets_no_question(app, app.notified(thread_id, notification).0, asked_id),
        forgets_no_question(app, app.requested(thread_id, request).0, asked_id),
        forgets_no_question(app, app.history_looked_up(thread_id, response).0, asked_id),
        forgets_no_question(app, app.event_taken_in(thread_id, event).0, asked_id),
        forgets_no_question(app, app.active_event_taken(event).0, asked_id),
        forgets_no_question(app, app.stopped_taken(event), asked_id),
        forgets_no_question(app, app.metadata_read(thread_id, reply).0, asked_id),
{
    lemma_incoming_events_forget_no_question(app, thread_id, event, notification, request);
}

proof fn lemma_incoming_events_forget_no_question(
    app: AppView,
    thread_id: ThreadId,
    event: ThreadBufferedEventView,
    notification: ServerNotificationView,
    request: ServerRequestView,
)
    ensures
        app.notified(thread_id, notification).0.asked == app.asked,
        app.requested(thread_id, request).0.asked == app.asked,
        app.event_taken_in(thread_id, event).0.asked == app.asked,
{
}

/// The same holds after the primary thread becomes known and what has waited for it is taken in,
/// and after whatever the server sends.
pub proof fn law_server_messages_forget_no_question(
    app: AppView,
    asked_id: ThreadId,
    session: ThreadSessionStateView,
    turns: Seq<TurnView>,
    cwd: CwdOverrideView,
    reflow: bool,
    notification: ServerNotificationView,
    target: NotificationTargetView,
    servers: Seq<McpServerView>,
    thread_id: ThreadId,
    request: ServerRequestView,
    unsupported: Option<UnsupportedRequestView>,
)
    ensures
        forgets_no_question(
            app,
            app.primary_session_enqueued(session, turns, cwd, reflow).0,
            asked_id,
        ),
        forgets_no_question(app, app.primary_notified(notification).0, asked_id),
        forgets_no_question(app, app.primary_requested(request).0, asked_id),
        forgets_no_question(
            app,
            app.server_notified(notification, target, servers).0,
            asked_id,
        ),
        forgets_no_question(
            app,
            app.request_ended(thread_id, request, unsupported).0,
            asked_id,
        ),
{
    let moved = ThreadSessionStateView {
        cwd: if cwd is Absent {
            session.cwd
        } else {
            app.config_cwd
        },
        ..session
    };
    let event = ThreadBufferedEventView::Notification(notification);
    lemma_primary_session_forgets_no_question(app, moved, turns);
    let known = app.primary_session_set(moved, turns).0;
    lemma_waiting_events_forget_no_question(
        AppView { pending_primary_events: Seq::empty(), ..known },
        session.thread_id,
        known.pending_primary_events,
    );
    lemma_incoming_events_forget_no_question(app, thread_id, event, notification, request);
    if let NotificationTargetView::Thread(id) = target {
        lemma_incoming_events_forget_no_question(app, id, event, notification, request);
    }
    if let Some(primary) = app.primary_thread_id {
        lemma_incoming_events_forget_no_question(app, primary, event, notification, request);
    }
}

proof fn lemma_primary_session_forgets_no_question(
    app: AppView,
    session: ThreadSessionStateView,
    turns: Seq<TurnView>,
)
    ensures
        app.primary_session_set(session, turns).0.asked == app.asked,
{
}

proof fn lemma_waiting_events_forget_no_question(
    app: AppView,
    thread_id: ThreadId,
    events: Seq<ThreadBufferedEventView>,
)
    ensures
        app.events_taken_in(thread_id, events).0.asked == app.asked,
    decreases events.len(),
{
    if events.len() > 0 {
        lemma_waiting_events_forget_no_question(app, thread_id, events.drop_last());
        lemma_incoming_events_forget_no_question(
            app.events_taken_in(thread_id, events.drop_last()).0,
            thread_id,
            events.last(),
            ServerNotificationView::ThreadClosed,
            arbitrary(),
        );
    }
}

/// The same holds after threads are shown, left, shown again, refreshed, rolled back and ended,
/// and after terminals are stopped.
pub proof fn law_switching_threads_forgets_no_question(
    app: AppView,
    asked_id: ThreadId,
    thread_id: ThreadId,
    active: bool,
    input: Option<ThreadInputStateView>,
    snapshot: ThreadEventSnapshotView,
    resume_restored_queue: bool,
    reflow: bool,
    session: ThreadSessionStateView,
    turns: Seq<TurnView>,
    num_turns: u32,
    disconnected: bool,
    failover: FailoverView,
    label: Seq<char>,
    changed: bool,
    store: ThreadEventStoreView,
    process_id: Seq<char>,
    call_id: Option<Seq<char>>,
    command_display: Seq<char>,
)
    ensures
        forgets_no_question(app, app.with_channel_for(thread_id), asked_id),
        forgets_no_question(app, app.with_store(thread_id, store), asked_id),
        forgets_no_question(app, app.with_thread_active(thread_id, active), asked_id),
        forgets_no_question(app, app.activated(thread_id).0, asked_id),
        forgets_no_question(app, app.without_active().0, asked_id),
        forgets_no_question(app, app.left(input).0, asked_id),
        forgets_no_question(app, app.replay_activated(thread_id).0, asked_id),
        forgets_no_question(app, app.replayed(snapshot, resume_restored_queue, reflow).0, asked_id),
        forgets_no_question(app, app.session_refreshed(thread_id, session, turns), asked_id),
        forgets_no_question(
            app,
            app.rolled_back(thread_id, num_turns, turns, disconnected).0,
            asked_id,
        ),
        forgets_no_question(app, app.drained(thread_id, disconnected).0, asked_id),
        forgets_no_question(app, app.failover_ended(failover).0, asked_id),
        forgets_no_question(app, app.subagent_ended(label, thread_id).0, asked_id),
        forgets_no_question(app, app.subagent_closed(thread_id).0, asked_id),
        forgets_no_question(app, app.closed_subagent_told(thread_id, changed).0, asked_id),
        forgets_no_question(
            app,
            app.terminal_stopped(thread_id, process_id, call_id, command_display).0,
            asked_id,
        ),
        forgets_no_question(app, app.terminals_stopped(thread_id).0, asked_id),
{
}

/// The same holds after whatever the user asks of a thread.
pub proof fn law_commands_forget_no_question(
    app: AppView,
    asked_id: ThreadId,
    thread_id: ThreadId,
    op: AppCommandView,
    config: TurnConfigView,
    resolution: RequestResolutionView,
    supported: bool,
    attempt: SteerAttemptView,
    turn: UserTurnView,
    reply: SteerReplyView,
)
    ensures
        forgets_no_question(app, app.with_op_noted(thread_id, op), asked_id),
        forgets_no_question(
            app,
            app.submission_resolved(thread_id, op, config, resolution).0,
            asked_id,
        ),
        forgets_no_question(app, app.call_succeeded(thread_id, op).0, asked_id),
        forgets_no_question(app, app.op_submitted(thread_id, op, supported).0, asked_id),
        forgets_no_question(app, app.steered(attempt, turn, config, reply).0, asked_id),
{
}

} // verus!
