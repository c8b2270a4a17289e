//! What threads and agents are called, and what the lists of them show.
use crate::agent_navigation::{
    agent_name, closed_in, entry_of, is_marked_closed, label_on_screen, law_entry_is_the_latest,
    AgentEntryView,
};
use crate::app_state::{
    channel_place, lemma_channel_place, lemma_channel_place_is, parent_of, AppView, SideThread,
    ThreadChannelView,
};
use crate::effects::AppEffectView;
use crate::input_state::BackgroundTerminalActivitySummaryView;
use crate::listings::{
    is_subagent, sorted_ids, subagent_summary, terminals_elsewhere, waiting_elsewhere,
};
use crate::text::trimmed;
use crate::thread_events::ThreadEventStoreView;
use crate::thread_id::{short_id_text, ThreadId};
use vstd::prelude::*;

verus! {

/// The main agent is called so. Any other is called by its nickname and, in brackets, its role, as
/// far as they say something; where neither does, it is just an agent. White space around them does
/// not count.
pub proof fn law_agent_is_called_by_nickname_and_role(nickname: Seq<char>, role: Seq<char>)
    ensures
        forall|any: Option<Seq<char>>, other: Option<Seq<char>>| #[trigger]
            agent_name(any, other, true) == "Main [default]"@,
        agent_name(None, None, false) == "Agent"@,
        trimmed(nickname).len() > 0 ==> agent_name(Some(nickname), None, false) == trimmed(
            nickname,
        ),
        trimmed(role).len() > 0 ==> agent_name(None, Some(role), false) == "["@ + trimmed(role)
            + "]"@,
        trimmed(nickname).len() > 0 && trimmed(role).len() > 0 ==> agent_name(
            Some(nickname),
            Some(role),
            false,
        ) == trimmed(nickname) + " ["@ + trimmed(role) + "]"@,
        trimmed(nickname).len() == 0 ==> agent_name(Some(nickname), Some(role), false)
            == agent_name(None, Some(role), false) && agent_name(Some(nickname), None, false)
            == agent_name(None, None, false),
        trimmed(role).len() == 0 ==> agent_name(Some(nickname), Some(role), false) == agent_name(
            Some(nickname),
            None,
            false,
        ) && agent_name(None, Some(role), false) == agent_name(None, None, false),
{
}

/// What is known of a thread is the first entry with its id.
pub proof fn law_first_entry_of_a_thread_counts(
    entries: Seq<AgentEntryView>,
    thread_id: ThreadId,
    i: int,
)
    ensures
        0 <= i < entries.len() && entries[i].thread_id == thread_id && (forall|j: int|
            0 <= j < i ==> (#[trigger] entries[j]).thread_id != thread_id) ==> entry_of(
            entries,
            thread_id,
        ) == Some(entries[i]),
        (forall|j: int| 0 <= j < entries.len() ==> (#[trigger] entries[j]).thread_id != thread_id)
            ==> entry_of(entries, thread_id) is None,
    decreases entries.len(),
{
    if entries.len() > 0 && entries[0].thread_id != thread_id {
        let rest = entries.skip(1);
        law_first_entry_of_a_thread_counts(rest, thread_id, i - 1);
        if 0 <= i < entries.len() && entries[i].thread_id == thread_id && (forall|j: int|
            0 <= j < i ==> (#[trigger] entries[j]).thread_id != thread_id) {
            assert(rest[i - 1] == entries[i]);
            assert forall|j: int| 0 <= j < i - 1 implies (#[trigger] rest[j]).thread_id
                != thread_id by {
                assert(rest[j] == entries[j + 1]);
            }
        }
        if forall|j: int| 0 <= j < entries.len() ==> (#[trigger] entries[j]).thread_id
            != thread_id {
            assert forall|j: int| 0 <= j < rest.len() implies (#[trigger] rest[j]).thread_id
                != thread_id by {
                assert(rest[j] == entries[j + 1]);
            }
        }
    }
}

/// An agent that closes keeps its nickname and its role; one that was not known gets an entry with
/// neither. It is news exactly where it did not count as closed before. Other agents stay as they
/// are.
pub proof fn law_closing_keeps_the_name(
    entries: Seq<AgentEntryView>,
    thread_id: ThreadId,
    other: ThreadId,
)
    ensures
        ({
            let (next, changed) = closed_in(entries, thread_id);
            &&& match entry_of(entries, thread_id) {
                Some(entry) => {
                    &&& entry_of(next, thread_id) matches Some(closed)
                    &&& closed.is_closed
                    &&& closed.agent_nickname == entry.agent_nickname
                    &&& closed.agent_role == entry.agent_role
                    &&& changed == !entry.is_closed
                },
                None => {
                    &&& entry_of(next, thread_id) matches Some(closed)
                    &&& closed.is_closed
                    &&& closed.agent_nickname is None
                    &&& closed.agent_role is None
                    &&& changed
                },
            }
            &&& other != thread_id ==> entry_of(next, other) == entry_of(entries, other)
            &&& is_marked_closed(entries, thread_id) <==> entry_of(entries, thread_id) is Some
                && entry_of(entries, thread_id)->0.is_closed
        }),
{
    lemma_entry_id(entries, thread_id);
    let closed = match entry_of(entries, thread_id) {
        Some(entry) => AgentEntryView { is_closed: true, ..entry },
        None => AgentEntryView {
            thread_id,
            agent_nickname: None,
            agent_role: None,
            is_closed: true,
        },
    };
    law_entry_is_the_latest(entries, closed, other);
}

proof fn lemma_entry_id(entries: Seq<AgentEntryView>, thread_id: ThreadId)
    ensures
        entry_of(entries, thread_id) matches Some(entry) ==> entry.thread_id == thread_id,
    decreases entries.len(),
{
    if entries.len() > 0 {
        lemma_entry_id(entries.skip(1), thread_id);
    }
}

/// The agent on screen is named where there is more than one to tell apart: by what is known of it,
/// and as the main one where it is.
pub proof fn law_agent_on_screen_is_named(
    entries: Seq<AgentEntryView>,
    thread_id: ThreadId,
    primary: Option<ThreadId>,
)
    ensures
        label_on_screen(entries, None, primary) is None,
        entries.len() <= 1 ==> label_on_screen(entries, Some(thread_id), primary) is None,
        entries.len() > 1 ==> label_on_screen(entries, Some(thread_id), primary) == Some(
            match entry_of(entries, thread_id) {
                Some(entry) => agent_name(
                    entry.agent_nickname,
                    entry.agent_role,
                    primary == Some(thread_id),
                ),
                None => agent_name(None, None, primary == Some(thread_id)),
            },
        ),
{
}

/// A thread is called by the name of its agent; one that has none is told apart by the start of its
/// id. The main thread is called so, whether anything is known of it or not.
pub proof fn law_thread_is_called_by_its_agent(app: AppView, thread_id: ThreadId)
    ensures
        ({
            let label = app.label_of(thread_id);
            let is_main = app.primary_thread_id == Some(thread_id);
            &&& is_main ==> label == "Main [default]"@
            &&& !is_main && entry_of(app.agents, thread_id) is None ==> label == "Agent ("@
                + short_id_text(thread_id) + ")"@
            &&& !is_main && entry_of(app.agents, thread_id) is Some ==> {
                let entry = entry_of(app.agents, thread_id)->0;
                let name = agent_name(entry.agent_nickname, entry.agent_role, false);
                &&& name != "Agent"@ ==> label == name
                &&& name == "Agent"@ ==> label == "Agent"@ + " ("@ + short_id_text(thread_id)
                    + ")"@
            }
            &&& app.subagent_name(thread_id) == match entry_of(app.agents, thread_id) {
                Some(entry) => agent_name(entry.agent_nickname, entry.agent_role, false),
                None => "Agent"@,
            }
        }),
{
    reveal_strlit("Main [default]");
    reveal_strlit("Agent");
    assert("Main [default]"@[0] != "Agent"@[0]);
}

/// The thread on screen is the one whose events are read and, while threads are switched, the one
/// that the screen shows. A side conversation has the parent that it was opened from.
pub proof fn law_what_is_on_screen(app: AppView)
    ensures
        app.active_thread_id is Some ==> app.displayed() == app.active_thread_id,
        app.active_thread_id is None ==> app.displayed() == app.widget_thread_id,
        app.displayed() is None ==> app.side_parent() is None,
        app.displayed() is Some ==> app.side_parent() == parent_of(
            app.side_threads,
            app.displayed()->0,
        ),
{
}

/// The parent of a side conversation is that of the first entry with its id.
pub proof fn law_side_conversation_has_its_parent(
    side_threads: Seq<SideThread>,
    thread_id: ThreadId,
    i: int,
)
    ensures
        0 <= i < side_threads.len() && side_threads[i].thread_id == thread_id && (forall|j: int|
            0 <= j < i ==> (#[trigger] side_threads[j]).thread_id != thread_id) ==> parent_of(
            side_threads,
            thread_id,
        ) == Some(side_threads[i].parent_thread_id),
        (forall|j: int|
            0 <= j < side_threads.len() ==> (#[trigger] side_threads[j]).thread_id != thread_id)
            ==> parent_of(side_threads, thread_id) is None,
    decreases side_threads.len(),
{
    if side_threads.len() > 0 && side_threads[0].thread_id != thread_id {
        let rest = side_threads.skip(1);
        law_side_conversation_has_its_parent(rest, thread_id, i - 1);
        if 0 <= i < side_threads.len() && side_threads[i].thread_id == thread_id && (forall|j: int|
            0 <= j < i ==> (#[trigger] side_threads[j]).thread_id != thread_id) {
            assert(rest[i - 1] == side_threads[i]);
            assert forall|j: int| 0 <= j < i - 1 implies (#[trigger] rest[j]).thread_id
                != thread_id by {
                assert(rest[j] == side_threads[j + 1]);
            }
        }
        if forall|j: int| 0 <= j < side_threads.len() ==> (#[trigger] side_threads[j]).thread_id
            != thread_id {
            assert forall|j: int| 0 <= j < rest.len() implies (#[trigger] rest[j]).thread_id
                != thread_id by {
                assert(rest[j] == side_threads[j + 1]);
            }
        }
    }
}

/// A thread counts as closed where it was discarded, where its agent is marked closed, and where its
/// store is closed; and only there. Side conversations are those that are listed.
pub proof fn law_when_a_thread_counts_as_closed(app: AppView, thread_id: ThreadId, i: int)
    ensures
        app.is_closed(thread_id) <==> app.discarded.contains(thread_id) || (entry_of(
            app.agents,
            thread_id,
        ) is Some && entry_of(app.agents, thread_id)->0.is_closed) || (app.store_of(
            thread_id,
        ) is Some && app.store_of(thread_id)->0.closed),
        app.is_discarded(thread_id) <==> app.discarded.contains(thread_id),
        0 <= i < app.side_threads.len() && app.side_threads[i].thread_id == thread_id
            ==> app.is_side(thread_id),
        (forall|j: int|
            0 <= j < app.side_threads.len() ==> (#[trigger] app.side_threads[j]).thread_id
                != thread_id) ==> !app.is_side(thread_id),
{
}

/// The channel of a thread is the first with its id, and its store is the one in it. Where another
/// store is put in its place, that is the thread's store, and every other channel, the receiver of
/// this one and all else stay. A thread without a channel gets one at the end, with an empty store
/// and its receiver.
pub proof fn law_store_belongs_to_its_thread(
    app: AppView,
    thread_id: ThreadId,
    store: ThreadEventStoreView,
    other: ThreadId,
    i: int,
)
    ensures
        0 <= i < app.channels.len() && app.channels[i].thread_id == thread_id && (forall|j: int|
            0 <= j < i ==> (#[trigger] app.channels[j]).thread_id != thread_id) ==> app.channel_of(
            thread_id,
        ) == Some(app.channels[i]) && app.store_of(thread_id) == Some(app.channels[i].store),
        (forall|j: int|
            0 <= j < app.channels.len() ==> (#[trigger] app.channels[j]).thread_id != thread_id)
            ==> app.channel_of(thread_id) is None && app.store_of(thread_id) is None,
        app.channel_of(thread_id) is Some ==> app.with_store(thread_id, store).channel_of(thread_id)
            == Some(
            ThreadChannelView {
                thread_id,
                store,
                has_receiver: app.channel_of(thread_id)->0.has_receiver,
            },
        ),
        app.channel_of(thread_id) is None ==> app.with_store(thread_id, store) == app,
        other != thread_id ==> app.with_store(thread_id, store).channel_of(other)
            == app.channel_of(other),
        app.with_store(thread_id, store) == (AppView {
            channels: app.with_store(thread_id, store).channels,
            ..app
        }),
        app.channel_of(thread_id) is Some ==> app.with_channel_for(thread_id) == app,
        app.channel_of(thread_id) is None ==> app.with_channel_for(thread_id) == (AppView {
            channels: app.channels.push(
                ThreadChannelView {
                    thread_id,
                    store: ThreadEventStoreView::empty(app.channel_capacity),
                    has_receiver: true,
                },
            ),
            ..app
        }),
{
    lemma_channel_place(app.channels, thread_id);
    lemma_channel_place(app.channels, other);
    let place = channel_place(app.channels, thread_id);
    if 0 <= i < app.channels.len() && app.channels[i].thread_id == thread_id && (forall|j: int|
        0 <= j < i ==> (#[trigger] app.channels[j]).thread_id != thread_id) {
        lemma_channel_place_is(app.channels, thread_id, i);
    }
    if forall|j: int|
        0 <= j < app.channels.len() ==> (#[trigger] app.channels[j]).thread_id != thread_id {
        lemma_channel_place_is(app.channels, thread_id, app.channels.len() as int);
    }
    if app.has_store(thread_id) {
        let next = app.with_store(thread_id, store);
        assert(forall|j: int|
            0 <= j < app.channels.len() ==> (#[trigger] next.channels[j]).thread_id
                == app.channels[j].thread_id);
        lemma_channel_place_is(next.channels, thread_id, place);
        if other != thread_id {
            lemma_channel_place_is(next.channels, other, channel_place(app.channels, other));
        }
    }
}

/// The terminals that are listed are those of the other open threads, thread after thread.
pub proof fn law_terminals_of_other_threads_are_listed(
    app: AppView,
    channels: Seq<ThreadChannelView>,
    channel: ThreadChannelView,
    active: Option<ThreadId>,
    k: int,
)
    ensures
        terminals_elsewhere(Seq::empty(), active).len() == 0,
        ({
            let before = terminals_elsewhere(channels, active);
            let all = terminals_elsewhere(channels.push(channel), active);
            let hidden = Some(channel.thread_id) == active || channel.store.closed
                || channel.store.input_state is None;
            let terminals = channel.store.input_state->0.terminals;
            &&& hidden ==> all == before
            &&& !hidden ==> all.len() == before.len() + terminals.len() && before.is_prefix_of(all)
            &&& !hidden && 0 <= k < terminals.len() ==> {
                let listed: BackgroundTerminalActivitySummaryView = all[before.len() + k];
                &&& listed.thread_id == channel.thread_id
                &&& listed.command_display == terminals[k].command
                &&& terminals[k].process_id is Some ==> listed.process_id
                    == terminals[k].process_id->0
                &&& terminals[k].process_id is None ==> listed.process_id == terminals[k].call_id
            }
        }),
        app.terminals_listed() == (AppEffectView::SetBackgroundTerminals {
            current: app.active_thread_id,
            terminals: terminals_elsewhere(app.channels, app.active_thread_id),
        }),
{
    let before = terminals_elsewhere(channels, active);
    let all = terminals_elsewhere(channels.push(channel), active);
    assert(channels.push(channel).drop_last() =~= channels);
    assert(all.subrange(0, before.len() as int) =~= before);
}

/// The threads that wait for the user are listed by what they are called, one label for each.
pub proof fn law_waiting_threads_are_listed_by_name(app: AppView, i: int)
    ensures
        app.approvals_listed() == (AppEffectView::SetPendingThreadApprovals {
            labels: app.waiting_labels(),
        }),
        ({
            let ids = sorted_ids(
                waiting_elsewhere(
                    app.channels,
                    app.active_thread_id,
                    app.side_parent(),
                ),
            );
            &&& app.waiting_labels().len() == ids.len()
            &&& 0 <= i < ids.len() ==> app.waiting_labels()[i] == app.label_of(ids[i])
        }),
{
}

/// The agents that are listed are all but the main one and those of side conversations, in their
/// order, each with its thread, its name and whether it is closed; counted are those that are not
/// closed. The label is that of the agent on screen.
pub proof fn law_agents_are_listed(app: AppView, entry: AgentEntryView)
    ensures
        ({
            let shown = app.agents_listed();
            &&& shown.len() == 4
            &&& shown[0] == (AppEffectView::SetActiveAgentLabel {
                shown: label_on_screen(app.agents, app.displayed(), app.primary_thread_id),
            })
            &&& shown[1] == (AppEffectView::SetActiveSubagentCount {
                count: app.subagents().filter(
                    |entry: AgentEntryView| !entry.is_closed,
                ).len() as usize,
            })
            &&& shown[2] matches AppEffectView::SetSubagentSummaries { subagents }
            &&& subagents.len() == app.subagents().len()
            &&& forall|i: int|
                0 <= i < subagents.len() ==> (#[trigger] subagents[i]).thread_id
                    == app.subagents()[i].thread_id && subagents[i].is_closed
                    == app.subagents()[i].is_closed && subagents[i].label == agent_name(
                    app.subagents()[i].agent_nickname,
                    app.subagents()[i].agent_role,
                    false,
                )
            &&& shown[3] == AppEffectView::SyncSideThreadUi
        }),
        app.subagents() == app.agents.filter(|entry: AgentEntryView| is_subagent(app, entry)),
        is_subagent(app, entry) <==> Some(entry.thread_id) != app.primary_thread_id && !app.is_side(
            entry.thread_id,
        ),
        subagent_summary(entry).thread_id == entry.thread_id,
{
}

} // verus!
