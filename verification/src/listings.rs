//! What the screen lists about threads: running terminals, threads that wait, and subagents.
use crate::agent_navigation::{
    agent_name, format_agent_picker_item_name, label_on_screen, same_id, AgentEntryView,
};
use crate::app_state::{App, AppView, ThreadChannelView};
use crate::collections::Duplicate;
use crate::effects::{
    no_effects, push_effect, AppEffect, AppEffectView, SubagentActivitySummary,
    SubagentActivitySummaryView,
};
use crate::input_state::{
    summary_of, BackgroundTerminalActivitySummary, BackgroundTerminalActivitySummaryView,
    TrackedTerminalView,
};
use crate::pending_replay::asks_approval;
use crate::thread_id::{id_text, law_id_text_keeps_order, text_before, ThreadId};
use vstd::prelude::*;

verus! {

/// The terminals that run on threads other than `active`.
pub open spec fn terminals_elsewhere(channels: Seq<ThreadChannelView>, active: Option<ThreadId>) -> Seq<
    BackgroundTerminalActivitySummaryView,
>
    decreases channels.len(),
{
    if channels.len() == 0 {
        Seq::empty()
    } else {
        let before = terminals_elsewhere(channels.drop_last(), active);
        let channel = channels.last();
        if Some(channel.thread_id) == active || channel.store.closed {
            before
        } else {
            match channel.store.input_state {
                Some(state) => before + state.terminals.map_values(
                    |t: TrackedTerminalView| summary_of(channel.thread_id, t),
                ),
                None => before,
            }
        }
    }
}

/// The threads, other than `active` and `side_parent`, that wait for the user to allow something.
pub open spec fn waiting_elsewhere(
    channels: Seq<ThreadChannelView>,
    active: Option<ThreadId>,
    side_parent: Option<ThreadId>,
) -> Seq<ThreadId>
    decreases channels.len(),
{
    if channels.len() == 0 {
        Seq::empty()
    } else {
        let before = waiting_elsewhere(channels.drop_last(), active, side_parent);
        let channel = channels.last();
        if Some(channel.thread_id) != active && Some(channel.thread_id) != side_parent
            && !channel.store.closed && asks_approval(channel.store.pending) {
            before.push(channel.thread_id)
        } else {
            before
        }
    }
}

/// `sorted` with `id` behind the ids that are not greater.
pub open spec fn with_id_sorted(sorted: Seq<ThreadId>, id: ThreadId) -> Seq<ThreadId>
    decreases sorted.len(),
{
    if sorted.len() == 0 || sorted.last().value <= id.value {
        sorted.push(id)
    } else {
        with_id_sorted(sorted.drop_last(), id).push(sorted.last())
    }
}

/// The ids in the order of their texts.
pub open spec fn sorted_ids(ids: Seq<ThreadId>) -> Seq<ThreadId>
    decreases ids.len(),
{
    if ids.len() == 0 {
        Seq::empty()
    } else {
        with_id_sorted(sorted_ids(ids.drop_last()), ids.last())
    }
}

/// Whether an agent is a subagent: neither the primary one nor a side conversation.
pub open spec fn is_subagent(app: AppView, entry: AgentEntryView) -> bool {
    Some(entry.thread_id) != app.primary_thread_id && !app.is_side(entry.thread_id)
}

/// What a list of subagents shows of an agent.
pub open spec fn subagent_summary(entry: AgentEntryView) -> SubagentActivitySummaryView {
    SubagentActivitySummaryView {
        thread_id: entry.thread_id,
        label: agent_name(entry.agent_nickname, entry.agent_role, false),
        is_closed: entry.is_closed,
    }
}

impl AppView {
    /// The step that lists the running terminals.
    pub open spec fn terminals_listed(self) -> AppEffectView {
        AppEffectView::SetBackgroundTerminals {
            current: self.active_thread_id,
            terminals: terminals_elsewhere(self.channels, self.active_thread_id),
        }
    }

    /// The names of the threads that wait for the user, in the order of the threads' ids.
    pub open spec fn waiting_labels(self) -> Seq<Seq<char>> {
        sorted_ids(
            waiting_elsewhere(self.channels, self.active_thread_id, self.side_parent()),
        ).map_values(|id: ThreadId| self.label_of(id))
    }

    /// The step that lists the threads that wait for the user.
    pub open spec fn approvals_listed(self) -> AppEffectView {
        AppEffectView::SetPendingThreadApprovals { labels: self.waiting_labels() }
    }

    /// The subagents, in the order in which they came up.
    pub open spec fn subagents(self) -> Seq<AgentEntryView> {
        self.agents.filter(|entry: AgentEntryView| is_subagent(self, entry))
    }

    /// The steps that show which agents there are and which of them is on screen.
    pub open spec fn agents_listed(self) -> Seq<AppEffectView> {
        seq![
            AppEffectView::SetActiveAgentLabel {
                shown: label_on_screen(self.agents, self.displayed(), self.primary_thread_id),
            },
            AppEffectView::SetActiveSubagentCount {
                count: self.subagents().filter(
                    |entry: AgentEntryView| !entry.is_closed,
                ).len() as usize,
            },
            AppEffectView::SetSubagentSummaries {
                subagents: self.subagents().map_values(|entry: AgentEntryView| subagent_summary(entry)),
            },
            AppEffectView::SyncSideThreadUi,
        ]
    }
}

/// Puts an id in its place among sorted ids.
fn insert_sorted(ids: &mut Vec<ThreadId>, id: ThreadId)
    ensures
        final(ids)@ == with_id_sorted(old(ids)@, id),
{
    let ghost all = ids@;
    let mut place: usize = ids.len();
    assert(all.take(place as int) =~= all);
    assert(with_id_sorted(all, id) =~= with_id_sorted(all.take(place as int), id) + all.skip(
        place as int,
    ));
    while place > 0 && ids[place - 1].value > id.value
        invariant
            place <= all.len(),
            ids@ == all,
            with_id_sorted(all, id) == with_id_sorted(all.take(place as int), id) + all.skip(
                place as int,
            ),
        decreases place,
    {
        let ghost taken = all.take(place as int);
        assert(taken.drop_last() =~= all.take(place - 1));
        assert(taken.last() == all[place - 1]);
        assert(with_id_sorted(all.take(place - 1), id).push(all[place - 1]) + all.skip(place as int)
            =~= with_id_sorted(all.take(place - 1), id) + all.skip(place - 1));
        place = place - 1;
    }
    let ghost taken = all.take(place as int);
    assert(with_id_sorted(taken, id) == taken.push(id));
    ids.insert(place, id);
    assert(ids@ =~= taken.push(id) + all.skip(place as int));
}

impl App {
    /// Lists the running terminals: those of the thread on screen, and those of all other
    /// threads.
    pub fn sync_background_terminal_activity_summaries(&self) -> (effect: AppEffect)
        ensures
            effect.deep_view() == self@.terminals_listed(),
    {
        let ghost all = self@.channels;
        let mut summaries: Vec<BackgroundTerminalActivitySummary> = Vec::new();
        assert(summaries.deep_view() =~= Seq::<BackgroundTerminalActivitySummaryView>::empty());
        let mut i: usize = 0;
        while i < self.thread_event_channels.len()
            invariant
                i <= self.thread_event_channels@.len(),
                all == self@.channels,
                summaries.deep_view() == terminals_elsewhere(
                    all.take(i as int),
                    self@.active_thread_id,
                ),
            decreases self.thread_event_channels@.len() - i,
        {
            let channel = &self.thread_event_channels[i];
            assert(channel.deep_view() == all[i as int]);
            assert(all.take(i + 1).drop_last() =~= all.take(i as int));
            assert(all.take(i + 1).last() == all[i as int]);
            if !same_id(self.active_thread_id, channel.thread_id) && !channel.store.is_closed() {
                if let Some(state) = &channel.store.input_state {
                    let more = state.background_terminal_activity_summaries(channel.thread_id);
                    let ghost before = summaries.deep_view();
                    let ghost added = more.deep_view();
                    let mut k: usize = 0;
                    assert(before + added.take(0) =~= before);
                    while k < more.len()
                        invariant
                            k <= more@.len(),
                            added == more.deep_view(),
                            summaries.deep_view() == before + added.take(k as int),
                        decreases more@.len() - k,
                    {
                        let ghost so_far = summaries.deep_view();
                        summaries.push(more[k].duplicate());
                        assert(summaries.deep_view() =~= so_far.push(added[k as int]));
                        assert(before + added.take(k + 1) =~= so_far.push(added[k as int]));
                        k = k + 1;
                    }
                    assert(added.take(k as int) =~= added);
                }
            }
            i = i + 1;
        }
        assert(all.take(i as int) =~= all);
        AppEffect::SetBackgroundTerminals { current: self.active_thread_id, terminals: summaries }
    }

    /// Lists the threads that wait for the user, in the order of their ids. The thread on screen
    /// is not listed, nor the one that the side conversation on screen was opened from.
    pub fn refresh_pending_thread_approvals(&self) -> (effect: AppEffect)
        ensures
            effect.deep_view() == self@.approvals_listed(),
    {
        let side_parent = self.active_side_parent_thread_id();
        let ghost all = self@.channels;
        let ghost active = self@.active_thread_id;
        let mut ids: Vec<ThreadId> = Vec::new();
        let mut i: usize = 0;
        assert(waiting_elsewhere(all.take(0), active, side_parent).len() == 0);
        while i < self.thread_event_channels.len()
            invariant
                i <= self.thread_event_channels@.len(),
                all == self@.channels,
                active == self@.active_thread_id,
                ids@ == sorted_ids(waiting_elsewhere(all.take(i as int), active, side_parent)),
            decreases self.thread_event_channels@.len() - i,
        {
            let channel = &self.thread_event_channels[i];
            let ghost before = waiting_elsewhere(all.take(i as int), active, side_parent);
            assert(channel.deep_view() == all[i as int]);
            assert(all.take(i + 1).drop_last() =~= all.take(i as int));
            assert(all.take(i + 1).last() == all[i as int]);
            if !same_id(self.active_thread_id, channel.thread_id) && !same_id(
                side_parent,
                channel.thread_id,
            ) && channel.store.has_pending_thread_approvals() {
                assert(before.push(channel.thread_id).drop_last() =~= before);
                insert_sorted(&mut ids, channel.thread_id);
            }
            i = i + 1;
        }
        assert(all.take(i as int) =~= all);
        let ghost name = |id: ThreadId| self@.label_of(id);
        let mut labels: Vec<String> = Vec::new();
        let mut k: usize = 0;
        while k < ids.len()
            invariant
                k <= ids@.len(),
                name == (|id: ThreadId| self@.label_of(id)),
                labels.deep_view() == ids@.take(k as int).map_values(name),
            decreases ids@.len() - k,
        {
            let ghost before = labels.deep_view();
            labels.push(self.thread_label(ids[k]));
            assert(labels.deep_view() =~= before.push(name(ids@[k as int])));
            assert(ids@.take(k + 1).map_values(name) =~= before.push(name(ids@[k as int])));
            k = k + 1;
        }
        assert(ids@.take(k as int) =~= ids@);
        AppEffect::SetPendingThreadApprovals { labels }
    }

    /// Shows which agents there are and which of them is on screen. The label of the one on
    /// screen is left out while there is only one; the count is of the subagents that have not
    /// ended.
    pub fn sync_active_agent_label(&self) -> (effects: Vec<AppEffect>)
        ensures
            effects.deep_view() == self@.agents_listed(),
    {
        let label = self.agent_navigation.active_agent_label(
            self.current_displayed_thread_id(),
            self.primary_thread_id,
        );
        let ghost all = self@.agents;
        let ghost wanted = |entry: AgentEntryView| is_subagent(self@, entry);
        let ghost running = |entry: AgentEntryView| !entry.is_closed;
        let ghost show = |entry: AgentEntryView| subagent_summary(entry);
        let mut count: usize = 0;
        let mut summaries: Vec<SubagentActivitySummary> = Vec::new();
        let mut i: usize = 0;
        proof {
            reveal(Seq::filter);
            assert(summaries.deep_view() =~= all.take(0).filter(wanted).map_values(show));
            assert(all.take(0).filter(wanted).filter(running).len() == 0);
        }
        while i < self.agent_navigation.entries.len()
            invariant
                i <= self.agent_navigation.entries@.len(),
                count <= i,
                all == self@.agents,
                wanted == (|entry: AgentEntryView| is_subagent(self@, entry)),
                running == (|entry: AgentEntryView| !entry.is_closed),
                show == (|entry: AgentEntryView| subagent_summary(entry)),
                summaries.deep_view() == all.take(i as int).filter(wanted).map_values(show),
                count == all.take(i as int).filter(wanted).filter(running).len(),
            decreases self.agent_navigation.entries@.len() - i,
        {
            let entry = &self.agent_navigation.entries[i];
            let ghost kept = all.take(i as int).filter(wanted);
            let ghost before = summaries.deep_view();
            proof {
                assert(entry.deep_view() == all[i as int]);
                assert(all.take(i + 1).drop_last() =~= all.take(i as int));
                assert(all.take(i + 1).filter(wanted) == (if wanted(all[i as int]) {
                    kept.push(all[i as int])
                } else {
                    kept
                })) by {
                    reveal(Seq::filter);
                }
                assert(kept.push(all[i as int]).filter(running) == (if running(all[i as int]) {
                    kept.filter(running).push(all[i as int])
                } else {
                    kept.filter(running)
                })) by {
                    reveal(Seq::filter);
                    assert(kept.push(all[i as int]).drop_last() =~= kept);
                }
            }
            if !same_id(self.primary_thread_id, entry.thread_id) && !self.is_side_thread(
                entry.thread_id,
            ) {
                if !entry.is_closed {
                    count = count + 1;
                }
                let summary = SubagentActivitySummary {
                    thread_id: entry.thread_id,
                    label: format_agent_picker_item_name(
                        &entry.agent_nickname,
                        &entry.agent_role,
                        false,
                    ),
                    is_closed: entry.is_closed,
                };
                assert(summary.deep_view() == show(all[i as int]));
                summaries.push(summary);
                assert(summaries.deep_view() =~= before.push(show(all[i as int])));
                assert(kept.push(all[i as int]).map_values(show) =~= before.push(
                    show(all[i as int]),
                ));
            }
            i = i + 1;
        }
        assert(all.take(i as int) =~= all);
        let mut effects = no_effects();
        push_effect(&mut effects, AppEffect::SetActiveAgentLabel { shown: label });
        push_effect(&mut effects, AppEffect::SetActiveSubagentCount { count });
        push_effect(&mut effects, AppEffect::SetSubagentSummaries { subagents: summaries });
        push_effect(&mut effects, AppEffect::SyncSideThreadUi);
        assert(effects.deep_view() =~= self@.agents_listed());
        effects
    }
}

/// Whether ids stand in ascending order.
pub open spec fn in_id_order(ids: Seq<ThreadId>) -> bool {
    forall|i: int, j: int|
        0 <= i < j < ids.len() ==> (#[trigger] ids[i]).value <= (#[trigger] ids[j]).value
}

/// The threads that wait are listed in the order of the texts of their ids, every one of them
/// and no other.
pub proof fn law_waiting_threads_are_listed_in_order(ids: Seq<ThreadId>)
    ensures
        forall|i: int, j: int|
            0 <= i < j < sorted_ids(ids).len() ==> ({
                let a = #[trigger] sorted_ids(ids)[i];
                let b = #[trigger] sorted_ids(ids)[j];
                a == b || text_before(id_text(a), id_text(b))
            }),
        sorted_ids(ids).to_multiset() == ids.to_multiset(),
{
    lemma_sorted(ids);
    assert forall|i: int, j: int| 0 <= i < j < sorted_ids(ids).len() implies ({
        let a = #[trigger] sorted_ids(ids)[i];
        let b = #[trigger] sorted_ids(ids)[j];
        a == b || text_before(id_text(a), id_text(b))
    }) by {
        let a = sorted_ids(ids)[i];
        let b = sorted_ids(ids)[j];
        if a.value < b.value {
            law_id_text_keeps_order(a, b);
        }
    }
}

proof fn lemma_sorted(ids: Seq<ThreadId>)
    ensures
        in_id_order(sorted_ids(ids)),
        sorted_ids(ids).to_multiset() == ids.to_multiset(),
    decreases ids.len(),
{
    if ids.len() > 0 {
        let before = sorted_ids(ids.drop_last());
        lemma_sorted(ids.drop_last());
        lemma_with_id_sorted(before, ids.last());
        assert(ids.drop_last().push(ids.last()) =~= ids);
        ids.drop_last().to_multiset_ensures();
    } else {
        assert(ids =~= Seq::<ThreadId>::empty());
    }
}

proof fn lemma_with_id_sorted(sorted: Seq<ThreadId>, id: ThreadId)
    requires
        in_id_order(sorted),
    ensures
        in_id_order(with_id_sorted(sorted, id)),
        with_id_sorted(sorted, id).to_multiset() == sorted.to_multiset().insert(id),
        forall|i: int|
            0 <= i < with_id_sorted(sorted, id).len() ==> (#[trigger] with_id_sorted(
                sorted,
                id,
            )[i]) == id || sorted.contains(with_id_sorted(sorted, id)[i]),
    decreases sorted.len(),
{
    sorted.to_multiset_ensures();
    if sorted.len() == 0 || sorted.last().value <= id.value {
        assert forall|i: int| 0 <= i < sorted.push(id).len() implies (#[trigger] sorted.push(id)[i])
            == id || sorted.contains(sorted.push(id)[i]) by {
            if i < sorted.len() {
                assert(sorted.push(id)[i] == sorted[i]);
            }
        }
        if sorted.len() > 0 {
            assert(forall|i: int| 0 <= i < sorted.len() ==> (#[trigger] sorted[i]).value <= sorted.last().value);
        }
    } else {
        let rest = sorted.drop_last();
        let last = sorted.last();
        let next = with_id_sorted(rest, id);
        lemma_with_id_sorted(rest, id);
        assert(rest.push(last) =~= sorted);
        rest.to_multiset_ensures();
        next.to_multiset_ensures();
        assert(next.push(last).to_multiset() =~= sorted.to_multiset().insert(id));
        assert forall|i: int| 0 <= i < next.len() implies (#[trigger] next[i]).value
            <= last.value by {
            if next[i] != id {
                let j = choose|j: int| 0 <= j < rest.len() && rest[j] == next[i];
                assert(sorted[j] == rest[j]);
            }
        }
        assert forall|i: int| 0 <= i < next.push(last).len() implies (#[trigger] next.push(last)[i])
            == id || sorted.contains(next.push(last)[i]) by {
            if i < next.len() {
                if next[i] != id {
                    let j = choose|j: int| 0 <= j < rest.len() && rest[j] == next[i];
                    assert(sorted[j] == next[i]);
                }
            } else {
                assert(sorted[sorted.len() - 1] == last);
            }
        }
    }
}

} // verus!
