//! The agents that the user can switch between, and what they are called.
use crate::collections::Duplicate;
use crate::text::{trim, trimmed};
use crate::thread_id::ThreadId;
use vstd::prelude::*;
use vstd::string::{StrSliceExecFns, StringExecFns};

verus! {

/// An agent that the user can switch to.
#[derive(Debug, PartialEq, Eq)]
pub struct AgentEntry {
    pub thread_id: ThreadId,
    pub agent_nickname: Option<String>,
    pub agent_role: Option<String>,
    /// Whether its thread has ended.
    pub is_closed: bool,
}

/// What a [`AgentEntry`] means.
#[verifier::ext_equal]
pub ghost struct AgentEntryView {
    pub thread_id: ThreadId,
    pub agent_nickname: Option<Seq<char>>,
    pub agent_role: Option<Seq<char>>,
    pub is_closed: bool,
}

impl DeepView for AgentEntry {
    type V = AgentEntryView;

    open spec fn deep_view(&self) -> AgentEntryView {
        AgentEntryView {
            thread_id: self.thread_id,
            agent_nickname: self.agent_nickname.deep_view(),
            agent_role: self.agent_role.deep_view(),
            is_closed: self.is_closed,
        }
    }
}

impl Duplicate for AgentEntry {
    fn duplicate(&self) -> AgentEntry {
        AgentEntry {
            thread_id: self.thread_id,
            agent_nickname: self.agent_nickname.duplicate(),
            agent_role: self.agent_role.duplicate(),
            is_closed: self.is_closed,
        }
    }
}

/// A name without the white space around it, where anything is left of it.
pub open spec fn shown_name(name: Option<Seq<char>>) -> Option<Seq<char>> {
    match name {
        Some(name) => if trimmed(name).len() == 0 {
            None
        } else {
            Some(trimmed(name))
        },
        None => None,
    }
}

/// What an agent is called.
pub open spec fn agent_name(
    agent_nickname: Option<Seq<char>>,
    agent_role: Option<Seq<char>>,
    is_primary: bool,
) -> Seq<char> {
    if is_primary {
        "Main [default]"@
    } else {
        match (shown_name(agent_nickname), shown_name(agent_role)) {
            (Some(nickname), Some(role)) => nickname + " ["@ + role + "]"@,
            (Some(nickname), None) => nickname,
            (None, Some(role)) => "["@ + role + "]"@,
            (None, None) => "Agent"@,
        }
    }
}

/// The entry of a thread.
pub open spec fn entry_of(entries: Seq<AgentEntryView>, thread_id: ThreadId) -> Option<AgentEntryView>
    decreases entries.len(),
{
    if entries.len() == 0 {
        None
    } else if entries[0].thread_id == thread_id {
        Some(entries[0])
    } else {
        entry_of(entries.skip(1), thread_id)
    }
}

/// The entries with `entry` in the place of the one for the same thread.
pub open spec fn replaced(entries: Seq<AgentEntryView>, entry: AgentEntryView) -> Seq<AgentEntryView> {
    entries.map_values(
        |e: AgentEntryView|
            if e.thread_id == entry.thread_id {
                entry
            } else {
                e
            },
    )
}

/// The entries with `entry` in the place of the one for the same thread, or at the end where
/// there is none.
pub open spec fn upserted(entries: Seq<AgentEntryView>, entry: AgentEntryView) -> Seq<AgentEntryView> {
    if entry_of(entries, entry.thread_id) is Some {
        replaced(entries, entry)
    } else {
        entries.push(entry)
    }
}

/// The entries once a thread has ended, and whether that is news.
pub open spec fn closed_in(entries: Seq<AgentEntryView>, thread_id: ThreadId) -> (
    Seq<AgentEntryView>,
    bool,
) {
    match entry_of(entries, thread_id) {
        Some(entry) => (
            upserted(entries, AgentEntryView { is_closed: true, ..entry }),
            !entry.is_closed,
        ),
        None => (
            upserted(
                entries,
                AgentEntryView { thread_id, agent_nickname: None, agent_role: None, is_closed: true },
            ),
            true,
        ),
    }
}

/// Whether an entry says that its thread has ended.
pub open spec fn is_marked_closed(entries: Seq<AgentEntryView>, thread_id: ThreadId) -> bool {
    entry_of(entries, thread_id) matches Some(entry) && entry.is_closed
}

/// What the thread on screen is called. Nothing, where there is only one thread to be on.
pub open spec fn label_on_screen(
    entries: Seq<AgentEntryView>,
    displayed: Option<ThreadId>,
    primary: Option<ThreadId>,
) -> Option<Seq<char>> {
    match displayed {
        Some(thread_id) => if entries.len() <= 1 {
            None
        } else {
            match entry_of(entries, thread_id) {
                Some(entry) => Some(
                    agent_name(entry.agent_nickname, entry.agent_role, primary == Some(thread_id)),
                ),
                None => Some(agent_name(None, None, primary == Some(thread_id))),
            }
        },
        None => None,
    }
}

/// A name without the white space around it, where anything is left of it.
fn name_to_show(name: &Option<String>) -> (shown: Option<String>)
    ensures
        shown.deep_view() == shown_name(name.deep_view()),
{
    match name {
        Some(name) => {
            let name = trim(name.as_str());
            if name.unicode_len() == 0 {
                None
            } else {
                Some(name.to_owned())
            }
        },
        None => None,
    }
}

/// What an agent is called: by its nickname and its role, as far as they are known. The agent
/// that the user talks to first is the main one.
pub fn format_agent_picker_item_name(
    agent_nickname: &Option<String>,
    agent_role: &Option<String>,
    is_primary: bool,
) -> (name: String)
    ensures
        name@ == agent_name(agent_nickname.deep_view(), agent_role.deep_view(), is_primary),
{
    if is_primary {
        return "Main [default]".to_owned();
    }
    match (name_to_show(agent_nickname), name_to_show(agent_role)) {
        (Some(nickname), Some(role)) => nickname.concat(" [").concat(role.as_str()).concat("]"),
        (Some(nickname), None) => nickname,
        (None, Some(role)) => "[".to_owned().concat(role.as_str()).concat("]"),
        (None, None) => "Agent".to_owned(),
    }
}

/// The agents that the user can switch between, in the order in which they came up.
#[derive(Debug)]
pub struct AgentNavigationState {
    pub entries: Vec<AgentEntry>,
}

impl View for AgentNavigationState {
    type V = Seq<AgentEntryView>;

    open spec fn view(&self) -> Seq<AgentEntryView> {
        self.entries.deep_view()
    }
}

impl AgentNavigationState {
    /// No agents.
    pub fn new() -> (state: AgentNavigationState)
        ensures
            state@ == Seq::<AgentEntryView>::empty(),
    {
        let state = AgentNavigationState { entries: Vec::new() };
        assert(state@ =~= Seq::<AgentEntryView>::empty());
        state
    }

    /// The entry of a thread.
    pub fn get(&self, thread_id: ThreadId) -> (entry: Option<AgentEntry>)
        ensures
            entry.deep_view() == entry_of(self@, thread_id),
    {
        let ghost all = self@;
        let mut i: usize = 0;
        assert(all.skip(0) =~= all);
        while i < self.entries.len()
            invariant
                i <= self.entries@.len(),
                all == self@,
                entry_of(all, thread_id) == entry_of(all.skip(i as int), thread_id),
            decreases self.entries@.len() - i,
        {
            assert(all.skip(i as int)[0] == self.entries@[i as int].deep_view());
            assert(all.skip(i as int).skip(1) =~= all.skip(i + 1));
            if self.entries[i].thread_id == thread_id {
                return Some(self.entries[i].duplicate());
            }
            i = i + 1;
        }
        assert(all.skip(i as int).len() == 0);
        None
    }

    /// Whether an entry says that its thread has ended.
    pub fn is_closed(&self, thread_id: ThreadId) -> (closed: bool)
        ensures
            closed == is_marked_closed(self@, thread_id),
    {
        match self.get(thread_id) {
            Some(entry) => entry.is_closed,
            None => false,
        }
    }

    /// Takes over what is known of a thread.
    pub fn upsert(&mut self, entry: AgentEntry)
        ensures
            final(self)@ == upserted(old(self)@, entry.deep_view()),
    {
        let ghost all = self@;
        let ghost new = entry.deep_view();
        if self.get(entry.thread_id).is_none() {
            self.entries.push(entry);
            assert(self@ =~= all.push(new));
            return;
        }
        let ghost change = |e: AgentEntryView|
            if e.thread_id == new.thread_id {
                new
            } else {
                e
            };
        let mut next: Vec<AgentEntry> = Vec::new();
        let mut i: usize = 0;
        while i < self.entries.len()
            invariant
                i <= self.entries@.len(),
                all == self@,
                new == entry.deep_view(),
                change == (|e: AgentEntryView|
                    if e.thread_id == new.thread_id {
                        new
                    } else {
                        e
                    }),
                next.deep_view() == all.take(i as int).map_values(change),
            decreases self.entries@.len() - i,
        {
            let ghost before = next.deep_view();
            let kept = &self.entries[i];
            assert(kept.deep_view() == all[i as int]);
            if kept.thread_id == entry.thread_id {
                next.push(entry.duplicate());
            } else {
                next.push(kept.duplicate());
            }
            assert(next.deep_view() =~= before.push(change(all[i as int])));
            assert(all.take(i + 1).map_values(change) =~= before.push(change(all[i as int])));
            i = i + 1;
        }
        assert(all.take(i as int) =~= all);
        assert(all.map_values(change) =~= replaced(all, new));
        self.entries = next;
    }

    /// Notes that a thread has ended, and says whether that is news.
    pub fn mark_closed(&mut self, thread_id: ThreadId) -> (changed: bool)
        ensures
            (final(self)@, changed) == closed_in(old(self)@, thread_id),
    {
        match self.get(thread_id) {
            Some(entry) => {
                let changed = !entry.is_closed;
                self.upsert(
                    AgentEntry {
                        thread_id: entry.thread_id,
                        agent_nickname: entry.agent_nickname,
                        agent_role: entry.agent_role,
                        is_closed: true,
                    },
                );
                changed
            },
            None => {
                self.upsert(
                    AgentEntry {
                        thread_id,
                        agent_nickname: None,
                        agent_role: None,
                        is_closed: true,
                    },
                );
                true
            },
        }
    }

    /// What the thread on screen is called. The label is hidden until there is more than one
    /// known thread, so that no space is spent on saying that the user is on the only one.
    pub fn active_agent_label(&self, displayed: Option<ThreadId>, primary: Option<ThreadId>) -> (label:
        Option<String>)
        ensures
            label.deep_view() == label_on_screen(self@, displayed, primary),
    {
        match displayed {
            Some(thread_id) => {
                if self.entries.len() <= 1 {
                    return None;
                }
                let is_primary = same_id(primary, thread_id);
                match self.get(thread_id) {
                    Some(entry) => Some(
                        format_agent_picker_item_name(
                            &entry.agent_nickname,
                            &entry.agent_role,
                            is_primary,
                        ),
                    ),
                    None => Some(format_agent_picker_item_name(&None, &None, is_primary)),
                }
            },
            None => None,
        }
    }
}

/// Whether an id is there and is `thread_id`.
pub fn same_id(id: Option<ThreadId>, thread_id: ThreadId) -> (result: bool)
    ensures
        result == (id == Some(thread_id)),
{
    match id {
        Some(id) => id == thread_id,
        None => false,
    }
}

/// What is known of a thread is what was last taken over for it, and of every other thread what
/// was known before.
pub proof fn law_entry_is_the_latest(
    entries: Seq<AgentEntryView>,
    entry: AgentEntryView,
    other: ThreadId,
)
    ensures
        entry_of(upserted(entries, entry), entry.thread_id) == Some(entry),
        other != entry.thread_id ==> entry_of(upserted(entries, entry), other) == entry_of(
            entries,
            other,
        ),
{
    if entry_of(entries, entry.thread_id) is Some {
        lemma_replaced(entries, entry, other);
    } else {
        lemma_appended(entries, entry, other);
    }
}

proof fn lemma_replaced(entries: Seq<AgentEntryView>, entry: AgentEntryView, other: ThreadId)
    ensures
        ({
            let next = replaced(entries, entry);
            &&& entry_of(next, entry.thread_id) == (if entry_of(
                entries,
                entry.thread_id,
            ) is Some {
                Some(entry)
            } else {
                None
            })
            &&& other != entry.thread_id ==> entry_of(next, other) == entry_of(entries, other)
        }),
    decreases entries.len(),
{
    if entries.len() > 0 {
        lemma_replaced(entries.skip(1), entry, other);
        assert(replaced(entries, entry).skip(1) =~= replaced(entries.skip(1), entry));
    }
}

proof fn lemma_appended(entries: Seq<AgentEntryView>, entry: AgentEntryView, other: ThreadId)
    ensures
        entry_of(entries, entry.thread_id) is None ==> entry_of(
            entries.push(entry),
            entry.thread_id,
        ) == Some(entry),
        other != entry.thread_id ==> entry_of(entries.push(entry), other) == entry_of(
            entries,
            other,
        ),
    decreases entries.len(),
{
    if entries.len() > 0 {
        lemma_appended(entries.skip(1), entry, other);
        assert(entries.push(entry).skip(1) =~= entries.skip(1).push(entry));
    } else {
        reveal_with_fuel(entry_of, 2);
        assert(entries.push(entry).skip(1).len() == 0);
    }
}

/// The end of a thread is news once.
pub proof fn law_closing_is_news_once(entries: Seq<AgentEntryView>, thread_id: ThreadId)
    ensures
        is_marked_closed(closed_in(entries, thread_id).0, thread_id),
        !closed_in(closed_in(entries, thread_id).0, thread_id).1,
{
    match entry_of(entries, thread_id) {
        Some(entry) => {
            lemma_entry_is_of_the_thread(entries, thread_id);
            law_entry_is_the_latest(
                entries,
                AgentEntryView { is_closed: true, ..entry },
                thread_id,
            );
        },
        None => {
            law_entry_is_the_latest(
                entries,
                AgentEntryView { thread_id, agent_nickname: None, agent_role: None, is_closed: true },
                thread_id,
            );
        },
    }
}

proof fn lemma_entry_is_of_the_thread(entries: Seq<AgentEntryView>, thread_id: ThreadId)
    ensures
        entry_of(entries, thread_id) matches Some(entry) ==> entry.thread_id == thread_id,
    decreases entries.len(),
{
    if entries.len() > 0 {
        lemma_entry_is_of_the_thread(entries.skip(1), thread_id);
    }
}

/// The thread on screen is named exactly where there are several to be on: with a single thread
/// there is nothing to tell apart.
pub proof fn law_label_tells_threads_apart(
    entries: Seq<AgentEntryView>,
    displayed: Option<ThreadId>,
    primary: Option<ThreadId>,
)
    ensures
        label_on_screen(entries, displayed, primary) is Some <==> displayed is Some
            && entries.len() > 1,
{
}

/// Agents keep their places, whatever becomes known of them: one that has ended stays in the list,
/// and a new one comes last.
pub proof fn law_agents_keep_their_places(
    entries: Seq<AgentEntryView>,
    entry: AgentEntryView,
    thread_id: ThreadId,
)
    ensures
        keeps_places(entries, upserted(entries, entry), entry.thread_id),
        keeps_places(entries, closed_in(entries, thread_id).0, thread_id),
{
    lemma_entry_is_of_the_thread(entries, thread_id);
}

/// Whether `next` has the threads of `entries` in their places, and `thread_id` behind them where
/// it is new.
pub open spec fn keeps_places(
    entries: Seq<AgentEntryView>,
    next: Seq<AgentEntryView>,
    thread_id: ThreadId,
) -> bool {
    &&& forall|i: int|
        0 <= i < entries.len() ==> (#[trigger] next[i]).thread_id == entries[i].thread_id
    &&& if entry_of(entries, thread_id) is Some {
        next.len() == entries.len()
    } else {
        next.len() == entries.len() + 1 && next.last().thread_id == thread_id
    }
}

} // verus!
