//! The threads that a client knows, and which of them is on screen.
use crate::agent_navigation::{
    agent_name, entry_of, format_agent_picker_item_name, is_marked_closed, same_id, upserted,
    AgentEntryView, AgentNavigationState,
};
use crate::collections::Duplicate;
use crate::effects::{PendingSubagentCompletionWakeup, PendingSubagentCompletionWakeupView};
use crate::pending_replay::after_op;
use crate::protocol::{
    AppCommand, AppCommandView, ThreadBufferedEvent, ThreadBufferedEventView, ThreadSessionState,
    ThreadSessionStateView,
};
use crate::text::same_text;
use crate::thread_events::{ThreadEventStore, ThreadEventStoreView};
use crate::thread_id::{short_id_text, ThreadId};
use std::collections::VecDeque;
use vstd::prelude::*;
use vstd::string::StringExecFns;

verus! {

/// A thread's store and its channel.
#[derive(Debug)]
pub struct ThreadChannel {
    pub thread_id: ThreadId,
    pub store: ThreadEventStore,
    /// Whether the receiving end of the channel rests here, rather than being read from.
    pub has_receiver: bool,
}

/// What a [`ThreadChannel`] means.
#[verifier::ext_equal]
pub ghost struct ThreadChannelView {
    pub thread_id: ThreadId,
    pub store: ThreadEventStoreView,
    pub has_receiver: bool,
}

impl DeepView for ThreadChannel {
    type V = ThreadChannelView;

    open spec fn deep_view(&self) -> ThreadChannelView {
        ThreadChannelView {
            thread_id: self.thread_id,
            store: self.store@,
            has_receiver: self.has_receiver,
        }
    }
}

/// A side conversation, and the thread that it was opened from.
#[derive(Debug, Clone, Copy, PartialEq, Eq, Structural)]
pub struct SideThread {
    pub thread_id: ThreadId,
    pub parent_thread_id: ThreadId,
}

impl DeepView for SideThread {
    type V = SideThread;

    open spec fn deep_view(&self) -> SideThread {
        *self
    }
}

/// The threads that a client knows, and which of them is on screen.
#[verifier::ext_equal]
pub ghost struct AppView {
    /// How many events a thread's store may hold.
    pub channel_capacity: nat,
    /// The directory that the client was started in.
    pub config_cwd: Seq<char>,
    /// The thread that the user talks to first.
    pub primary_thread_id: Option<ThreadId>,
    pub primary_session: Option<ThreadSessionStateView>,
    /// The thread whose events are read.
    pub active_thread_id: Option<ThreadId>,
    pub has_active_receiver: bool,
    /// The thread that the screen shows, which can lag behind.
    pub widget_thread_id: Option<ThreadId>,
    pub channels: Seq<ThreadChannelView>,
    pub agents: Seq<AgentEntryView>,
    pub side_threads: Seq<SideThread>,
    /// Side conversations that were closed for good.
    pub discarded: Seq<ThreadId>,
    /// The threads whose nickname and role the server was asked for, in that order.
    pub asked: Seq<ThreadId>,
    /// What came in for the primary thread before it was known.
    pub pending_primary_events: Seq<ThreadBufferedEventView>,
    /// Subagents that have ended and that the main agent was not told of.
    pub pending_subagent_wakeups: Seq<PendingSubagentCompletionWakeupView>,
    /// The thread whose end the user has asked for in order to leave.
    pub pending_shutdown_exit_thread_id: Option<ThreadId>,
}

/// The place of a thread's channel, or the count of the channels where it has none.
pub open spec fn channel_place(channels: Seq<ThreadChannelView>, thread_id: ThreadId) -> int
    decreases channels.len(),
{
    if channels.len() == 0 {
        0
    } else if channels[0].thread_id == thread_id {
        0
    } else {
        1 + channel_place(channels.skip(1), thread_id)
    }
}

/// The place of a channel is one among the channels, or right behind them, and the channel there
/// is the thread's.
pub proof fn lemma_channel_place(channels: Seq<ThreadChannelView>, thread_id: ThreadId)
    ensures
        0 <= channel_place(channels, thread_id) <= channels.len(),
        channel_place(channels, thread_id) < channels.len() ==> channels[channel_place(
            channels,
            thread_id,
        )].thread_id == thread_id,
        forall|i: int|
            0 <= i < channel_place(channels, thread_id) ==> (#[trigger] channels[i]).thread_id
                != thread_id,
    decreases channels.len(),
{
    if channels.len() > 0 && channels[0].thread_id != thread_id {
        lemma_channel_place(channels.skip(1), thread_id);
        assert forall|i: int| 0 <= i < channel_place(channels, thread_id) implies (
        #[trigger] channels[i]).thread_id != thread_id by {
            if i > 0 {
                assert(channels[i] == channels.skip(1)[i - 1]);
            }
        }
    }
}

/// The place of a channel is the first with the thread's id.
pub proof fn lemma_channel_place_is(
    channels: Seq<ThreadChannelView>,
    thread_id: ThreadId,
    place: int,
)
    requires
        0 <= place <= channels.len(),
        place < channels.len() ==> channels[place].thread_id == thread_id,
        forall|i: int| 0 <= i < place ==> (#[trigger] channels[i]).thread_id != thread_id,
    ensures
        channel_place(channels, thread_id) == place,
{
    lemma_channel_place(channels, thread_id);
    let found = channel_place(channels, thread_id);
    if found < place {
        assert(channels[found].thread_id != thread_id);
    } else if place < found {
        assert(channels[place].thread_id != thread_id);
    }
}

impl AppView {
    /// Whether a thread has a store.
    pub open spec fn has_store(self, thread_id: ThreadId) -> bool {
        channel_place(self.channels, thread_id) < self.channels.len()
    }

    /// The channel of a thread.
    pub open spec fn channel_of(self, thread_id: ThreadId) -> Option<ThreadChannelView> {
        if self.has_store(thread_id) {
            Some(self.channels[channel_place(self.channels, thread_id)])
        } else {
            None
        }
    }

    /// The store of a thread.
    pub open spec fn store_of(self, thread_id: ThreadId) -> Option<ThreadEventStoreView> {
        match self.channel_of(thread_id) {
            Some(channel) => Some(channel.store),
            None => None,
        }
    }

    /// With another channel for a thread that has one.
    pub open spec fn with_channel(self, channel: ThreadChannelView) -> AppView {
        AppView {
            channels: self.channels.update(
                channel_place(self.channels, channel.thread_id),
                channel,
            ),
            ..self
        }
    }

    /// With another store for a thread that has one.
    pub open spec fn with_store(self, thread_id: ThreadId, store: ThreadEventStoreView) -> AppView {
        match self.channel_of(thread_id) {
            Some(channel) => self.with_channel(ThreadChannelView { thread_id, store, ..channel }),
            None => self,
        }
    }

    /// With a store for a thread, an empty one where it has none.
    pub open spec fn with_channel_for(self, thread_id: ThreadId) -> AppView {
        if self.has_store(thread_id) {
            self
        } else {
            AppView {
                channels: self.channels.push(
                    ThreadChannelView {
                        thread_id,
                        store: ThreadEventStoreView::empty(self.channel_capacity),
                        has_receiver: true,
                    },
                ),
                ..self
            }
        }
    }

    /// With a thread that is on screen, or no longer on screen.
    pub open spec fn with_thread_active(self, thread_id: ThreadId, active: bool) -> AppView {
        match self.store_of(thread_id) {
            Some(store) => self.with_store(thread_id, ThreadEventStoreView { active, ..store }),
            None => self,
        }
    }

    /// Whether a thread is a side conversation.
    pub open spec fn is_side(self, thread_id: ThreadId) -> bool {
        exists|i: int|
            0 <= i < self.side_threads.len() && (#[trigger] self.side_threads[i]).thread_id
                == thread_id
    }

    /// Whether a thread is a side conversation that was closed for good.
    pub open spec fn is_discarded(self, thread_id: ThreadId) -> bool {
        self.discarded.contains(thread_id)
    }

    /// Whether a thread is closed, as its store tells or the list of agents.
    pub open spec fn is_closed(self, thread_id: ThreadId) -> bool {
        ||| self.is_discarded(thread_id)
        ||| is_marked_closed(self.agents, thread_id)
        ||| self.store_of(thread_id) matches Some(store) && store.closed
    }

    /// The thread whose transcript is on screen.
    pub open spec fn displayed(self) -> Option<ThreadId> {
        match self.active_thread_id {
            Some(id) => Some(id),
            None => self.widget_thread_id,
        }
    }

    /// The thread that the side conversation on screen was opened from.
    pub open spec fn side_parent(self) -> Option<ThreadId> {
        match self.displayed() {
            Some(id) => parent_of(self.side_threads, id),
            None => None,
        }
    }

    /// What a thread is called.
    pub open spec fn label_of(self, thread_id: ThreadId) -> Seq<char> {
        let is_primary = self.primary_thread_id == Some(thread_id);
        match entry_of(self.agents, thread_id) {
            Some(entry) => {
                let name = agent_name(entry.agent_nickname, entry.agent_role, is_primary);
                if name == "Agent"@ {
                    name + " ("@ + short_id_text(thread_id) + ")"@
                } else {
                    name
                }
            },
            None => if is_primary {
                "Main [default]"@
            } else {
                "Agent ("@ + short_id_text(thread_id) + ")"@
            },
        }
    }

    /// What a subagent is called.
    pub open spec fn subagent_name(self, thread_id: ThreadId) -> Seq<char> {
        match entry_of(self.agents, thread_id) {
            Some(entry) => agent_name(entry.agent_nickname, entry.agent_role, false),
            None => agent_name(None, None, false),
        }
    }

    /// With what is known of an agent.
    pub open spec fn with_agent(self, entry: AgentEntryView) -> AppView {
        AppView { agents: upserted(self.agents, entry), ..self }
    }
}

/// The thread that a side conversation was opened from.
pub open spec fn parent_of(side_threads: Seq<SideThread>, thread_id: ThreadId) -> Option<ThreadId>
    decreases side_threads.len(),
{
    if side_threads.len() == 0 {
        None
    } else if side_threads[0].thread_id == thread_id {
        Some(side_threads[0].parent_thread_id)
    } else {
        parent_of(side_threads.skip(1), thread_id)
    }
}

/// The threads that a client knows, and which of them is on screen.
#[derive(Debug)]
pub struct App {
    pub channel_capacity: usize,
    pub config_cwd: String,
    pub primary_thread_id: Option<ThreadId>,
    pub primary_session_configured: Option<ThreadSessionState>,
    pub active_thread_id: Option<ThreadId>,
    pub has_active_receiver: bool,
    pub widget_thread_id: Option<ThreadId>,
    pub thread_event_channels: Vec<ThreadChannel>,
    pub agent_navigation: AgentNavigationState,
    pub side_threads: Vec<SideThread>,
    pub discarded_side_thread_ids: Vec<ThreadId>,
    pub agent_metadata_asked: Vec<ThreadId>,
    pub pending_primary_events: VecDeque<ThreadBufferedEvent>,
    pub pending_subagent_completion_wakeups: VecDeque<PendingSubagentCompletionWakeup>,
    pub pending_shutdown_exit_thread_id: Option<ThreadId>,
}

impl View for App {
    type V = AppView;

    open spec fn view(&self) -> AppView {
        AppView {
            channel_capacity: self.channel_capacity as nat,
            config_cwd: self.config_cwd@,
            primary_thread_id: self.primary_thread_id,
            primary_session: self.primary_session_configured.deep_view(),
            active_thread_id: self.active_thread_id,
            has_active_receiver: self.has_active_receiver,
            widget_thread_id: self.widget_thread_id,
            channels: self.thread_event_channels.deep_view(),
            agents: self.agent_navigation@,
            side_threads: self.side_threads@,
            discarded: self.discarded_side_thread_ids@,
            asked: self.agent_metadata_asked@,
            pending_primary_events: self.pending_primary_events.deep_view(),
            pending_subagent_wakeups: self.pending_subagent_completion_wakeups.deep_view(),
            pending_shutdown_exit_thread_id: self.pending_shutdown_exit_thread_id,
        }
    }
}

impl App {
    /// A client that knows no threads.
    pub fn new(channel_capacity: usize, config_cwd: String) -> (app: App)
        ensures
            app@ == (AppView {
                channel_capacity: channel_capacity as nat,
                config_cwd: config_cwd@,
                primary_thread_id: None,
                primary_session: None,
                active_thread_id: None,
                has_active_receiver: false,
                widget_thread_id: None,
                channels: Seq::empty(),
                agents: Seq::empty(),
                side_threads: Seq::empty(),
                discarded: Seq::empty(),
                asked: Seq::empty(),
                pending_primary_events: Seq::empty(),
                pending_subagent_wakeups: Seq::empty(),
                pending_shutdown_exit_thread_id: None,
            }),
            app@.is_sound(),
    {
        App {
            channel_capacity,
            config_cwd,
            primary_thread_id: None,
            primary_session_configured: None,
            active_thread_id: None,
            has_active_receiver: false,
            widget_thread_id: None,
            thread_event_channels: Vec::new(),
            agent_navigation: AgentNavigationState::new(),
            side_threads: Vec::new(),
            discarded_side_thread_ids: Vec::new(),
            agent_metadata_asked: Vec::new(),
            pending_primary_events: VecDeque::new(),
            pending_subagent_completion_wakeups: VecDeque::new(),
            pending_shutdown_exit_thread_id: None,
        }
    }

    /// The place of a thread's channel, or the count of the channels where it has none.
    pub fn channel_place(&self, thread_id: ThreadId) -> (place: usize)
        ensures
            place as int == channel_place(self@.channels, thread_id),
            place <= self.thread_event_channels@.len(),
            place < self.thread_event_channels@.len() ==> self.thread_event_channels@[place as int].thread_id
                == thread_id,
    {
        let ghost all = self@.channels;
        let mut i: usize = 0;
        while i < self.thread_event_channels.len()
            invariant
                i <= self.thread_event_channels@.len(),
                all == self@.channels,
                forall|j: int| 0 <= j < i ==> (#[trigger] all[j]).thread_id != thread_id,
            decreases self.thread_event_channels@.len() - i,
        {
            assert(all[i as int] == self.thread_event_channels@[i as int].deep_view());
            if self.thread_event_channels[i].thread_id == thread_id {
                proof {
                    lemma_channel_place_is(all, thread_id, i as int);
                }
                return i;
            }
            i = i + 1;
        }
        proof {
            lemma_channel_place_is(all, thread_id, i as int);
        }
        i
    }

    /// Gives a thread a channel and an empty store, where it has none, and says where it is.
    pub fn ensure_thread_channel(&mut self, thread_id: ThreadId) -> (place: usize)
        ensures
            final(self)@ == old(self)@.with_channel_for(thread_id),
            place as int == channel_place(final(self)@.channels, thread_id),
            place < final(self).thread_event_channels@.len(),
            final(self).thread_event_channels@[place as int].thread_id == thread_id,
    {
        let place = self.channel_place(thread_id);
        if place == self.thread_event_channels.len() {
            let ghost before = self@.channels;
            let channel = ThreadChannel {
                thread_id,
                store: ThreadEventStore::new(self.channel_capacity),
                has_receiver: true,
            };
            self.thread_event_channels.push(channel);
            proof {
                lemma_channel_place(before, thread_id);
                assert(self@.channels =~= before.push(channel.deep_view()));
                assert forall|i: int| 0 <= i < place implies (
                #[trigger] self@.channels[i]).thread_id != thread_id by {
                    assert(self@.channels[i] == before[i]);
                }
                lemma_channel_place_is(self@.channels, thread_id, place as int);
            }
        }
        place
    }

    /// Notes that a thread is on screen, or no longer on screen.
    pub fn set_thread_active(&mut self, thread_id: ThreadId, active: bool)
        ensures
            final(self)@ == old(self)@.with_thread_active(thread_id, active),
    {
        let place = self.channel_place(thread_id);
        if place < self.thread_event_channels.len() {
            let ghost before = self@;
            self.thread_event_channels[place].store.active = active;
            assert(self@ =~= before.with_thread_active(thread_id, active));
        }
    }

    /// Whether a thread is a side conversation.
    pub fn is_side_thread(&self, thread_id: ThreadId) -> (result: bool)
        ensures
            result == self@.is_side(thread_id),
    {
        let mut i: usize = 0;
        while i < self.side_threads.len()
            invariant
                i <= self.side_threads@.len(),
                forall|j: int|
                    0 <= j < i ==> (#[trigger] self@.side_threads[j]).thread_id != thread_id,
            decreases self.side_threads@.len() - i,
        {
            assert(self@.side_threads[i as int] == self.side_threads@[i as int]);
            if self.side_threads[i].thread_id == thread_id {
                return true;
            }
            i = i + 1;
        }
        false
    }

    /// Whether a thread is a side conversation that was closed for good.
    pub fn is_discarded_side_thread(&self, thread_id: ThreadId) -> (result: bool)
        ensures
            result == self@.is_discarded(thread_id),
    {
        let mut i: usize = 0;
        while i < self.discarded_side_thread_ids.len()
            invariant
                i <= self.discarded_side_thread_ids@.len(),
                forall|j: int| 0 <= j < i ==> (#[trigger] self@.discarded[j]) != thread_id,
            decreases self.discarded_side_thread_ids@.len() - i,
        {
            assert(self@.discarded[i as int] == self.discarded_side_thread_ids@[i as int]);
            if self.discarded_side_thread_ids[i] == thread_id {
                return true;
            }
            i = i + 1;
        }
        false
    }

    /// Whether a thread is closed, as its store tells or the list of agents.
    pub fn thread_is_closed_or_marked_closed(&self, thread_id: ThreadId) -> (closed: bool)
        ensures
            closed == self@.is_closed(thread_id),
    {
        if self.is_discarded_side_thread(thread_id) {
            return true;
        }
        let marked_closed = self.agent_navigation.is_closed(thread_id);
        let place = self.channel_place(thread_id);
        if place < self.thread_event_channels.len() {
            let channel = &self.thread_event_channels[place];
            assert(channel.deep_view() == self@.channels[place as int]);
            return marked_closed || channel.store.is_closed();
        }
        marked_closed
    }

    /// The thread whose transcript is on screen. The active thread says so, but while threads
    /// are switched the screen can lag behind, and then it says what the user looks at.
    pub fn current_displayed_thread_id(&self) -> (id: Option<ThreadId>)
        ensures
            id == self@.displayed(),
    {
        match self.active_thread_id {
            Some(id) => Some(id),
            None => self.widget_thread_id,
        }
    }

    /// The thread that the side conversation on screen was opened from.
    pub fn active_side_parent_thread_id(&self) -> (parent: Option<ThreadId>)
        ensures
            parent == self@.side_parent(),
    {
        let thread_id = match self.current_displayed_thread_id() {
            Some(id) => id,
            None => {
                return None;
            },
        };
        let ghost all = self@.side_threads;
        let mut i: usize = 0;
        assert(all.skip(0) =~= all);
        while i < self.side_threads.len()
            invariant
                i <= self.side_threads@.len(),
                all == self@.side_threads,
                self@.displayed() == Some(thread_id),
                parent_of(all, thread_id) == parent_of(all.skip(i as int), thread_id),
            decreases self.side_threads@.len() - i,
        {
            assert(all.skip(i as int)[0] == self.side_threads@[i as int]);
            assert(all.skip(i as int).skip(1) =~= all.skip(i + 1));
            if self.side_threads[i].thread_id == thread_id {
                return Some(self.side_threads[i].parent_thread_id);
            }
            i = i + 1;
        }
        assert(all.skip(i as int).len() == 0);
        None
    }

    /// What a thread is called.
    pub fn thread_label(&self, thread_id: ThreadId) -> (label: String)
        ensures
            label@ == self@.label_of(thread_id),
    {
        let is_primary = same_id(self.primary_thread_id, thread_id);
        match self.agent_navigation.get(thread_id) {
            Some(entry) => {
                let name = format_agent_picker_item_name(
                    &entry.agent_nickname,
                    &entry.agent_role,
                    is_primary,
                );
                if same_text(name.as_str(), "Agent") {
                    let short_id = thread_id.to_short_text();
                    name.concat(" (").concat(short_id.as_str()).concat(")")
                } else {
                    name
                }
            },
            None => {
                if is_primary {
                    "Main [default]".to_owned()
                } else {
                    let short_id = thread_id.to_short_text();
                    "Agent (".to_owned().concat(short_id.as_str()).concat(")")
                }
            },
        }
    }

    /// What a subagent is called.
    pub fn subagent_activity_label(&self, thread_id: ThreadId) -> (label: String)
        ensures
            label@ == self@.subagent_name(thread_id),
    {
        match self.agent_navigation.get(thread_id) {
            Some(entry) => format_agent_picker_item_name(
                &entry.agent_nickname,
                &entry.agent_role,
                false,
            ),
            None => format_agent_picker_item_name(&None, &None, false),
        }
    }

    /// The turn that runs on a thread.
    pub fn active_turn_id_for_thread(&self, thread_id: ThreadId) -> (turn_id: Option<String>)
        ensures
            turn_id.deep_view() == match self@.store_of(thread_id) {
                Some(store) => store.active_turn_id,
                None => None,
            },
    {
        let place = self.channel_place(thread_id);
        if place < self.thread_event_channels.len() {
            let channel = &self.thread_event_channels[place];
            assert(channel.deep_view() == self@.channels[place as int]);
            channel.store.active_turn_id.duplicate()
        } else {
            None
        }
    }

    /// The directory that a thread's session is in.
    pub fn thread_cwd(&self, thread_id: ThreadId) -> (cwd: Option<String>)
        ensures
            cwd.deep_view() == match self@.store_of(thread_id) {
                Some(store) => match store.session {
                    Some(session) => Some(session.cwd),
                    None => None,
                },
                None => None,
            },
    {
        let place = self.channel_place(thread_id);
        if place < self.thread_event_channels.len() {
            let channel = &self.thread_event_channels[place];
            assert(channel.deep_view() == self@.channels[place as int]);
            match &channel.store.session {
                Some(session) => Some(session.cwd.clone()),
                None => None,
            }
        } else {
            None
        }
    }

    /// Takes note of a command of the user on a thread.
    pub fn note_thread_outbound_op(&mut self, thread_id: ThreadId, op: &AppCommand)
        ensures
            final(self)@ == old(self)@.with_op_noted(thread_id, op.deep_view()),
    {
        let place = self.channel_place(thread_id);
        if place < self.thread_event_channels.len() {
            let ghost before = self@;
            self.thread_event_channels[place].store.note_outbound_op(op);
            assert(self@ =~= before.with_op_noted(thread_id, op.deep_view()));
        }
    }

    /// Notes that a thread is closed.
    pub fn mark_thread_store_closed_for_liveness(&mut self, thread_id: ThreadId)
        ensures
            final(self)@ == (match old(self)@.store_of(thread_id) {
                Some(store) => old(self)@.with_store(thread_id, store.after_close()),
                None => old(self)@,
            }),
    {
        let place = self.channel_place(thread_id);
        if place < self.thread_event_channels.len() {
            let ghost before = self@;
            self.thread_event_channels[place].store.mark_closed_for_liveness();
            assert(self@ =~= before.with_store(
                thread_id,
                before.store_of(thread_id)->0.after_close(),
            ));
        }
    }
}

impl AppView {
    /// Once a command of the user on a thread was taken note of.
    pub open spec fn with_op_noted(self, thread_id: ThreadId, op: AppCommandView) -> AppView {
        match self.store_of(thread_id) {
            Some(store) => self.with_store(
                thread_id,
                ThreadEventStoreView {
                    pending: after_op(store.pending, op),
                    ..store
                },
            ),
            None => self,
        }
    }
}

} // verus!
