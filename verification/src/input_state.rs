//! What is kept of a thread's input while another thread is on screen.
//!
//! Besides whether a turn of the user is about to start, this is the list of the background
//! terminals that run on the thread, so that the agent can be told when one of them ends.
use crate::background_terminal_wakeup::{
    completion_prompt, prompt_text, BackgroundTerminalCompletion,
};
use crate::collections::{overlap, retain_vec, texts_overlap, Duplicate};
use crate::pending_replay::is_some_text;
use crate::protocol::CommandExecutionStatus;
use crate::terminal_ids::{background_terminal_identifiers_from_command, command_ids};
use crate::thread_id::ThreadId;
use vstd::prelude::*;
use vstd::string::{StrSliceExecFns, StringExecFns};

verus! {

/// A background terminal that runs on a thread.
#[derive(Debug, PartialEq, Eq)]
pub struct TrackedTerminal {
    /// The call that started it.
    pub call_id: String,
    /// Its process, where it is known.
    pub process_id: Option<String>,
    pub command: String,
    /// The turn that started it, where it is known.
    pub turn_id: Option<String>,
    /// Whether that turn has ended since.
    pub turn_completed: bool,
    /// What it has put out so far.
    pub output: String,
}

/// What a [`TrackedTerminal`] means.
#[verifier::ext_equal]
pub ghost struct TrackedTerminalView {
    pub call_id: Seq<char>,
    pub process_id: Option<Seq<char>>,
    pub command: Seq<char>,
    pub turn_id: Option<Seq<char>>,
    pub turn_completed: bool,
    pub output: Seq<char>,
}

impl DeepView for TrackedTerminal {
    type V = TrackedTerminalView;

    open spec fn deep_view(&self) -> TrackedTerminalView {
        TrackedTerminalView {
            call_id: self.call_id@,
            process_id: self.process_id.deep_view(),
            command: self.command@,
            turn_id: self.turn_id.deep_view(),
            turn_completed: self.turn_completed,
            output: self.output@,
        }
    }
}

impl Duplicate for TrackedTerminal {
    fn duplicate(&self) -> TrackedTerminal {
        TrackedTerminal {
            call_id: self.call_id.clone(),
            process_id: self.process_id.duplicate(),
            command: self.command.clone(),
            turn_id: self.turn_id.duplicate(),
            turn_completed: self.turn_completed,
            output: self.output.clone(),
        }
    }
}

/// What a list of running terminals shows of one of them.
#[derive(Debug, PartialEq, Eq)]
pub struct BackgroundTerminalActivitySummary {
    pub thread_id: ThreadId,
    /// Its process, or the call that started it where that is not known.
    pub process_id: String,
    pub command_display: String,
}

/// What a [`BackgroundTerminalActivitySummary`] means.
#[verifier::ext_equal]
pub ghost struct BackgroundTerminalActivitySummaryView {
    pub thread_id: ThreadId,
    pub process_id: Seq<char>,
    pub command_display: Seq<char>,
}

impl DeepView for BackgroundTerminalActivitySummary {
    type V = BackgroundTerminalActivitySummaryView;

    open spec fn deep_view(&self) -> BackgroundTerminalActivitySummaryView {
        BackgroundTerminalActivitySummaryView {
            thread_id: self.thread_id,
            process_id: self.process_id@,
            command_display: self.command_display@,
        }
    }
}

impl Duplicate for BackgroundTerminalActivitySummary {
    fn duplicate(&self) -> BackgroundTerminalActivitySummary {
        BackgroundTerminalActivitySummary {
            thread_id: self.thread_id,
            process_id: self.process_id.clone(),
            command_display: self.command_display.clone(),
        }
    }
}

/// What follows when a tracked terminal ends while its thread is not on screen.
#[derive(Debug, PartialEq, Eq)]
pub enum InactiveBackgroundTerminalCompletion {
    /// The agent is told, with this prompt.
    Wakeup(String),
    /// Nothing: the turn that started it still runs, and sees the end itself.
    Handled,
}

/// What a [`InactiveBackgroundTerminalCompletion`] means.
#[verifier::ext_equal]
pub ghost enum InactiveBackgroundTerminalCompletionView {
    Wakeup(Seq<char>),
    Handled,
}

impl DeepView for InactiveBackgroundTerminalCompletion {
    type V = InactiveBackgroundTerminalCompletionView;

    open spec fn deep_view(&self) -> InactiveBackgroundTerminalCompletionView {
        match self {
            InactiveBackgroundTerminalCompletion::Wakeup(value) => InactiveBackgroundTerminalCompletionView::Wakeup(value@),
            InactiveBackgroundTerminalCompletion::Handled => InactiveBackgroundTerminalCompletionView::Handled,
        }
    }
}

impl Duplicate for InactiveBackgroundTerminalCompletion {
    fn duplicate(&self) -> InactiveBackgroundTerminalCompletion {
        match self {
            InactiveBackgroundTerminalCompletion::Wakeup(value) => InactiveBackgroundTerminalCompletion::Wakeup(value.clone()),
            InactiveBackgroundTerminalCompletion::Handled => InactiveBackgroundTerminalCompletion::Handled,
        }
    }
}

/// What is kept of a thread's input while another thread is on screen.
#[derive(Debug, PartialEq, Eq)]
pub struct ThreadInputState {
    /// Whether a turn was submitted that the server has not started yet.
    pub user_turn_pending_start: bool,
    /// The background terminals that run, in the order they started.
    pub terminals: Vec<TrackedTerminal>,
    /// Prompts about terminals that have ended, to be submitted when the thread is restored.
    pub queued_completion_prompts: Vec<String>,
    /// What the user has written and not sent, as the screen saves it.
    pub composer: Option<String>,
}

/// What a [`ThreadInputState`] means.
#[verifier::ext_equal]
pub ghost struct ThreadInputStateView {
    pub user_turn_pending_start: bool,
    pub terminals: Seq<TrackedTerminalView>,
    pub queued_completion_prompts: Seq<Seq<char>>,
    pub composer: Option<Seq<char>>,
}

impl DeepView for ThreadInputState {
    type V = ThreadInputStateView;

    open spec fn deep_view(&self) -> ThreadInputStateView {
        ThreadInputStateView {
            user_turn_pending_start: self.user_turn_pending_start,
            terminals: self.terminals.deep_view(),
            queued_completion_prompts: self.queued_completion_prompts.deep_view(),
            composer: self.composer.deep_view(),
        }
    }
}

impl Duplicate for ThreadInputState {
    fn duplicate(&self) -> ThreadInputState {
        ThreadInputState {
            user_turn_pending_start: self.user_turn_pending_start,
            terminals: self.terminals.duplicate(),
            queued_completion_prompts: self.queued_completion_prompts.duplicate(),
            composer: self.composer.duplicate(),
        }
    }
}

/// Whether a terminal goes by `id`.
pub open spec fn goes_by(terminal: TrackedTerminalView, id: Seq<char>) -> bool {
    terminal.call_id == id || terminal.process_id == Some(id)
}

/// Whether a terminal goes by one of `ids`.
pub open spec fn goes_by_any(terminal: TrackedTerminalView, ids: Seq<Seq<char>>) -> bool {
    overlap(command_ids(terminal.call_id, terminal.process_id), ids)
}

/// The first terminal that goes by one of `ids`.
pub open spec fn first_terminal(terminals: Seq<TrackedTerminalView>, ids: Seq<Seq<char>>) -> Option<
    TrackedTerminalView,
>
    decreases terminals.len(),
{
    if terminals.len() == 0 {
        None
    } else if goes_by_any(terminals[0], ids) {
        Some(terminals[0])
    } else {
        first_terminal(terminals.skip(1), ids)
    }
}

/// A terminal with `chunk` added to its output, where it is the one that `call_id` started.
pub open spec fn with_output(
    terminal: TrackedTerminalView,
    call_id: Seq<char>,
    chunk: Seq<char>,
) -> TrackedTerminalView {
    if terminal.call_id == call_id {
        TrackedTerminalView { output: terminal.output + chunk, ..terminal }
    } else {
        terminal
    }
}

/// A terminal once a turn has ended.
pub open spec fn with_turn_completed(terminal: TrackedTerminalView, turn_id: Seq<char>) -> TrackedTerminalView {
    if terminal.turn_id == Some(turn_id) {
        TrackedTerminalView { turn_completed: true, ..terminal }
    } else {
        terminal
    }
}

/// What a list of running terminals shows of a terminal.
pub open spec fn summary_of(
    thread_id: ThreadId,
    terminal: TrackedTerminalView,
) -> BackgroundTerminalActivitySummaryView {
    BackgroundTerminalActivitySummaryView {
        thread_id,
        process_id: match terminal.process_id {
            Some(process_id) => process_id,
            None => terminal.call_id,
        },
        command_display: terminal.command,
    }
}

/// What follows when `terminal` ends on `turn_id` while `active_turn_id` runs: the agent is told
/// unless the turn that started the terminal still runs.
pub open spec fn completion_of(
    terminal: TrackedTerminalView,
    status: CommandExecutionStatus,
    exit_code: Option<i32>,
    aggregated_output: Seq<char>,
    turn_id: Option<Seq<char>>,
    active_turn_id: Option<Seq<char>>,
) -> InactiveBackgroundTerminalCompletionView {
    if terminal.turn_completed || turn_id != active_turn_id || turn_id is None {
        InactiveBackgroundTerminalCompletionView::Wakeup(
            prompt_text(
                terminal.command,
                status,
                exit_code,
                if aggregated_output.len() == 0 {
                    terminal.output
                } else {
                    aggregated_output
                },
            ),
        )
    } else {
        InactiveBackgroundTerminalCompletionView::Handled
    }
}

impl ThreadInputStateView {
    /// Nothing but a place to track terminals in.
    pub open spec fn tracking_only() -> ThreadInputStateView {
        ThreadInputStateView {
            user_turn_pending_start: false,
            terminals: Seq::empty(),
            queued_completion_prompts: Seq::empty(),
            composer: None,
        }
    }

    /// With or without a turn of the user about to start.
    pub open spec fn with_pending_start(self, pending: bool) -> ThreadInputStateView {
        ThreadInputStateView { user_turn_pending_start: pending, ..self }
    }

    /// Once a turn has ended.
    pub open spec fn turn_completed(self, turn_id: Seq<char>) -> ThreadInputStateView {
        ThreadInputStateView {
            terminals: self.terminals.map_values(
                |t: TrackedTerminalView| with_turn_completed(t, turn_id),
            ),
            ..self
        }
    }

    /// Without terminals.
    pub open spec fn without_terminals(self) -> ThreadInputStateView {
        ThreadInputStateView { terminals: Seq::empty(), ..self }
    }

    /// Once a terminal has started.
    pub open spec fn terminal_started(
        self,
        call_id: Seq<char>,
        process_id: Option<Seq<char>>,
        command: Seq<char>,
        turn_id: Option<Seq<char>>,
    ) -> ThreadInputStateView {
        ThreadInputStateView {
            terminals: self.terminals.filter(
                |t: TrackedTerminalView| t.call_id != call_id,
            ).push(
                TrackedTerminalView {
                    call_id,
                    process_id,
                    command,
                    turn_id,
                    turn_completed: false,
                    output: Seq::empty(),
                },
            ),
            ..self
        }
    }

    /// Once a terminal has put something out.
    pub open spec fn terminal_output(self, call_id: Seq<char>, chunk: Seq<char>) -> ThreadInputStateView {
        ThreadInputStateView {
            terminals: self.terminals.map_values(
                |t: TrackedTerminalView| with_output(t, call_id, chunk),
            ),
            ..self
        }
    }

    /// Without the terminals that go by one of `ids`.
    pub open spec fn without_terminals_by(self, ids: Seq<Seq<char>>) -> ThreadInputStateView {
        ThreadInputStateView {
            terminals: self.terminals.filter(|t: TrackedTerminalView| !goes_by_any(t, ids)),
            ..self
        }
    }

    /// Without the terminals that go by `id`.
    pub open spec fn without_terminal(self, id: Seq<char>) -> ThreadInputStateView {
        ThreadInputStateView {
            terminals: self.terminals.filter(|t: TrackedTerminalView| !goes_by(t, id)),
            ..self
        }
    }

    /// Without prompts to be submitted on restore.
    pub open spec fn without_prompts(self) -> ThreadInputStateView {
        ThreadInputStateView { queued_completion_prompts: Seq::empty(), ..self }
    }

    /// With more prompts to be submitted on restore.
    pub open spec fn with_prompts(self, prompts: Seq<Seq<char>>) -> ThreadInputStateView {
        ThreadInputStateView {
            queued_completion_prompts: self.queued_completion_prompts + prompts,
            ..self
        }
    }
}

impl ThreadInputState {
    /// Nothing but a place to track terminals in.
    pub fn background_tracking_only() -> (state: ThreadInputState)
        ensures
            state.deep_view() == ThreadInputStateView::tracking_only(),
    {
        let state = ThreadInputState {
            user_turn_pending_start: false,
            terminals: Vec::new(),
            queued_completion_prompts: Vec::new(),
            composer: None,
        };
        assert(state.deep_view() =~= ThreadInputStateView::tracking_only());
        state
    }

    /// Whether a turn was submitted that the server has not started yet.
    pub fn user_turn_pending_start(&self) -> (pending: bool)
        ensures
            pending == self.deep_view().user_turn_pending_start,
    {
        self.user_turn_pending_start
    }

    /// Notes that a turn was submitted that the server has not started yet.
    pub fn mark_user_turn_pending_start_for_restore(&mut self)
        ensures
            final(self).deep_view() == old(self).deep_view().with_pending_start(true),
    {
        self.user_turn_pending_start = true;
    }

    /// Notes that no submitted turn waits for the server.
    pub fn clear_user_turn_pending_start_for_restore(&mut self)
        ensures
            final(self).deep_view() == old(self).deep_view().with_pending_start(false),
    {
        self.user_turn_pending_start = false;
    }

    /// Notes that a turn has ended.
    pub fn mark_background_terminals_turn_completed(&mut self, turn_id: &String)
        ensures
            final(self).deep_view() == old(self).deep_view().turn_completed(turn_id@),
    {
        let ghost all = self.terminals.deep_view();
        let ghost change = |t: TrackedTerminalView| with_turn_completed(t, turn_id@);
        let mut next: Vec<TrackedTerminal> = Vec::new();
        let mut i: usize = 0;
        while i < self.terminals.len()
            invariant
                i <= self.terminals@.len(),
                self.deep_view() == old(self).deep_view(),
                all == self.terminals.deep_view(),
                change == (|t: TrackedTerminalView| with_turn_completed(t, turn_id@)),
                next.deep_view() == all.take(i as int).map_values(change),
            decreases self.terminals@.len() - i,
        {
            let ghost before = next.deep_view();
            let mut terminal = self.terminals[i].duplicate();
            assert(terminal.deep_view() == all[i as int]);
            if is_some_text(&terminal.turn_id, turn_id) {
                terminal.turn_completed = true;
            }
            assert(terminal.deep_view() == change(all[i as int]));
            next.push(terminal);
            assert(next.deep_view() =~= before.push(change(all[i as int])));
            assert(all.take(i + 1).map_values(change) =~= before.push(change(all[i as int])));
            i = i + 1;
        }
        assert(all.take(i as int) =~= all);
        self.terminals = next;
    }

    /// Forgets the terminals.
    pub fn clear_background_terminal_processes(&mut self)
        ensures
            final(self).deep_view() == old(self).deep_view().without_terminals(),
    {
        self.terminals = Vec::new();
        assert(self.terminals.deep_view() =~= Seq::<TrackedTerminalView>::empty());
    }

    /// Tracks a terminal that has started.
    pub fn track_background_terminal_start(
        &mut self,
        call_id: &String,
        process_id: &Option<String>,
        command: &String,
        turn_id: Option<String>,
    )
        ensures
            final(self).deep_view() == old(self).deep_view().terminal_started(
                call_id@,
                process_id.deep_view(),
                command@,
                turn_id.deep_view(),
            ),
    {
        let ghost wanted = |t: TrackedTerminalView| t.call_id != call_id@;
        let keep = |t: &TrackedTerminal| -> (kept: bool)
            ensures
                kept == wanted(t.deep_view()),
            { t.call_id != *call_id };
        retain_vec(&mut self.terminals, keep, Ghost(wanted));
        let ghost before = self.terminals.deep_view();
        let terminal = TrackedTerminal {
            call_id: call_id.clone(),
            process_id: process_id.duplicate(),
            command: command.clone(),
            turn_id,
            turn_completed: false,
            output: "".to_owned(),
        };
        proof {
            reveal_strlit("");
        }
        assert(terminal.output@ =~= Seq::<char>::empty());
        self.terminals.push(terminal);
        assert(self.terminals.deep_view() =~= before.push(terminal.deep_view()));
    }

    /// Adds to the output of a tracked terminal.
    pub fn track_background_terminal_output_chunk(&mut self, call_id: &String, chunk: &String)
        ensures
            final(self).deep_view() == old(self).deep_view().terminal_output(call_id@, chunk@),
    {
        let ghost all = self.terminals.deep_view();
        let ghost change = |t: TrackedTerminalView| with_output(t, call_id@, chunk@);
        let mut next: Vec<TrackedTerminal> = Vec::new();
        let mut i: usize = 0;
        while i < self.terminals.len()
            invariant
                i <= self.terminals@.len(),
                self.deep_view() == old(self).deep_view(),
                all == self.terminals.deep_view(),
                change == (|t: TrackedTerminalView| with_output(t, call_id@, chunk@)),
                next.deep_view() == all.take(i as int).map_values(change),
            decreases self.terminals@.len() - i,
        {
            let ghost before = next.deep_view();
            let mut terminal = self.terminals[i].duplicate();
            assert(terminal.deep_view() == all[i as int]);
            if terminal.call_id == *call_id {
                terminal.output.append(chunk.as_str());
            }
            assert(terminal.deep_view() == change(all[i as int]));
            next.push(terminal);
            assert(next.deep_view() =~= before.push(change(all[i as int])));
            assert(all.take(i + 1).map_values(change) =~= before.push(change(all[i as int])));
            i = i + 1;
        }
        assert(all.take(i as int) =~= all);
        self.terminals = next;
    }

    /// The first tracked terminal that goes by one of `ids`.
    fn first_terminal(&self, ids: &Vec<String>) -> (found: Option<TrackedTerminal>)
        ensures
            found.deep_view() == first_terminal(self.deep_view().terminals, ids.deep_view()),
    {
        let ghost all = self.terminals.deep_view();
        let mut i: usize = 0;
        assert(all.skip(0) =~= all);
        while i < self.terminals.len()
            invariant
                i <= self.terminals@.len(),
                all == self.terminals.deep_view(),
                first_terminal(all, ids.deep_view()) == first_terminal(
                    all.skip(i as int),
                    ids.deep_view(),
                ),
            decreases self.terminals@.len() - i,
        {
            let terminal = &self.terminals[i];
            assert(all.skip(i as int)[0] == terminal.deep_view());
            assert(all.skip(i as int).skip(1) =~= all.skip(i + 1));
            if texts_overlap(
                &background_terminal_identifiers_from_command(
                    &terminal.call_id,
                    &terminal.process_id,
                ),
                ids,
            ) {
                return Some(terminal.duplicate());
            }
            i = i + 1;
        }
        assert(all.skip(i as int).len() == 0);
        None
    }

    /// Stops tracking a terminal that has ended, and says what follows. Nothing does where it is
    /// not tracked.
    pub fn take_inactive_background_terminal_completion_wakeup(
        &mut self,
        call_id: &String,
        process_id: &Option<String>,
        status: CommandExecutionStatus,
        exit_code: Option<i32>,
        aggregated_output: &str,
        turn_id: &Option<String>,
        active_turn_id: &Option<String>,
    ) -> (completion: Option<InactiveBackgroundTerminalCompletion>)
        ensures
            match first_terminal(
                old(self).deep_view().terminals,
                command_ids(call_id@, process_id.deep_view()),
            ) {
                Some(terminal) => {
                    &&& completion.deep_view() == Some(
                        completion_of(
                            terminal,
                            status,
                            exit_code,
                            aggregated_output@,
                            turn_id.deep_view(),
                            active_turn_id.deep_view(),
                        ),
                    )
                    &&& final(self).deep_view() == old(self).deep_view().without_terminals_by(
                        command_ids(call_id@, process_id.deep_view()),
                    )
                },
                None => completion is None && final(self).deep_view() == old(self).deep_view(),
            },
    {
        let ids = background_terminal_identifiers_from_command(call_id, process_id);
        let terminal = match self.first_terminal(&ids) {
            Some(terminal) => terminal,
            None => {
                return None;
            },
        };
        let ghost wanted = |t: TrackedTerminalView| !goes_by_any(t, ids.deep_view());
        let keep = |t: &TrackedTerminal| -> (kept: bool)
            ensures
                kept == wanted(t.deep_view()),
            {
                !texts_overlap(
                    &background_terminal_identifiers_from_command(&t.call_id, &t.process_id),
                    &ids,
                )
            };
        retain_vec(&mut self.terminals, keep, Ghost(wanted));
        let started_here = match turn_id {
            Some(turn_id) => is_some_text(active_turn_id, turn_id),
            None => false,
        };
        if !terminal.turn_completed && started_here {
            return Some(InactiveBackgroundTerminalCompletion::Handled);
        }
        let output = if aggregated_output.unicode_len() == 0 {
            terminal.output.as_str()
        } else {
            aggregated_output
        };
        Some(
            InactiveBackgroundTerminalCompletion::Wakeup(
                completion_prompt(
                    BackgroundTerminalCompletion {
                        command_display: terminal.command.as_str(),
                        status,
                        exit_code,
                        output,
                    },
                ),
            ),
        )
    }

    /// Stops tracking the terminals that go by `identifier`.
    pub fn remove_background_terminal_process(&mut self, identifier: &String)
        ensures
            final(self).deep_view() == old(self).deep_view().without_terminal(identifier@),
    {
        let ghost wanted = |t: TrackedTerminalView| !goes_by(t, identifier@);
        let keep = |t: &TrackedTerminal| -> (kept: bool)
            ensures
                kept == wanted(t.deep_view()),
            { t.call_id != *identifier && !is_some_text(&t.process_id, identifier) };
        retain_vec(&mut self.terminals, keep, Ghost(wanted));
    }

    /// Keeps a prompt to be submitted when the thread is restored.
    pub fn queue_background_terminal_completion_prompt_for_restore(&mut self, text: String)
        ensures
            final(self).deep_view() == old(self).deep_view().with_prompts(seq![text@]),
    {
        let ghost before = self.queued_completion_prompts.deep_view();
        self.queued_completion_prompts.push(text);
        assert(self.queued_completion_prompts.deep_view() =~= before + seq![text@]);
    }

    /// Hands out the prompts that were to be submitted when the thread is restored.
    pub fn take_queued_completion_wakeup_prompts(&mut self) -> (prompts: Vec<String>)
        ensures
            prompts.deep_view() == old(self).deep_view().queued_completion_prompts,
            final(self).deep_view() == old(self).deep_view().without_prompts(),
    {
        let prompts = self.queued_completion_prompts.duplicate();
        self.queued_completion_prompts = Vec::new();
        assert(self.queued_completion_prompts.deep_view() =~= Seq::<Seq<char>>::empty());
        prompts
    }

    /// What a list of running terminals shows of those of this thread.
    pub fn background_terminal_activity_summaries(&self, thread_id: ThreadId) -> (summaries: Vec<
        BackgroundTerminalActivitySummary,
    >)
        ensures
            summaries.deep_view() == self.deep_view().terminals.map_values(
                |t: TrackedTerminalView| summary_of(thread_id, t),
            ),
    {
        let ghost all = self.terminals.deep_view();
        let ghost show = |t: TrackedTerminalView| summary_of(thread_id, t);
        let mut summaries: Vec<BackgroundTerminalActivitySummary> = Vec::new();
        let mut i: usize = 0;
        while i < self.terminals.len()
            invariant
                i <= self.terminals@.len(),
                all == self.terminals.deep_view(),
                show == (|t: TrackedTerminalView| summary_of(thread_id, t)),
                summaries.deep_view() == all.take(i as int).map_values(show),
            decreases self.terminals@.len() - i,
        {
            let ghost before = summaries.deep_view();
            let terminal = &self.terminals[i];
            assert(terminal.deep_view() == all[i as int]);
            let process_id = match &terminal.process_id {
                Some(process_id) => process_id.clone(),
                None => terminal.call_id.clone(),
            };
            let summary = BackgroundTerminalActivitySummary {
                thread_id,
                process_id,
                command_display: terminal.command.clone(),
            };
            assert(summary.deep_view() == show(all[i as int]));
            summaries.push(summary);
            assert(summaries.deep_view() =~= before.push(show(all[i as int])));
            assert(all.take(i + 1).map_values(show) =~= before.push(show(all[i as int])));
            i = i + 1;
        }
        assert(all.take(i as int) =~= all);
        summaries
    }

    /// The command of the tracked terminal that goes by `identifier`.
    pub fn background_terminal_command_display(&self, identifier: &String) -> (command: Option<
        String,
    >)
        ensures
            command.deep_view() == match first_terminal(
                self.deep_view().terminals,
                seq![identifier@],
            ) {
                Some(terminal) => Some(terminal.command),
                None => None,
            },
    {
        let mut ids: Vec<String> = Vec::new();
        ids.push(identifier.clone());
        assert(ids.deep_view() =~= seq![identifier@]);
        match self.first_terminal(&ids) {
            Some(terminal) => Some(terminal.command),
            None => None,
        }
    }

    /// The call that started the tracked terminal that goes by `identifier`.
    pub fn background_terminal_call_id(&self, identifier: &String) -> (call_id: Option<String>)
        ensures
            call_id.deep_view() == match first_terminal(
                self.deep_view().terminals,
                seq![identifier@],
            ) {
                Some(terminal) => Some(terminal.call_id),
                None => None,
            },
    {
        let mut ids: Vec<String> = Vec::new();
        ids.push(identifier.clone());
        assert(ids.deep_view() =~= seq![identifier@]);
        match self.first_terminal(&ids) {
            Some(terminal) => Some(terminal.call_id),
            None => None,
        }
    }
}

} // verus!
