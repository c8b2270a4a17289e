//! Prompts that wake an agent up: when a background terminal or a subagent has ended.
use crate::agent_navigation::{closed_in, entry_of, same_id};
use crate::app_state::{App, AppView};
use crate::collections::Duplicate;
use crate::effects::{
    no_effects, push_effect, push_effects, AppEffect, AppEffectView,
    PendingSubagentCompletionWakeup, PendingSubagentCompletionWakeupView,
};
use crate::protocol::{
    AppCommand, AppCommandView, ThreadSessionState, ThreadSessionStateView, UserInput,
    UserInputView, UserTurn, UserTurnView,
};
use crate::thread_id::{id_text, ThreadId};
use std::collections::VecDeque;
use vstd::prelude::*;
use vstd::string::StringExecFns;

verus! {

/// The turn that submits `text` under a session's settings.
pub open spec fn wakeup_turn(session: ThreadSessionStateView, text: Seq<char>) -> AppCommandView {
    AppCommandView::UserTurn(
        UserTurnView {
            items: seq![UserInputView::Text { text }],
            cwd: session.cwd,
            approval_policy: session.approval_policy,
            approvals_reviewer: Some(session.approvals_reviewer),
            permission_profile: session.permission_profile,
            model: session.model,
            effort: session.reasoning_effort,
            summary: None,
            service_tier: match session.service_tier {
                Some(tier) => Some(Some(tier)),
                None => None,
            },
            final_output_json_schema: None,
            collaboration_mode: None,
            personality: None,
        },
    )
}

/// The prompt for a subagent that has ended.
pub open spec fn subagent_prompt(label: Seq<char>, thread_id: ThreadId) -> Seq<char> {
    "Subagent completed.\n\nAgent: "@ + label + "\nThread: "@ + id_text(thread_id)
        + "\n\nContinue from this subagent result. Inspect the subagent transcript if needed before taking further action."@
}

/// The turn that submits `text` under a session's settings.
pub fn plain_text_wakeup_command(session: &ThreadSessionState, text: String) -> (op: AppCommand)
    ensures
        op.deep_view() == wakeup_turn(session.deep_view(), text@),
{
    let mut items: Vec<UserInput> = Vec::new();
    items.push(UserInput::Text { text });
    assert(items.deep_view() =~= seq![UserInputView::Text { text: text@ }]);
    let service_tier = match &session.service_tier {
        Some(tier) => Some(Some(tier.clone())),
        None => None,
    };
    AppCommand::UserTurn(
        UserTurn {
            items,
            cwd: session.cwd.clone(),
            approval_policy: session.approval_policy,
            approvals_reviewer: Some(session.approvals_reviewer),
            permission_profile: session.permission_profile.clone(),
            model: session.model.clone(),
            effort: session.reasoning_effort.duplicate(),
            summary: None,
            service_tier,
            final_output_json_schema: None,
            collaboration_mode: None,
            personality: None,
        },
    )
}

/// The prompt for a subagent that has ended.
pub fn subagent_completion_wakeup_prompt(label: &str, thread_id: ThreadId) -> (prompt: String)
    ensures
        prompt@ == subagent_prompt(label@, thread_id),
{
    let id = thread_id.to_text();
    "Subagent completed.\n\nAgent: ".to_owned().concat(label).concat("\nThread: ").concat(
        id.as_str(),
    ).concat(
        "\n\nContinue from this subagent result. Inspect the subagent transcript if needed before taking further action.",
    )
}

/// Whether the main agent is yet to be told of a subagent.
pub open spec fn waits_to_be_told(
    pending: Seq<PendingSubagentCompletionWakeupView>,
    thread_id: ThreadId,
) -> bool {
    exists|i: int| 0 <= i < pending.len() && (#[trigger] pending[i]).thread_id == thread_id
}

/// The steps that tell the agent on screen of subagents.
pub open spec fn tellings(pending: Seq<PendingSubagentCompletionWakeupView>) -> Seq<AppEffectView> {
    pending.map_values(
        |p: PendingSubagentCompletionWakeupView|
            AppEffectView::SubmitSubagentCompletionWakeup { thread_id: p.thread_id, label: p.label },
    )
}

impl AppView {
    /// Whether the main agent is to be told that a thread has ended: where it is a subagent's.
    pub open spec fn should_wake_primary(self, thread_id: ThreadId) -> bool {
        &&& Some(thread_id) != self.primary_thread_id
        &&& !self.is_side(thread_id)
        &&& entry_of(self.agents, thread_id) is Some
    }

    /// Once the main agent was told, or is going to be told, that a subagent has ended.
    pub open spec fn subagent_ended(self, label: Seq<char>, thread_id: ThreadId) -> (
        AppView,
        Seq<AppEffectView>,
    ) {
        if self.displayed() == self.primary_thread_id {
            (self, seq![AppEffectView::SubmitSubagentCompletionWakeup { thread_id, label }])
        } else {
            match (self.primary_thread_id, self.primary_session) {
                (Some(primary), Some(session)) => {
                    let next = self.with_channel_for(primary);
                    let (store, start) = next.store_of(primary)->0.wakeup_offered(
                        subagent_prompt(label, thread_id),
                    );
                    (
                        next.with_store(primary, store),
                        match start {
                            Some(text) => seq![
                                AppEffectView::SubmitThreadOp {
                                    thread_id: primary,
                                    op: wakeup_turn(session, text),
                                },
                            ],
                            None => Seq::empty(),
                        },
                    )
                },
                _ => if waits_to_be_told(self.pending_subagent_wakeups, thread_id) {
                    (self, Seq::empty())
                } else {
                    (
                        AppView {
                            pending_subagent_wakeups: self.pending_subagent_wakeups.push(
                                PendingSubagentCompletionWakeupView { thread_id, label },
                            ),
                            ..self
                        },
                        Seq::empty(),
                    )
                },
            }
        }
    }

    /// Once a thread was found to have ended, where `changed` says whether that is news.
    pub open spec fn closed_subagent_told(self, thread_id: ThreadId, changed: bool) -> (
        AppView,
        Seq<AppEffectView>,
    ) {
        if changed && self.should_wake_primary(thread_id) {
            self.subagent_ended(self.subagent_name(thread_id), thread_id)
        } else {
            (self, Seq::empty())
        }
    }

    /// Once a thread was noted to have ended, and the main agent told where that is news.
    pub open spec fn subagent_closed(self, thread_id: ThreadId) -> (AppView, Seq<AppEffectView>) {
        let (agents, changed) = closed_in(self.agents, thread_id);
        let (next, effects) = AppView { agents, ..self }.closed_subagent_told(thread_id, changed);
        (next, seq![AppEffectView::AgentEntryChanged { thread_id }] + effects)
    }
}

impl App {
    /// Whether the main agent is to be told that a thread has ended.
    pub fn should_wake_primary_for_closed_subagent(&self, thread_id: ThreadId) -> (result: bool)
        ensures
            result == self@.should_wake_primary(thread_id),
    {
        !same_id(self.primary_thread_id, thread_id) && !self.is_side_thread(thread_id)
            && self.agent_navigation.get(thread_id).is_some()
    }

    /// Tells the main agent that a subagent has ended: at once where it is on screen, through a
    /// prompt on its thread where it is known, and otherwise as soon as it is on screen.
    pub fn queue_or_submit_subagent_completion_wakeup(
        &mut self,
        label: String,
        thread_id: ThreadId,
    ) -> (effects: Vec<AppEffect>)
        ensures
            (final(self)@, effects.deep_view()) == old(self)@.subagent_ended(label@, thread_id),
    {
        let mut effects = no_effects();
        if self.current_displayed_thread_id() == self.primary_thread_id {
            push_effect(
                &mut effects,
                AppEffect::SubmitSubagentCompletionWakeup { thread_id, label },
            );
            assert(effects.deep_view() =~= old(self)@.subagent_ended(label@, thread_id).1);
            return effects;
        }
        let ghost before = self@;
        if let Some(primary) = self.primary_thread_id {
            if let Some(session) = self.primary_session_configured.duplicate() {
                let text = subagent_completion_wakeup_prompt(label.as_str(), thread_id);
                let place = self.ensure_thread_channel(primary);
                let ghost ensured = self@;
                assert(self.thread_event_channels@[place as int].deep_view()
                    == ensured.channels[place as int]);
                let start = self.thread_event_channels[place].store.queue_or_start_offscreen_wakeup(
                    text,
                );
                let ghost offered = ensured.store_of(primary)->0.wakeup_offered(text@);
                assert(self@ =~= ensured.with_store(primary, offered.0));
                if let Some(text) = start {
                    push_effect(
                        &mut effects,
                        AppEffect::SubmitThreadOp {
                            thread_id: primary,
                            op: plain_text_wakeup_command(&session, text),
                        },
                    );
                }
                assert(effects.deep_view() =~= before.subagent_ended(label@, thread_id).1);
                return effects;
            }
        }
        let mut i: usize = 0;
        while i < self.pending_subagent_completion_wakeups.len()
            invariant
                i <= self.pending_subagent_completion_wakeups@.len(),
                self@ == before,
                before == old(self)@,
                before.displayed() != before.primary_thread_id,
                before.primary_thread_id is None || before.primary_session is None,
                effects.deep_view() == Seq::<AppEffectView>::empty(),
                forall|j: int|
                    0 <= j < i ==> (#[trigger] self@.pending_subagent_wakeups[j]).thread_id
                        != thread_id,
            decreases self.pending_subagent_completion_wakeups@.len() - i,
        {
            assert(self@.pending_subagent_wakeups[i as int]
                == self.pending_subagent_completion_wakeups@[i as int].deep_view());
            if self.pending_subagent_completion_wakeups[i].thread_id == thread_id {
                return effects;
            }
            i = i + 1;
        }
        let pending = PendingSubagentCompletionWakeup { thread_id, label };
        self.pending_subagent_completion_wakeups.push_back(pending);
        assert(self@.pending_subagent_wakeups =~= before.pending_subagent_wakeups.push(
            pending.deep_view(),
        ));
        effects
    }

    /// Tells the main agent that a thread has ended, where that is news and the thread is a
    /// subagent's.
    pub fn wake_primary_for_closed_subagent_transition(&mut self, thread_id: ThreadId, changed: bool) -> (effects:
        Vec<AppEffect>)
        ensures
            (final(self)@, effects.deep_view()) == old(self)@.closed_subagent_told(
                thread_id,
                changed,
            ),
    {
        if changed && self.should_wake_primary_for_closed_subagent(thread_id) {
            let label = self.subagent_activity_label(thread_id);
            self.queue_or_submit_subagent_completion_wakeup(label, thread_id)
        } else {
            no_effects()
        }
    }

    /// Notes that a thread has ended, and tells the main agent where that is news.
    pub fn mark_subagent_closed_and_wake_primary_once(&mut self, thread_id: ThreadId) -> (effects:
        Vec<AppEffect>)
        ensures
            (final(self)@, effects.deep_view()) == old(self)@.subagent_closed(thread_id),
    {
        let changed = self.agent_navigation.mark_closed(thread_id);
        let mut effects = no_effects();
        push_effect(&mut effects, AppEffect::AgentEntryChanged { thread_id });
        let more = self.wake_primary_for_closed_subagent_transition(thread_id, changed);
        push_effects(&mut effects, more);
        assert(effects.deep_view() =~= old(self)@.subagent_closed(thread_id).1);
        effects
    }

    /// Tells the agent on screen of the subagents that it was not told of, where it is the main
    /// one.
    pub fn flush_pending_subagent_completion_wakeups(&mut self) -> (effects: Vec<AppEffect>)
        ensures
            ({
                let before = old(self)@;
                if before.displayed() == before.primary_thread_id {
                    &&& effects.deep_view() == tellings(before.pending_subagent_wakeups)
                    &&& final(self)@ == (AppView {
                        pending_subagent_wakeups: Seq::empty(),
                        ..before
                    })
                } else {
                    &&& effects.deep_view() == Seq::<AppEffectView>::empty()
                    &&& final(self)@ == before
                }
            }),
    {
        let mut effects = no_effects();
        if self.current_displayed_thread_id() != self.primary_thread_id {
            return effects;
        }
        let ghost all = self@.pending_subagent_wakeups;
        let mut i: usize = 0;
        assert(tellings(all.take(0)) =~= Seq::<AppEffectView>::empty());
        while i < self.pending_subagent_completion_wakeups.len()
            invariant
                i <= self.pending_subagent_completion_wakeups@.len(),
                self@ == old(self)@,
                all == self@.pending_subagent_wakeups,
                effects.deep_view() == tellings(all.take(i as int)),
            decreases self.pending_subagent_completion_wakeups@.len() - i,
        {
            let pending = &self.pending_subagent_completion_wakeups[i];
            assert(pending.deep_view() == all[i as int]);
            let ghost before = effects.deep_view();
            push_effect(
                &mut effects,
                AppEffect::SubmitSubagentCompletionWakeup {
                    thread_id: pending.thread_id,
                    label: pending.label.clone(),
                },
            );
            assert(effects.deep_view() =~= tellings(all.take(i + 1)));
            i = i + 1;
        }
        assert(all.take(i as int) =~= all);
        self.pending_subagent_completion_wakeups = VecDeque::new();
        assert(self@.pending_subagent_wakeups =~= Seq::<
            PendingSubagentCompletionWakeupView,
        >::empty());
        effects
    }
}

} // verus!
