//! What becomes of the commands that the user gives on a thread.
use crate::app_state::AppView;
use crate::effects::AppEffectView;
use crate::op_submission::{
    OpStepView, RequestResolutionView, ServerCallView, SteerAttemptView, SteerReplyView,
    SteerStepView, SubmitStepView, TurnConfigView, TurnStartView,
};
use crate::pending_replay::after_op;
use crate::protocol::{AppCommandView, UserTurnView};
use crate::thread_events::ThreadEventStoreView;
use crate::thread_id::{id_text, ThreadId};
use vstd::prelude::*;

verus! {

/// Whether a turn is started as the user has asked for it: each setting is the one that the turn
/// gives. Who answers when the agent asks is up to the client where the turn does not say; and the
/// client's active profile goes along only with the permissions that it stands for.
pub open spec fn starts_as_asked(
    start: TurnStartView,
    thread_id: ThreadId,
    turn: UserTurnView,
    config: TurnConfigView,
) -> bool {
    &&& start.thread_id == thread_id
    &&& start.items == turn.items
    &&& start.cwd == turn.cwd
    &&& start.model == turn.model
    &&& start.effort == turn.effort
    &&& start.summary == turn.summary
    &&& start.service_tier == turn.service_tier
    &&& start.approval_policy == turn.approval_policy
    &&& start.permission_profile == turn.permission_profile
    &&& start.collaboration_mode == turn.collaboration_mode
    &&& start.personality == turn.personality
    &&& start.final_output_json_schema == turn.final_output_json_schema
    &&& turn.approvals_reviewer is Some ==> start.approvals_reviewer == turn.approvals_reviewer->0
    &&& turn.approvals_reviewer is None ==> start.approvals_reviewer == config.approvals_reviewer
    &&& turn.permission_profile == config.permission_profile ==> start.active_permission_profile
        == config.active_permission_profile
    &&& turn.permission_profile != config.permission_profile
        ==> start.active_permission_profile is None
}

/// A turn of the user steers the turn that runs on the thread, with what the user has said; where
/// none runs, one is started, and every setting of it is the one that the user's turn gives.
pub proof fn law_turn_is_started_as_asked(
    app: AppView,
    thread_id: ThreadId,
    turn: UserTurnView,
    config: TurnConfigView,
)
    ensures
        match app.store_of(thread_id) {
            Some(store) => match store.active_turn_id {
                Some(running) => app.planned(thread_id, AppCommandView::UserTurn(turn), config)
                    == OpStepView::Call(
                    ServerCallView::TurnSteer { thread_id, turn_id: running, items: turn.items },
                ),
                None => app.planned(
                    thread_id,
                    AppCommandView::UserTurn(turn),
                    config,
                ) matches OpStepView::Call(ServerCallView::TurnStart(start)) && starts_as_asked(
                    start,
                    thread_id,
                    turn,
                    config,
                ),
            },
            None => app.planned(
                thread_id,
                AppCommandView::UserTurn(turn),
                config,
            ) matches OpStepView::Call(ServerCallView::TurnStart(start)) && starts_as_asked(
                start,
                thread_id,
                turn,
                config,
            ),
        },
{
}

/// Every other command has the call to the server that carries it out, on the same thread and with
/// the same arguments. To change nothing of the turn's context takes no call, and answers to
/// questions have none of their own.
pub proof fn law_command_is_carried_out_as_given(
    app: AppView,
    thread_id: ThreadId,
    op: AppCommandView,
    config: TurnConfigView,
)
    ensures
        ({
            let step = app.planned(thread_id, op, config);
            match op {
                AppCommandView::Interrupt => match app.turn_on(thread_id) {
                    Some(turn_id) => step == OpStepView::Call(
                        ServerCallView::TurnInterrupt { thread_id, turn_id },
                    ),
                    None => step == OpStepView::Call(ServerCallView::StartupInterrupt { thread_id }),
                },
                AppCommandView::UserTurn(_) => step is Call,
                AppCommandView::ListSkills { cwds, force_reload } => step == OpStepView::Call(
                    ServerCallView::SkillsList { cwds, force_reload },
                ),
                AppCommandView::Compact => step == OpStepView::Call(
                    ServerCallView::ThreadCompactStart { thread_id },
                ),
                AppCommandView::SetThreadName { name } => step == OpStepView::Call(
                    ServerCallView::ThreadSetName { thread_id, name },
                ),
                AppCommandView::ThreadRollback { num_turns } => step == OpStepView::Call(
                    ServerCallView::ThreadRollback { thread_id, num_turns },
                ),
                AppCommandView::Review { target } => step == OpStepView::Call(
                    ServerCallView::ReviewStart { thread_id, target },
                ),
                AppCommandView::CleanBackgroundTerminals => step == OpStepView::Call(
                    ServerCallView::BackgroundTerminalsClean { thread_id },
                ),
                AppCommandView::TerminateBackgroundTerminal { process_id } => step
                    == OpStepView::Call(
                    ServerCallView::BackgroundTerminalTerminate { thread_id, process_id },
                ),
                AppCommandView::RealtimeConversationStart { transport, voice } => step
                    == OpStepView::Call(
                    ServerCallView::RealtimeStart { thread_id, transport, voice },
                ),
                AppCommandView::RealtimeConversationAudio { frame } => step == OpStepView::Call(
                    ServerCallView::RealtimeAudio { thread_id, frame },
                ),
                AppCommandView::RealtimeConversationClose => step == OpStepView::Call(
                    ServerCallView::RealtimeStop { thread_id },
                ),
                AppCommandView::RunUserShellCommand { command } => step == OpStepView::Call(
                    ServerCallView::ShellCommand { thread_id, command },
                ),
                AppCommandView::ReloadUserConfig => step == OpStepView::Call(
                    ServerCallView::ReloadUserConfig,
                ),
                AppCommandView::OverrideTurnContext { cwd } => match cwd {
                    Some(cwd) => step == OpStepView::Call(
                        ServerCallView::RuntimeCwdUpdate { thread_id, cwd },
                    ),
                    None => step == OpStepView::Done,
                },
                AppCommandView::ApproveGuardianDeniedAction { event } => step == OpStepView::Call(
                    ServerCallView::ApproveGuardianDeniedAction { thread_id, event },
                ),
                AppCommandView::ExecApproval { .. }
                | AppCommandView::PatchApproval { .. }
                | AppCommandView::ResolveElicitation { .. }
                | AppCommandView::RequestPermissionsResponse { .. }
                | AppCommandView::UserInputAnswer { .. }
                | AppCommandView::Shutdown
                | AppCommandView::Other { .. } => step == OpStepView::Unsupported,
            }
        }),
        app.turn_on(thread_id) is Some ==> app.store_of(thread_id) is Some && app.turn_on(thread_id)
            == app.store_of(thread_id)->0.active_turn_id,
        app.store_of(thread_id) is Some && app.store_of(thread_id)->0.active_turn_id is Some
            ==> app.turn_on(thread_id) is Some,
{
}

/// What a reply to steering leads to: an accepted input needs nothing more; one that the turn does
/// not take is queued with what the server says; where there is no such turn, one is started as the
/// user has asked; where another turn runs, that one is tried once; and else the failure is told.
pub proof fn law_reply_to_steering_is_acted_on(
    app: AppView,
    attempt: SteerAttemptView,
    turn: UserTurnView,
    config: TurnConfigView,
    reply: SteerReplyView,
)
    ensures
        ({
            let (next, step) = app.steered(attempt, turn, config, reply);
            match reply {
                SteerReplyView::Accepted => next == app && step == SteerStepView::Done,
                SteerReplyView::NotSteerable { message } => next == app && step
                    == (SteerStepView::QueueRejected { message }),
                SteerReplyView::Missing => step matches SteerStepView::Start(start)
                    && starts_as_asked(start, attempt.thread_id, turn, config),
                SteerReplyView::ExpectedTurnMismatch { actual_turn_id } => if attempt.retried
                    || actual_turn_id == attempt.turn_id {
                    step == SteerStepView::Fail
                } else {
                    step matches SteerStepView::Retry(again) && again.thread_id
                        == attempt.thread_id && again.turn_id == actual_turn_id && again.retried
                },
                SteerReplyView::Failed => next == app && step == SteerStepView::Fail,
            }
        }),
{
}

/// A command that has answered a request of the server goes no further. One that has not is carried
/// out, unless its thread is closed; where the answer failed, the user is told which thread it was
/// for and why.
pub proof fn law_command_is_an_answer_or_is_carried_out(
    app: AppView,
    thread_id: ThreadId,
    op: AppCommandView,
    config: TurnConfigView,
    error: Seq<char>,
)
    ensures
        ({
            let (next, step, effects) = app.submission_resolved(
                thread_id,
                op,
                config,
                RequestResolutionView::NotPending,
            );
            &&& next == app
            &&& effects.len() == 0
            &&& app.is_closed(thread_id) ==> step == SubmitStepView::Done
            &&& !app.is_closed(thread_id) ==> step == SubmitStepView::Submit(
                app.planned(thread_id, op, config),
            )
        }),
        ({
            let (next, step, effects) = app.submission_resolved(
                thread_id,
                op,
                config,
                RequestResolutionView::AnswerFailed { error },
            );
            &&& next == app
            &&& effects == seq![
                AppEffectView::AddErrorMessage {
                    message: "Failed to resolve app-server request for thread "@ + id_text(
                        thread_id,
                    ) + ": "@ + error,
                },
            ]
            &&& app.is_closed(thread_id) ==> step == SubmitStepView::Done
            &&& !app.is_closed(thread_id) ==> step == SubmitStepView::Submit(
                app.planned(thread_id, op, config),
            )
        }),
        ({
            let (next, step, effects) = app.submission_resolved(
                thread_id,
                op,
                config,
                RequestResolutionView::Answered,
            );
            &&& step == SubmitStepView::Done
            &&& (next, effects) == app.op_settled(thread_id, op)
        }),
{
}

/// An answer closes its question in the store of its thread, the list of threads that wait is shown
/// anew, and so is what the thread waits for. Any other command leaves all that alone. A command
/// that the server has no call for is said to be missing.
pub proof fn law_answer_is_taken_note_of(app: AppView, thread_id: ThreadId, op: AppCommandView)
    ensures
        ({
            let answers = op is ExecApproval || op is PatchApproval || op is ResolveElicitation
                || op is RequestPermissionsResponse || op is UserInputAnswer || op is Shutdown;
            let (next, effects) = app.op_settled(thread_id, op);
            &&& !answers ==> next == app && effects.len() == 0
            &&& answers ==> next == match app.store_of(thread_id) {
                Some(store) => app.with_store(
                    thread_id,
                    ThreadEventStoreView { pending: after_op(store.pending, op), ..store },
                ),
                None => app,
            }
            &&& answers ==> effects.len() > 0 && effects[0]
                == (AppEffectView::SetPendingThreadApprovals { labels: next.waiting_labels() })
            &&& answers ==> effects.skip(1) == match next.store_of(thread_id) {
                Some(store) => match store.waits_for() {
                    Some(status) => seq![AppEffectView::SetSideParentStatus { thread_id, status }],
                    None => seq![AppEffectView::ClearSideParentActionStatus { thread_id }],
                },
                None => Seq::empty(),
            }
        }),
        app.op_submitted(thread_id, op, true) == app.op_settled(thread_id, op),
        app.op_submitted(thread_id, op, false) == (
            app,
            seq![
                AppEffectView::AddErrorMessage {
                    message: "Not available in TUI yet for thread "@ + id_text(thread_id) + "."@,
                },
            ],
        ),
{
    let (next, effects) = app.op_settled(thread_id, op);
    if effects.len() > 0 {
        assert(effects.skip(1) =~= next.side_parent_shown(thread_id));
    }
}

/// Cleaning the terminals of a thread stops them all, shows the list of terminals anew and, where
/// the thread is on screen, clears what is shown of them. No other call has such an end.
pub proof fn law_only_cleaning_stops_terminals(app: AppView, thread_id: ThreadId, op: AppCommandView)
    ensures
        ({
            let (next, effects) = app.call_succeeded(thread_id, op);
            if op is CleanBackgroundTerminals {
                &&& next == match app.store_of(thread_id) {
                    Some(store) => app.with_store(thread_id, store.with_all_stopped()),
                    None => app,
                }
                &&& effects.len() > 0 && effects[0] == next.terminals_listed()
                &&& next.active_thread_id == Some(thread_id) ==> effects.len() == 2 && effects[1]
                    == AppEffectView::ClearShownTerminals
                &&& next.active_thread_id != Some(thread_id) ==> effects.len() == 1
            } else {
                next == app && effects.len() == 0
            }
        }),
{
}

} // verus!
