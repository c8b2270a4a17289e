//! Commands of the user, as calls to the server.
//!
//! A turn is sent to the turn that runs, which is called steering it, or starts a new one. The
//! server may know better which turn runs; then its word is taken, and steering is tried again
//! once.
use crate::agent_navigation::same_id;
use crate::app_state::{channel_place, lemma_channel_place, lemma_channel_place_is, App, AppView};
use crate::collections::Duplicate;
use crate::effects::{no_effects, push_effect, push_effects, AppEffect, AppEffectView};
use crate::pending_replay::can_settle;
use crate::protocol::{
    AppCommand, AppCommandView, ApprovalsReviewer, AskForApproval, UserInput, UserInputView,
    UserTurn, UserTurnView,
};
use crate::thread_events::{ThreadEventStore, ThreadEventStoreView};
use crate::thread_id::{id_text, ThreadId};
use vstd::prelude::*;
use vstd::string::StringExecFns;

verus! {

/// The settings of the client that a turn falls back on.
#[derive(Debug, PartialEq, Eq)]
pub struct TurnConfig {
    pub approvals_reviewer: ApprovalsReviewer,
    pub permission_profile: String,
    /// The name that the profile goes by.
    pub active_permission_profile: Option<String>,
}

/// What a [`TurnConfig`] means.
#[verifier::ext_equal]
pub ghost struct TurnConfigView {
    pub approvals_reviewer: ApprovalsReviewer,
    pub permission_profile: Seq<char>,
    pub active_permission_profile: Option<Seq<char>>,
}

impl DeepView for TurnConfig {
    type V = TurnConfigView;

    open spec fn deep_view(&self) -> TurnConfigView {
        TurnConfigView {
            approvals_reviewer: self.approvals_reviewer,
            permission_profile: self.permission_profile@,
            active_permission_profile: self.active_permission_profile.deep_view(),
        }
    }
}

impl Duplicate for TurnConfig {
    fn duplicate(&self) -> TurnConfig {
        TurnConfig {
            approvals_reviewer: self.approvals_reviewer,
            permission_profile: self.permission_profile.clone(),
            active_permission_profile: self.active_permission_profile.duplicate(),
        }
    }
}

/// A turn that is to be started.
#[derive(Debug, PartialEq, Eq)]
pub struct TurnStart {
    pub thread_id: ThreadId,
    pub items: Vec<UserInput>,
    pub cwd: String,
    pub approval_policy: AskForApproval,
    pub approvals_reviewer: ApprovalsReviewer,
    pub permission_profile: String,
    pub active_permission_profile: Option<String>,
    pub model: String,
    pub effort: Option<String>,
    pub summary: Option<String>,
    pub service_tier: Option<Option<String>>,
    pub collaboration_mode: Option<String>,
    pub personality: Option<String>,
    pub final_output_json_schema: Option<String>,
}

/// What a [`TurnStart`] means.
#[verifier::ext_equal]
pub ghost struct TurnStartView {
    pub thread_id: ThreadId,
    pub items: Seq<UserInputView>,
    pub cwd: Seq<char>,
    pub approval_policy: AskForApproval,
    pub approvals_reviewer: ApprovalsReviewer,
    pub permission_profile: Seq<char>,
    pub active_permission_profile: Option<Seq<char>>,
    pub model: Seq<char>,
    pub effort: Option<Seq<char>>,
    pub summary: Option<Seq<char>>,
    pub service_tier: Option<Option<Seq<char>>>,
    pub collaboration_mode: Option<Seq<char>>,
    pub personality: Option<Seq<char>>,
    pub final_output_json_schema: Option<Seq<char>>,
}

impl DeepView for TurnStart {
    type V = TurnStartView;

    open spec fn deep_view(&self) -> TurnStartView {
        TurnStartView {
            thread_id: self.thread_id,
            items: self.items.deep_view(),
            cwd: self.cwd@,
            approval_policy: self.approval_policy,
            approvals_reviewer: self.approvals_reviewer,
            permission_profile: self.permission_profile@,
            active_permission_profile: self.active_permission_profile.deep_view(),
            model: self.model@,
            effort: self.effort.deep_view(),
            summary: self.summary.deep_view(),
            service_tier: self.service_tier.deep_view(),
            collaboration_mode: self.collaboration_mode.deep_view(),
            personality: self.personality.deep_view(),
            final_output_json_schema: self.final_output_json_schema.deep_view(),
        }
    }
}

impl Duplicate for TurnStart {
    fn duplicate(&self) -> TurnStart {
        TurnStart {
            thread_id: self.thread_id,
            items: self.items.duplicate(),
            cwd: self.cwd.clone(),
            approval_policy: self.approval_policy,
            approvals_reviewer: self.approvals_reviewer,
            permission_profile: self.permission_profile.clone(),
            active_permission_profile: self.active_permission_profile.duplicate(),
            model: self.model.clone(),
            effort: self.effort.duplicate(),
            summary: self.summary.duplicate(),
            service_tier: self.service_tier.duplicate(),
            collaboration_mode: self.collaboration_mode.duplicate(),
            personality: self.personality.duplicate(),
            final_output_json_schema: self.final_output_json_schema.duplicate(),
        }
    }
}

/// A call to the server.
#[derive(Debug, PartialEq, Eq)]
pub enum ServerCall {
    TurnInterrupt {
        thread_id: ThreadId,
        turn_id: String,
    },
    StartupInterrupt {
        thread_id: ThreadId,
    },
    TurnSteer {
        thread_id: ThreadId,
        turn_id: String,
        items: Vec<UserInput>,
    },
    TurnStart(TurnStart),
    SkillsList {
        cwds: Vec<String>,
        force_reload: bool,
    },
    ThreadCompactStart {
        thread_id: ThreadId,
    },
    ThreadSetName {
        thread_id: ThreadId,
        name: String,
    },
    ThreadRollback {
        thread_id: ThreadId,
        num_turns: u32,
    },
    ReviewStart {
        thread_id: ThreadId,
        target: String,
    },
    BackgroundTerminalsClean {
        thread_id: ThreadId,
    },
    BackgroundTerminalTerminate {
        thread_id: ThreadId,
        process_id: String,
    },
    RealtimeStart {
        thread_id: ThreadId,
        transport: Option<String>,
        voice: Option<String>,
    },
    RealtimeAudio {
        thread_id: ThreadId,
        frame: String,
    },
    RealtimeStop {
        thread_id: ThreadId,
    },
    ShellCommand {
        thread_id: ThreadId,
        command: String,
    },
    ReloadUserConfig,
    RuntimeCwdUpdate {
        thread_id: ThreadId,
        cwd: String,
    },
    ApproveGuardianDeniedAction {
        thread_id: ThreadId,
        event: String,
    },
}

/// What a [`ServerCall`] means.
#[verifier::ext_equal]
pub ghost enum ServerCallView {
    TurnInterrupt {
        thread_id: ThreadId,
        turn_id: Seq<char>,
    },
    StartupInterrupt {
        thread_id: ThreadId,
    },
    TurnSteer {
        thread_id: ThreadId,
        turn_id: Seq<char>,
        items: Seq<UserInputView>,
    },
    TurnStart(TurnStartView),
    SkillsList {
        cwds: Seq<Seq<char>>,
        force_reload: bool,
    },
    ThreadCompactStart {
        thread_id: ThreadId,
    },
    ThreadSetName {
        thread_id: ThreadId,
        name: Seq<char>,
    },
    ThreadRollback {
        thread_id: ThreadId,
        num_turns: u32,
    },
    ReviewStart {
        thread_id: ThreadId,
        target: Seq<char>,
    },
    BackgroundTerminalsClean {
        thread_id: ThreadId,
    },
    BackgroundTerminalTerminate {
        thread_id: ThreadId,
        process_id: Seq<char>,
    },
    RealtimeStart {
        thread_id: ThreadId,
        transport: Option<Seq<char>>,
        voice: Option<Seq<char>>,
    },
    RealtimeAudio {
        thread_id: ThreadId,
        frame: Seq<char>,
    },
    RealtimeStop {
        thread_id: ThreadId,
    },
    ShellCommand {
        thread_id: ThreadId,
        command: Seq<char>,
    },
    ReloadUserConfig,
    RuntimeCwdUpdate {
        thread_id: ThreadId,
        cwd: Seq<char>,
    },
    ApproveGuardianDeniedAction {
        thread_id: ThreadId,
        event: Seq<char>,
    },
}

impl DeepView for ServerCall {
    type V = ServerCallView;

    open spec fn deep_view(&self) -> ServerCallView {
        match self {
            ServerCall::TurnInterrupt { thread_id, turn_id } => ServerCallView::TurnInterrupt {
                thread_id: *thread_id,
                turn_id: turn_id@,
            },
            ServerCall::StartupInterrupt { thread_id } => ServerCallView::StartupInterrupt {
                thread_id: *thread_id,
            },
            ServerCall::TurnSteer { thread_id, turn_id, items } => ServerCallView::TurnSteer {
                thread_id: *thread_id,
                turn_id: turn_id@,
                items: items.deep_view(),
            },
            ServerCall::TurnStart(value) => ServerCallView::TurnStart(value.deep_view()),
            ServerCall::SkillsList { cwds, force_reload } => ServerCallView::SkillsList {
                cwds: cwds.deep_view(),
                force_reload: *force_reload,
            },
            ServerCall::ThreadCompactStart { thread_id } => ServerCallView::ThreadCompactStart {
                thread_id: *thread_id,
            },
            ServerCall::ThreadSetName { thread_id, name } => ServerCallView::ThreadSetName {
                thread_id: *thread_id,
                name: name@,
            },
            ServerCall::ThreadRollback { thread_id, num_turns } => ServerCallView::ThreadRollback {
                thread_id: *thread_id,
                num_turns: *num_turns,
            },
            ServerCall::ReviewStart { thread_id, target } => ServerCallView::ReviewStart {
                thread_id: *thread_id,
                target: target@,
            },
            ServerCall::BackgroundTerminalsClean { thread_id } => ServerCallView::BackgroundTerminalsClean {
                thread_id: *thread_id,
            },
            ServerCall::BackgroundTerminalTerminate { thread_id, process_id } => ServerCallView::BackgroundTerminalTerminate {
                thread_id: *thread_id,
                process_id: process_id@,
            },
            ServerCall::RealtimeStart { thread_id, transport, voice } => ServerCallView::RealtimeStart {
                thread_id: *thread_id,
                transport: transport.deep_view(),
                voice: voice.deep_view(),
            },
            ServerCall::RealtimeAudio { thread_id, frame } => ServerCallView::RealtimeAudio {
                thread_id: *thread_id,
                frame: frame@,
            },
            ServerCall::RealtimeStop { thread_id } => ServerCallView::RealtimeStop {
                thread_id: *thread_id,
            },
            ServerCall::ShellCommand { thread_id, command } => ServerCallView::ShellCommand {
                thread_id: *thread_id,
                command: command@,
            },
            ServerCall::ReloadUserConfig => ServerCallView::ReloadUserConfig,
            ServerCall::RuntimeCwdUpdate { thread_id, cwd } => ServerCallView::RuntimeCwdUpdate {
                thread_id: *thread_id,
                cwd: cwd@,
            },
            ServerCall::ApproveGuardianDeniedAction { thread_id, event } => ServerCallView::ApproveGuardianDeniedAction {
                thread_id: *thread_id,
                event: event@,
            },
        }
    }
}

impl Duplicate for ServerCall {
    fn duplicate(&self) -> ServerCall {
        match self {
            ServerCall::TurnInterrupt { thread_id, turn_id } => ServerCall::TurnInterrupt {
                thread_id: *thread_id,
                turn_id: turn_id.clone(),
            },
            ServerCall::StartupInterrupt { thread_id } => ServerCall::StartupInterrupt {
                thread_id: *thread_id,
            },
            ServerCall::TurnSteer { thread_id, turn_id, items } => ServerCall::TurnSteer {
                thread_id: *thread_id,
                turn_id: turn_id.clone(),
                items: items.duplicate(),
            },
            ServerCall::TurnStart(value) => ServerCall::TurnStart(value.duplicate()),
            ServerCall::SkillsList { cwds, force_reload } => ServerCall::SkillsList {
                cwds: cwds.duplicate(),
                force_reload: *force_reload,
            },
            ServerCall::ThreadCompactStart { thread_id } => ServerCall::ThreadCompactStart {
                thread_id: *thread_id,
            },
            ServerCall::ThreadSetName { thread_id, name } => ServerCall::ThreadSetName {
                thread_id: *thread_id,
                name: name.clone(),
            },
            ServerCall::ThreadRollback { thread_id, num_turns } => ServerCall::ThreadRollback {
                thread_id: *thread_id,
                num_turns: *num_turns,
            },
            ServerCall::ReviewStart { thread_id, target } => ServerCall::ReviewStart {
                thread_id: *thread_id,
                target: target.clone(),
            },
            ServerCall::BackgroundTerminalsClean { thread_id } => ServerCall::BackgroundTerminalsClean {
                thread_id: *thread_id,
            },
            ServerCall::BackgroundTerminalTerminate { thread_id, process_id } => ServerCall::BackgroundTerminalTerminate {
                thread_id: *thread_id,
                process_id: process_id.clone(),
            },
            ServerCall::RealtimeStart { thread_id, transport, voice } => ServerCall::RealtimeStart {
                thread_id: *thread_id,
                transport: transport.duplicate(),
                voice: voice.duplicate(),
            },
            ServerCall::RealtimeAudio { thread_id, frame } => ServerCall::RealtimeAudio {
                thread_id: *thread_id,
                frame: frame.clone(),
            },
            ServerCall::RealtimeStop { thread_id } => ServerCall::RealtimeStop {
                thread_id: *thread_id,
            },
            ServerCall::ShellCommand { thread_id, command } => ServerCall::ShellCommand {
                thread_id: *thread_id,
                command: command.clone(),
            },
            ServerCall::ReloadUserConfig => ServerCall::ReloadUserConfig,
            ServerCall::RuntimeCwdUpdate { thread_id, cwd } => ServerCall::RuntimeCwdUpdate {
                thread_id: *thread_id,
                cwd: cwd.clone(),
            },
            ServerCall::ApproveGuardianDeniedAction { thread_id, event } => ServerCall::ApproveGuardianDeniedAction {
                thread_id: *thread_id,
                event: event.clone(),
            },
        }
    }
}

/// What becomes of a command of the user.
#[derive(Debug, PartialEq, Eq)]
pub enum OpStep {
    /// The server is called.
    Call(ServerCall),
    /// There is nothing to do.
    Done,
    /// The server has no call for it.
    Unsupported,
}

/// What a [`OpStep`] means.
#[verifier::ext_equal]
pub ghost enum OpStepView {
    Call(ServerCallView),
    Done,
    Unsupported,
}

impl DeepView for OpStep {
    type V = OpStepView;

    open spec fn deep_view(&self) -> OpStepView {
        match self {
            OpStep::Call(value) => OpStepView::Call(value.deep_view()),
            OpStep::Done => OpStepView::Done,
            OpStep::Unsupported => OpStepView::Unsupported,
        }
    }
}

impl Duplicate for OpStep {
    fn duplicate(&self) -> OpStep {
        match self {
            OpStep::Call(value) => OpStep::Call(value.duplicate()),
            OpStep::Done => OpStep::Done,
            OpStep::Unsupported => OpStep::Unsupported,
        }
    }
}

/// A try to steer a turn.
#[derive(Debug, PartialEq, Eq)]
pub struct SteerAttempt {
    pub thread_id: ThreadId,
    pub turn_id: String,
    /// Whether an earlier try was for another turn.
    pub retried: bool,
}

/// What a [`SteerAttempt`] means.
#[verifier::ext_equal]
pub ghost struct SteerAttemptView {
    pub thread_id: ThreadId,
    pub turn_id: Seq<char>,
    pub retried: bool,
}

impl DeepView for SteerAttempt {
    type V = SteerAttemptView;

    open spec fn deep_view(&self) -> SteerAttemptView {
        SteerAttemptView {
            thread_id: self.thread_id,
            turn_id: self.turn_id@,
            retried: self.retried,
        }
    }
}

impl Duplicate for SteerAttempt {
    fn duplicate(&self) -> SteerAttempt {
        SteerAttempt {
            thread_id: self.thread_id,
            turn_id: self.turn_id.clone(),
            retried: self.retried,
        }
    }
}

/// What the server answers to a try to steer a turn.
#[derive(Debug, PartialEq, Eq)]
pub enum SteerReply {
    Accepted,
    /// The turn takes no input.
    NotSteerable {
        message: String,
    },
    /// No turn runs.
    Missing,
    /// Another turn runs.
    ExpectedTurnMismatch {
        actual_turn_id: String,
    },
    /// The call has failed otherwise.
    Failed,
}

/// What a [`SteerReply`] means.
#[verifier::ext_equal]
pub ghost enum SteerReplyView {
    Accepted,
    NotSteerable {
        message: Seq<char>,
    },
    Missing,
    ExpectedTurnMismatch {
        actual_turn_id: Seq<char>,
    },
    Failed,
}

impl DeepView for SteerReply {
    type V = SteerReplyView;

    open spec fn deep_view(&self) -> SteerReplyView {
        match self {
            SteerReply::Accepted => SteerReplyView::Accepted,
            SteerReply::NotSteerable { message } => SteerReplyView::NotSteerable {
                message: message@,
            },
            SteerReply::Missing => SteerReplyView::Missing,
            SteerReply::ExpectedTurnMismatch { actual_turn_id } => SteerReplyView::ExpectedTurnMismatch {
                actual_turn_id: actual_turn_id@,
            },
            SteerReply::Failed => SteerReplyView::Failed,
        }
    }
}

impl Duplicate for SteerReply {
    fn duplicate(&self) -> SteerReply {
        match self {
            SteerReply::Accepted => SteerReply::Accepted,
            SteerReply::NotSteerable { message } => SteerReply::NotSteerable {
                message: message.clone(),
            },
            SteerReply::Missing => SteerReply::Missing,
            SteerReply::ExpectedTurnMismatch { actual_turn_id } => SteerReply::ExpectedTurnMismatch {
                actual_turn_id: actual_turn_id.clone(),
            },
            SteerReply::Failed => SteerReply::Failed,
        }
    }
}

/// What follows from an answer to a try to steer a turn.
#[derive(Debug, PartialEq, Eq)]
pub enum SteerStep {
    Done,
    /// The input is queued, or the message shown where it cannot be.
    QueueRejected {
        message: String,
    },
    /// Steering is tried again.
    Retry(SteerAttempt),
    /// A new turn is started.
    Start(TurnStart),
    /// The error is passed on.
    Fail,
}

/// What a [`SteerStep`] means.
#[verifier::ext_equal]
pub ghost enum SteerStepView {
    Done,
    QueueRejected {
        message: Seq<char>,
    },
    Retry(SteerAttemptView),
    Start(TurnStartView),
    Fail,
}

impl DeepView for SteerStep {
    type V = SteerStepView;

    open spec fn deep_view(&self) -> SteerStepView {
        match self {
            SteerStep::Done => SteerStepView::Done,
            SteerStep::QueueRejected { message } => SteerStepView::QueueRejected {
                message: message@,
            },
            SteerStep::Retry(value) => SteerStepView::Retry(value.deep_view()),
            SteerStep::Start(value) => SteerStepView::Start(value.deep_view()),
            SteerStep::Fail => SteerStepView::Fail,
        }
    }
}

impl Duplicate for SteerStep {
    fn duplicate(&self) -> SteerStep {
        match self {
            SteerStep::Done => SteerStep::Done,
            SteerStep::QueueRejected { message } => SteerStep::QueueRejected {
                message: message.clone(),
            },
            SteerStep::Retry(value) => SteerStep::Retry(value.duplicate()),
            SteerStep::Start(value) => SteerStep::Start(value.duplicate()),
            SteerStep::Fail => SteerStep::Fail,
        }
    }
}

/// What has become of a command as an answer to a request of the server.
#[derive(Debug, PartialEq, Eq)]
pub enum RequestResolution {
    /// It answers no request.
    NotPending,
    Answered,
    AnswerFailed {
        error: String,
    },
}

/// What a [`RequestResolution`] means.
#[verifier::ext_equal]
pub ghost enum RequestResolutionView {
    NotPending,
    Answered,
    AnswerFailed {
        error: Seq<char>,
    },
}

impl DeepView for RequestResolution {
    type V = RequestResolutionView;

    open spec fn deep_view(&self) -> RequestResolutionView {
        match self {
            RequestResolution::NotPending => RequestResolutionView::NotPending,
            RequestResolution::Answered => RequestResolutionView::Answered,
            RequestResolution::AnswerFailed { error } => RequestResolutionView::AnswerFailed {
                error: error@,
            },
        }
    }
}

impl Duplicate for RequestResolution {
    fn duplicate(&self) -> RequestResolution {
        match self {
            RequestResolution::NotPending => RequestResolution::NotPending,
            RequestResolution::Answered => RequestResolution::Answered,
            RequestResolution::AnswerFailed { error } => RequestResolution::AnswerFailed {
                error: error.clone(),
            },
        }
    }
}

/// What becomes of a command on a thread.
#[derive(Debug, PartialEq, Eq)]
pub enum SubmitStep {
    Done,
    Submit(OpStep),
}

/// What a [`SubmitStep`] means.
#[verifier::ext_equal]
pub ghost enum SubmitStepView {
    Done,
    Submit(OpStepView),
}

impl DeepView for SubmitStep {
    type V = SubmitStepView;

    open spec fn deep_view(&self) -> SubmitStepView {
        match self {
            SubmitStep::Done => SubmitStepView::Done,
            SubmitStep::Submit(value) => SubmitStepView::Submit(value.deep_view()),
        }
    }
}

impl Duplicate for SubmitStep {
    fn duplicate(&self) -> SubmitStep {
        match self {
            SubmitStep::Done => SubmitStep::Done,
            SubmitStep::Submit(value) => SubmitStep::Submit(value.duplicate()),
        }
    }
}

/// The turn that a command starts. What it leaves open is taken from the client's settings; the
/// name of the permission profile is known only where it is the client's own.
pub open spec fn started_turn(thread_id: ThreadId, turn: UserTurnView, config: TurnConfigView) -> TurnStartView {
    TurnStartView {
        thread_id,
        items: turn.items,
        cwd: turn.cwd,
        approval_policy: turn.approval_policy,
        approvals_reviewer: match turn.approvals_reviewer {
            Some(reviewer) => reviewer,
            None => config.approvals_reviewer,
        },
        permission_profile: turn.permission_profile,
        active_permission_profile: if config.permission_profile == turn.permission_profile {
            config.active_permission_profile
        } else {
            None
        },
        model: turn.model,
        effort: turn.effort,
        summary: turn.summary,
        service_tier: turn.service_tier,
        collaboration_mode: turn.collaboration_mode,
        personality: turn.personality,
        final_output_json_schema: turn.final_output_json_schema,
    }
}

/// What becomes of a command on a thread on which `active_turn` runs.
pub open spec fn op_step(
    thread_id: ThreadId,
    active_turn: Option<Seq<char>>,
    op: AppCommandView,
    config: TurnConfigView,
) -> OpStepView {
    match op {
        AppCommandView::Interrupt => OpStepView::Call(
            match active_turn {
                Some(turn_id) => ServerCallView::TurnInterrupt { thread_id, turn_id },
                None => ServerCallView::StartupInterrupt { thread_id },
            },
        ),
        AppCommandView::UserTurn(turn) => OpStepView::Call(
            match active_turn {
                Some(turn_id) => ServerCallView::TurnSteer { thread_id, turn_id, items: turn.items },
                None => ServerCallView::TurnStart(started_turn(thread_id, turn, config)),
            },
        ),
        AppCommandView::ListSkills { cwds, force_reload } => OpStepView::Call(
            ServerCallView::SkillsList { cwds, force_reload },
        ),
        AppCommandView::Compact => OpStepView::Call(
            ServerCallView::ThreadCompactStart { thread_id },
        ),
        AppCommandView::SetThreadName { name } => OpStepView::Call(
            ServerCallView::ThreadSetName { thread_id, name },
        ),
        AppCommandView::ThreadRollback { num_turns } => OpStepView::Call(
            ServerCallView::ThreadRollback { thread_id, num_turns },
        ),
        AppCommandView::Review { target } => OpStepView::Call(
            ServerCallView::ReviewStart { thread_id, target },
        ),
        AppCommandView::CleanBackgroundTerminals => OpStepView::Call(
            ServerCallView::BackgroundTerminalsClean { thread_id },
        ),
        AppCommandView::TerminateBackgroundTerminal { process_id } => OpStepView::Call(
            ServerCallView::BackgroundTerminalTerminate { thread_id, process_id },
        ),
        AppCommandView::RealtimeConversationStart { transport, voice } => OpStepView::Call(
            ServerCallView::RealtimeStart { thread_id, transport, voice },
        ),
        AppCommandView::RealtimeConversationAudio { frame } => OpStepView::Call(
            ServerCallView::RealtimeAudio { thread_id, frame },
        ),
        AppCommandView::RealtimeConversationClose => OpStepView::Call(
            ServerCallView::RealtimeStop { thread_id },
        ),
        AppCommandView::RunUserShellCommand { command } => OpStepView::Call(
            ServerCallView::ShellCommand { thread_id, command },
        ),
        AppCommandView::ReloadUserConfig => OpStepView::Call(ServerCallView::ReloadUserConfig),
        AppCommandView::OverrideTurnContext { cwd } => match cwd {
            Some(cwd) => OpStepView::Call(ServerCallView::RuntimeCwdUpdate { thread_id, cwd }),
            None => OpStepView::Done,
        },
        AppCommandView::ApproveGuardianDeniedAction { event } => OpStepView::Call(
            ServerCallView::ApproveGuardianDeniedAction { thread_id, event },
        ),
        AppCommandView::ExecApproval { .. } => OpStepView::Unsupported,
        AppCommandView::PatchApproval { .. } => OpStepView::Unsupported,
        AppCommandView::ResolveElicitation { .. } => OpStepView::Unsupported,
        AppCommandView::RequestPermissionsResponse { .. } => OpStepView::Unsupported,
        AppCommandView::UserInputAnswer { .. } => OpStepView::Unsupported,
        AppCommandView::Shutdown => OpStepView::Unsupported,
        AppCommandView::Other { .. } => OpStepView::Unsupported,
    }
}

impl AppView {
    /// The turn that runs on a thread.
    pub open spec fn turn_on(self, thread_id: ThreadId) -> Option<Seq<char>> {
        match self.store_of(thread_id) {
            Some(store) => store.active_turn_id,
            None => None,
        }
    }

    /// Once the server has said which turn runs on a thread.
    pub open spec fn with_turn_on(self, thread_id: ThreadId, turn_id: Option<Seq<char>>) -> AppView {
        match self.store_of(thread_id) {
            Some(store) => self.with_store(
                thread_id,
                ThreadEventStoreView { active_turn_id: turn_id, ..store },
            ),
            None => self,
        }
    }

    /// What becomes of a command on a thread.
    pub open spec fn planned(self, thread_id: ThreadId, op: AppCommandView, config: TurnConfigView) -> OpStepView {
        op_step(thread_id, self.turn_on(thread_id), op, config)
    }

    /// Once the server has answered a try to steer a turn.
    pub open spec fn steered(
        self,
        attempt: SteerAttemptView,
        turn: UserTurnView,
        config: TurnConfigView,
        reply: SteerReplyView,
    ) -> (AppView, SteerStepView) {
        let thread_id = attempt.thread_id;
        match reply {
            SteerReplyView::Accepted => (self, SteerStepView::Done),
            SteerReplyView::NotSteerable { message } => (
                self,
                SteerStepView::QueueRejected { message },
            ),
            SteerReplyView::Missing => (
                self.with_turn_on(thread_id, None),
                SteerStepView::Start(started_turn(thread_id, turn, config)),
            ),
            SteerReplyView::ExpectedTurnMismatch { actual_turn_id } => (
                self.with_turn_on(thread_id, Some(actual_turn_id)),
                if !attempt.retried && actual_turn_id != attempt.turn_id {
                    SteerStepView::Retry(
                        SteerAttemptView { thread_id, turn_id: actual_turn_id, retried: true },
                    )
                } else {
                    SteerStepView::Fail
                },
            ),
            SteerReplyView::Failed => (self, SteerStepView::Fail),
        }
    }

    /// Once a command that can settle a question was carried out.
    pub open spec fn op_settled(self, thread_id: ThreadId, op: AppCommandView) -> (
        AppView,
        Seq<AppEffectView>,
    ) {
        if can_settle(op) {
            let next = self.with_op_noted(thread_id, op);
            (next, seq![next.approvals_listed()] + next.side_parent_shown(thread_id))
        } else {
            (self, Seq::empty())
        }
    }

    /// Once a command was tried as an answer to a request of the server. A command on a closed
    /// thread goes no further.
    pub open spec fn submission_resolved(
        self,
        thread_id: ThreadId,
        op: AppCommandView,
        config: TurnConfigView,
        resolution: RequestResolutionView,
    ) -> (AppView, SubmitStepView, Seq<AppEffectView>) {
        let step = if self.is_closed(thread_id) {
            SubmitStepView::Done
        } else {
            SubmitStepView::Submit(self.planned(thread_id, op, config))
        };
        match resolution {
            RequestResolutionView::Answered => {
                let (next, effects) = self.op_settled(thread_id, op);
                (next, SubmitStepView::Done, effects)
            },
            RequestResolutionView::AnswerFailed { error } => (
                self,
                step,
                seq![
                    AppEffectView::AddErrorMessage {
                        message: "Failed to resolve app-server request for thread "@ + id_text(
                            thread_id,
                        ) + ": "@ + error,
                    },
                ],
            ),
            RequestResolutionView::NotPending => (self, step, Seq::empty()),
        }
    }

    /// Once the server has carried out a command.
    pub open spec fn call_succeeded(self, thread_id: ThreadId, op: AppCommandView) -> (
        AppView,
        Seq<AppEffectView>,
    ) {
        if op is CleanBackgroundTerminals {
            let (next, effect) = self.terminals_stopped(thread_id);
            (
                next,
                if next.active_thread_id == Some(thread_id) {
                    seq![effect, AppEffectView::ClearShownTerminals]
                } else {
                    seq![effect]
                },
            )
        } else {
            (self, Seq::empty())
        }
    }

    /// Once a command was submitted, where `supported` tells whether the server has a call for it.
    pub open spec fn op_submitted(self, thread_id: ThreadId, op: AppCommandView, supported: bool) -> (
        AppView,
        Seq<AppEffectView>,
    ) {
        if supported {
            self.op_settled(thread_id, op)
        } else {
            (
                self,
                seq![
                    AppEffectView::AddErrorMessage {
                        message: "Not available in TUI yet for thread "@ + id_text(thread_id)
                            + "."@,
                    },
                ],
            )
        }
    }
}

/// The turn that a command starts.
fn start_turn(thread_id: ThreadId, turn: &UserTurn, config: &TurnConfig) -> (start: TurnStart)
    ensures
        start.deep_view() == started_turn(thread_id, turn.deep_view(), config.deep_view()),
{
    let approvals_reviewer = match turn.approvals_reviewer {
        Some(reviewer) => reviewer,
        None => config.approvals_reviewer,
    };
    let active_permission_profile = if config.permission_profile == turn.permission_profile {
        config.active_permission_profile.duplicate()
    } else {
        None
    };
    TurnStart {
        thread_id,
        items: turn.items.duplicate(),
        cwd: turn.cwd.clone(),
        approval_policy: turn.approval_policy,
        approvals_reviewer,
        permission_profile: turn.permission_profile.clone(),
        active_permission_profile,
        model: turn.model.clone(),
        effort: turn.effort.duplicate(),
        summary: turn.summary.duplicate(),
        service_tier: turn.service_tier.duplicate(),
        collaboration_mode: turn.collaboration_mode.duplicate(),
        personality: turn.personality.duplicate(),
        final_output_json_schema: turn.final_output_json_schema.duplicate(),
    }
}

/// The message for a list of skills that could not be had.
pub fn skills_list_failed(failure_message: &str, error: &str) -> (effect: AppEffect)
    ensures
        effect.deep_view() == (AppEffectView::AddErrorMessage {
            message: failure_message@ + ": "@ + error@,
        }),
{
    AppEffect::AddErrorMessage { message: failure_message.to_owned().concat(": ").concat(error) }
}

impl App {
    /// What becomes of a command on a thread: which call to the server carries it out.
    pub fn try_submit_active_thread_op_via_app_server(
        &self,
        thread_id: ThreadId,
        op: &AppCommand,
        config: &TurnConfig,
    ) -> (step: OpStep)
        ensures
            step.deep_view() == self@.planned(thread_id, op.deep_view(), config.deep_view()),
    {
        let call = match op {
            AppCommand::Interrupt => match self.active_turn_id_for_thread(thread_id) {
                Some(turn_id) => ServerCall::TurnInterrupt { thread_id, turn_id },
                None => ServerCall::StartupInterrupt { thread_id },
            },
            AppCommand::UserTurn(turn) => match self.active_turn_id_for_thread(thread_id) {
                Some(turn_id) => ServerCall::TurnSteer {
                    thread_id,
                    turn_id,
                    items: turn.items.duplicate(),
                },
                None => ServerCall::TurnStart(start_turn(thread_id, turn, config)),
            },
            AppCommand::ListSkills { cwds, force_reload } => ServerCall::SkillsList {
                cwds: cwds.duplicate(),
                force_reload: *force_reload,
            },
            AppCommand::Compact => ServerCall::ThreadCompactStart { thread_id },
            AppCommand::SetThreadName { name } => ServerCall::ThreadSetName {
                thread_id,
                name: name.clone(),
            },
            AppCommand::ThreadRollback { num_turns } => ServerCall::ThreadRollback {
                thread_id,
                num_turns: *num_turns,
            },
            AppCommand::Review { target } => ServerCall::ReviewStart {
                thread_id,
                target: target.clone(),
            },
            AppCommand::CleanBackgroundTerminals => ServerCall::BackgroundTerminalsClean {
                thread_id,
            },
            AppCommand::TerminateBackgroundTerminal { process_id } => {
                ServerCall::BackgroundTerminalTerminate { thread_id, process_id: process_id.clone() }
            },
            AppCommand::RealtimeConversationStart { transport, voice } => ServerCall::RealtimeStart {
                thread_id,
                transport: transport.duplicate(),
                voice: voice.duplicate(),
            },
            AppCommand::RealtimeConversationAudio { frame } => ServerCall::RealtimeAudio {
                thread_id,
                frame: frame.clone(),
            },
            AppCommand::RealtimeConversationClose => ServerCall::RealtimeStop { thread_id },
            AppCommand::RunUserShellCommand { command } => ServerCall::ShellCommand {
                thread_id,
                command: command.clone(),
            },
            AppCommand::ReloadUserConfig => ServerCall::ReloadUserConfig,
            AppCommand::OverrideTurnContext { cwd } => match cwd {
                Some(cwd) => ServerCall::RuntimeCwdUpdate { thread_id, cwd: cwd.clone() },
                None => {
                    return OpStep::Done;
                },
            },
            AppCommand::ApproveGuardianDeniedAction { event } => {
                ServerCall::ApproveGuardianDeniedAction { thread_id, event: event.clone() }
            },
            _ => {
                return OpStep::Unsupported;
            },
        };
        OpStep::Call(call)
    }

    /// Takes over from the server which turn runs on a thread.
    fn set_turn_on(&mut self, thread_id: ThreadId, turn_id: Option<String>)
        ensures
            final(self)@ == old(self)@.with_turn_on(thread_id, turn_id.deep_view()),
    {
        let place = self.channel_place(thread_id);
        if place < self.thread_event_channels.len() {
            let ghost before = self@;
            let ghost id = turn_id.deep_view();
            assert(self.thread_event_channels@[place as int].deep_view()
                == before.channels[place as int]);
            self.thread_event_channels[place].store.active_turn_id = turn_id;
            assert(self@ =~= before.with_turn_on(thread_id, id));
        }
    }

    /// Takes the server's answer to a try to steer a turn, and says what follows.
    ///
    /// A review can put another turn in place of the one that runs before the client hears of it.
    /// Trying again once with the turn that the server names lets such a turn turn the input down
    /// in the way that queues it.
    pub fn steer_replied(
        &mut self,
        attempt: &SteerAttempt,
        turn: &UserTurn,
        config: &TurnConfig,
        reply: SteerReply,
    ) -> (step: SteerStep)
        ensures
            (final(self)@, step.deep_view()) == old(self)@.steered(
                attempt.deep_view(),
                turn.deep_view(),
                config.deep_view(),
                reply.deep_view(),
            ),
    {
        let thread_id = attempt.thread_id;
        match reply {
            SteerReply::Accepted => SteerStep::Done,
            SteerReply::NotSteerable { message } => SteerStep::QueueRejected { message },
            SteerReply::Missing => {
                self.set_turn_on(thread_id, None);
                SteerStep::Start(start_turn(thread_id, turn, config))
            },
            SteerReply::ExpectedTurnMismatch { actual_turn_id } => {
                let retry = !attempt.retried && actual_turn_id != attempt.turn_id;
                self.set_turn_on(thread_id, Some(actual_turn_id.clone()));
                if retry {
                    SteerStep::Retry(
                        SteerAttempt { thread_id, turn_id: actual_turn_id, retried: true },
                    )
                } else {
                    SteerStep::Fail
                }
            },
            SteerReply::Failed => SteerStep::Fail,
        }
    }

    /// The thread that a command goes to that names none: the one on screen. Where there is none,
    /// the user is told.
    pub fn submit_active_thread_op(&self) -> (target: Result<ThreadId, AppEffect>)
        ensures
            match self@.active_thread_id {
                Some(thread_id) => target == Ok::<ThreadId, AppEffect>(thread_id),
                None => target matches Err(effect) && effect.deep_view() == (
                AppEffectView::AddErrorMessage { message: "No active thread is available."@ }),
            },
    {
        match self.active_thread_id {
            Some(thread_id) => Ok(thread_id),
            None => Err(
                AppEffect::AddErrorMessage { message: "No active thread is available.".to_owned() },
            ),
        }
    }

    /// Takes note of a command that was carried out, where it can settle a question.
    fn settle_op(&mut self, thread_id: ThreadId, op: &AppCommand) -> (effects: Vec<AppEffect>)
        ensures
            (final(self)@, effects.deep_view()) == old(self)@.op_settled(
                thread_id,
                op.deep_view(),
            ),
    {
        let mut effects = no_effects();
        if ThreadEventStore::op_can_change_pending_replay_state(op) {
            self.note_thread_outbound_op(thread_id, op);
            push_effect(&mut effects, self.refresh_pending_thread_approvals());
            push_effects(&mut effects, self.refresh_side_parent_status_from_store(thread_id));
            assert(effects.deep_view() =~= old(self)@.op_settled(thread_id, op.deep_view()).1);
        }
        effects
    }

    /// Carries a command on a thread on, once it was tried as an answer to a request of the
    /// server: `resolution` tells what came of that.
    pub fn submit_thread_op(
        &mut self,
        thread_id: ThreadId,
        op: &AppCommand,
        config: &TurnConfig,
        resolution: RequestResolution,
    ) -> (step: (SubmitStep, Vec<AppEffect>))
        ensures
            (final(self)@, step.0.deep_view(), step.1.deep_view())
                == old(self)@.submission_resolved(
                thread_id,
                op.deep_view(),
                config.deep_view(),
                resolution.deep_view(),
            ),
    {
        let mut effects = no_effects();
        match resolution {
            RequestResolution::Answered => {
                let effects = self.settle_op(thread_id, op);
                return (SubmitStep::Done, effects);
            },
            RequestResolution::AnswerFailed { error } => {
                let id = thread_id.to_text();
                let message = "Failed to resolve app-server request for thread ".to_owned().concat(
                    id.as_str(),
                ).concat(": ").concat(error.as_str());
                push_effect(&mut effects, AppEffect::AddErrorMessage { message });
                assert(effects.deep_view() =~= seq![
                    AppEffectView::AddErrorMessage { message: message@ },
                ]);
            },
            RequestResolution::NotPending => {},
        }
        let step = if self.thread_is_closed_or_marked_closed(thread_id) {
            SubmitStep::Done
        } else {
            SubmitStep::Submit(
                self.try_submit_active_thread_op_via_app_server(thread_id, op, config),
            )
        };
        (step, effects)
    }

    /// Notes that the server has carried out a command.
    pub fn server_call_succeeded(&mut self, thread_id: ThreadId, op: &AppCommand) -> (effects: Vec<
        AppEffect,
    >)
        ensures
            (final(self)@, effects.deep_view()) == old(self)@.call_succeeded(
                thread_id,
                op.deep_view(),
            ),
    {
        let mut effects = no_effects();
        if let AppCommand::CleanBackgroundTerminals = op {
            let effect = self.mark_background_terminals_stopped_for_thread(thread_id);
            push_effect(&mut effects, effect);
            if same_id(self.active_thread_id, thread_id) {
                push_effect(&mut effects, AppEffect::ClearShownTerminals);
            }
            assert(effects.deep_view() =~= old(self)@.call_succeeded(
                thread_id,
                op.deep_view(),
            ).1);
        }
        effects
    }

    /// Ends the submission of a command. `supported` tells whether the server has a call for it;
    /// where it has none, the user is told.
    pub fn finish_submission(&mut self, thread_id: ThreadId, op: &AppCommand, supported: bool) -> (effects:
        Vec<AppEffect>)
        ensures
            (final(self)@, effects.deep_view()) == old(self)@.op_submitted(
                thread_id,
                op.deep_view(),
                supported,
            ),
    {
        if supported {
            return self.settle_op(thread_id, op);
        }
        let mut effects = no_effects();
        let id = thread_id.to_text();
        let message = "Not available in TUI yet for thread ".to_owned().concat(id.as_str()).concat(
            ".",
        );
        push_effect(&mut effects, AppEffect::AddErrorMessage { message });
        assert(effects.deep_view() =~= old(self)@.op_submitted(
            thread_id,
            op.deep_view(),
            supported,
        ).1);
        effects
    }
}

/// Steering is tried at most twice: once for the turn that the client takes to run, and once
/// more for another turn that the server names.
pub proof fn law_steering_is_retried_once(
    app: AppView,
    attempt: SteerAttemptView,
    turn: UserTurnView,
    config: TurnConfigView,
    reply: SteerReplyView,
)
    ensures
        app.steered(attempt, turn, config, reply).1 matches SteerStepView::Retry(next) ==> {
            &&& !attempt.retried
            &&& next.retried
            &&& next.turn_id != attempt.turn_id
            &&& next.thread_id == attempt.thread_id
            &&& reply == (SteerReplyView::ExpectedTurnMismatch { actual_turn_id: next.turn_id })
        },
{
}

/// Whatever the server says of the turn that runs is what the client takes to run from then on.
pub proof fn law_server_knows_which_turn_runs(
    app: AppView,
    attempt: SteerAttemptView,
    turn: UserTurnView,
    config: TurnConfigView,
    reply: SteerReplyView,
)
    requires
        app.has_store(attempt.thread_id),
    ensures
        ({
            let next = app.steered(attempt, turn, config, reply).0;
            match reply {
                SteerReplyView::Missing => next.turn_on(attempt.thread_id) is None,
                SteerReplyView::ExpectedTurnMismatch { actual_turn_id } => next.turn_on(
                    attempt.thread_id,
                ) == Some(actual_turn_id),
                _ => next == app,
            }
        }),
{
    let place = channel_place(app.channels, attempt.thread_id);
    lemma_channel_place(app.channels, attempt.thread_id);
    let next = app.steered(attempt, turn, config, reply).0;
    assert(next.channels.len() == app.channels.len());
    assert forall|i: int| 0 <= i < place implies (#[trigger] next.channels[i]).thread_id
        != attempt.thread_id by {
        assert(next.channels[i] == app.channels[i]);
    }
    lemma_channel_place_is(next.channels, attempt.thread_id, place);
}

/// A command on a closed thread never reaches the server, except as an answer that the server
/// still waits for.
pub proof fn law_closed_thread_takes_no_commands(
    app: AppView,
    thread_id: ThreadId,
    op: AppCommandView,
    config: TurnConfigView,
    resolution: RequestResolutionView,
)
    requires
        app.is_closed(thread_id),
    ensures
        app.submission_resolved(thread_id, op, config, resolution).1 == SubmitStepView::Done,
{
}

/// A turn of the user is sent to the turn that runs, and starts one exactly where none runs.
pub proof fn law_turn_is_steered_or_started(
    app: AppView,
    thread_id: ThreadId,
    turn: UserTurnView,
    config: TurnConfigView,
)
    ensures
        match (
            app.planned(thread_id, AppCommandView::UserTurn(turn), config),
            app.turn_on(thread_id),
        ) {
            (OpStepView::Call(ServerCallView::TurnSteer { turn_id, items, .. }), Some(running)) => {
                turn_id == running && items == turn.items
            },
            (OpStepView::Call(ServerCallView::TurnStart(start)), None) => start == started_turn(
                thread_id,
                turn,
                config,
            ),
            _ => false,
        },
{
}

} // verus!
