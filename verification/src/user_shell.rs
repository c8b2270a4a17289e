//! Commands that the user runs in a shell of their own, outside the agent's sandbox.
//!
//! A command runs as a turn of its own or beside a turn that is under way. A plain `cd` is not
//! run at all: it changes the directory that later commands start in.
use crate::cd::{cd_meaning, has_metachar, parse_with_home, shell_words, CdMeaning, ShellCd};
use crate::collections::{contains_text, lemma_filter_holds, retain_vec, Duplicate};
use crate::path_text::{absolute, begins_with_name, is_absolute, starts_with_name};
use crate::protocol::CommandExecutionSource;
use crate::text::{chars_of, is_whitespace, same_text, starts_with, trimmed_start};
use crate::thread_id::{id_text, is_random_uuid, new_call_id, ThreadId};
use vstd::prelude::*;
use vstd::string::StringExecFns;

verus! {

/// How long a command may run, in milliseconds.
pub const USER_SHELL_TIMEOUT_MS: u64 = 3_600_000;

/// How a command stands to the turns of its thread.
#[derive(Debug, Clone, Copy, PartialEq, Eq, Structural)]
pub enum UserShellCommandMode {
    /// The command is a turn of its own.
    StandaloneTurn,
    /// The command runs while another turn is under way, and starts and ends no turn.
    ActiveTurnAuxiliary,
}

/// The kinds of shell.
#[derive(Debug, Clone, Copy, PartialEq, Eq, Structural)]
pub enum ShellType {
    Bash,
    Zsh,
    Sh,
    PowerShell,
    Cmd,
}

/// How a command has ended.
#[derive(Debug, Clone, Copy, PartialEq, Eq, Structural)]
pub enum ExecCommandStatus {
    Completed,
    Failed,
}

/// What a command has left behind.
#[derive(Debug, PartialEq, Eq)]
pub struct ExecOutput {
    pub exit_code: i32,
    pub stdout: String,
    pub stderr: String,
    pub aggregated_output: String,
    /// How long it ran, in nanoseconds.
    pub duration_nanos: u128,
    pub timed_out: bool,
}

/// What an [`ExecOutput`] means.
#[verifier::ext_equal]
pub ghost struct ExecOutputView {
    pub exit_code: i32,
    pub stdout: Seq<char>,
    pub stderr: Seq<char>,
    pub aggregated_output: Seq<char>,
    pub duration_nanos: u128,
    pub timed_out: bool,
}

impl DeepView for ExecOutput {
    type V = ExecOutputView;

    open spec fn deep_view(&self) -> ExecOutputView {
        ExecOutputView {
            exit_code: self.exit_code,
            stdout: self.stdout@,
            stderr: self.stderr@,
            aggregated_output: self.aggregated_output@,
            duration_nanos: self.duration_nanos,
            timed_out: self.timed_out,
        }
    }
}

impl Duplicate for ExecOutput {
    fn duplicate(&self) -> ExecOutput {
        ExecOutput {
            exit_code: self.exit_code,
            stdout: self.stdout.clone(),
            stderr: self.stderr.clone(),
            aggregated_output: self.aggregated_output.clone(),
            duration_nanos: self.duration_nanos,
            timed_out: self.timed_out,
        }
    }
}

/// What names a command in every event about it.
#[derive(Debug, PartialEq, Eq)]
pub struct CommandCall {
    pub call_id: String,
    pub turn_id: String,
    pub command: Vec<String>,
    /// What the command is made of, as the client shows it.
    pub parsed_command: Vec<String>,
    pub source: CommandExecutionSource,
}

/// What a [`CommandCall`] means.
#[verifier::ext_equal]
pub ghost struct CommandCallView {
    pub call_id: Seq<char>,
    pub turn_id: Seq<char>,
    pub command: Seq<Seq<char>>,
    pub parsed_command: Seq<Seq<char>>,
    pub source: CommandExecutionSource,
}

impl DeepView for CommandCall {
    type V = CommandCallView;

    open spec fn deep_view(&self) -> CommandCallView {
        CommandCallView {
            call_id: self.call_id@,
            turn_id: self.turn_id@,
            command: self.command.deep_view(),
            parsed_command: self.parsed_command.deep_view(),
            source: self.source,
        }
    }
}

impl Duplicate for CommandCall {
    fn duplicate(&self) -> CommandCall {
        CommandCall {
            call_id: self.call_id.clone(),
            turn_id: self.turn_id.clone(),
            command: self.command.duplicate(),
            parsed_command: self.parsed_command.duplicate(),
            source: self.source,
        }
    }
}

/// Something that the client is told of a command.
#[derive(Debug, PartialEq, Eq)]
pub enum ShellEvent {
    TurnStarted {
        turn_id: String,
    },
    ExecCommandBegin {
        call: CommandCall,
        cwd: String,
    },
    ExecCommandEnd {
        call: CommandCall,
        cwd: String,
        output: ExecOutput,
        formatted_output: String,
        status: ExecCommandStatus,
    },
}

/// What a [`ShellEvent`] means.
#[verifier::ext_equal]
pub ghost enum ShellEventView {
    TurnStarted {
        turn_id: Seq<char>,
    },
    ExecCommandBegin {
        call: CommandCallView,
        cwd: Seq<char>,
    },
    ExecCommandEnd {
        call: CommandCallView,
        cwd: Seq<char>,
        output: ExecOutputView,
        formatted_output: Seq<char>,
        status: ExecCommandStatus,
    },
}

impl DeepView for ShellEvent {
    type V = ShellEventView;

    open spec fn deep_view(&self) -> ShellEventView {
        match self {
            ShellEvent::TurnStarted { turn_id } => ShellEventView::TurnStarted {
                turn_id: turn_id@,
            },
            ShellEvent::ExecCommandBegin { call, cwd } => ShellEventView::ExecCommandBegin {
                call: call.deep_view(),
                cwd: cwd@,
            },
            ShellEvent::ExecCommandEnd { call, cwd, output, formatted_output, status } => ShellEventView::ExecCommandEnd {
                call: call.deep_view(),
                cwd: cwd@,
                output: output.deep_view(),
                formatted_output: formatted_output@,
                status: *status,
            },
        }
    }
}

impl Duplicate for ShellEvent {
    fn duplicate(&self) -> ShellEvent {
        match self {
            ShellEvent::TurnStarted { turn_id } => ShellEvent::TurnStarted {
                turn_id: turn_id.clone(),
            },
            ShellEvent::ExecCommandBegin { call, cwd } => ShellEvent::ExecCommandBegin {
                call: call.duplicate(),
                cwd: cwd.clone(),
            },
            ShellEvent::ExecCommandEnd { call, cwd, output, formatted_output, status } => ShellEvent::ExecCommandEnd {
                call: call.duplicate(),
                cwd: cwd.clone(),
                output: output.duplicate(),
                formatted_output: formatted_output.clone(),
                status: *status,
            },
        }
    }
}

/// A step that carries a command on.
#[derive(Debug, PartialEq, Eq)]
pub enum ShellAction {
    /// Tell the client.
    Send(ShellEvent),
    /// Make the output part of the conversation.
    Persist {
        raw_command: String,
        output: ExecOutput,
    },
}

/// What a [`ShellAction`] means.
#[verifier::ext_equal]
pub ghost enum ShellActionView {
    Send(ShellEventView),
    Persist {
        raw_command: Seq<char>,
        output: ExecOutputView,
    },
}

impl DeepView for ShellAction {
    type V = ShellActionView;

    open spec fn deep_view(&self) -> ShellActionView {
        match self {
            ShellAction::Send(value) => ShellActionView::Send(value.deep_view()),
            ShellAction::Persist { raw_command, output } => ShellActionView::Persist {
                raw_command: raw_command@,
                output: output.deep_view(),
            },
        }
    }
}

impl Duplicate for ShellAction {
    fn duplicate(&self) -> ShellAction {
        match self {
            ShellAction::Send(value) => ShellAction::Send(value.duplicate()),
            ShellAction::Persist { raw_command, output } => ShellAction::Persist {
                raw_command: raw_command.clone(),
                output: output.duplicate(),
            },
        }
    }
}

/// A variable of the environment that a command starts in.
#[derive(Debug, PartialEq, Eq)]
pub struct EnvVar {
    pub name: String,
    pub value: String,
}

/// What a [`EnvVar`] means.
#[verifier::ext_equal]
pub ghost struct EnvVarView {
    pub name: Seq<char>,
    pub value: Seq<char>,
}

impl DeepView for EnvVar {
    type V = EnvVarView;

    open spec fn deep_view(&self) -> EnvVarView {
        EnvVarView {
            name: self.name@,
            value: self.value@,
        }
    }
}

impl Duplicate for EnvVar {
    fn duplicate(&self) -> EnvVar {
        EnvVar {
            name: self.name.clone(),
            value: self.value.clone(),
        }
    }
}

/// How the run of a command ended.
#[derive(Debug, PartialEq, Eq)]
pub enum ExecOutcome {
    /// The user has cancelled it.
    Cancelled,
    /// It has run to its end.
    Finished(ExecOutput),
    /// It could not be run, for this reason.
    Failed(String),
}

/// What a [`ExecOutcome`] means.
#[verifier::ext_equal]
pub ghost enum ExecOutcomeView {
    Cancelled,
    Finished(ExecOutputView),
    Failed(Seq<char>),
}

impl DeepView for ExecOutcome {
    type V = ExecOutcomeView;

    open spec fn deep_view(&self) -> ExecOutcomeView {
        match self {
            ExecOutcome::Cancelled => ExecOutcomeView::Cancelled,
            ExecOutcome::Finished(value) => ExecOutcomeView::Finished(value.deep_view()),
            ExecOutcome::Failed(value) => ExecOutcomeView::Failed(value@),
        }
    }
}

impl Duplicate for ExecOutcome {
    fn duplicate(&self) -> ExecOutcome {
        match self {
            ExecOutcome::Cancelled => ExecOutcome::Cancelled,
            ExecOutcome::Finished(value) => ExecOutcome::Finished(value.duplicate()),
            ExecOutcome::Failed(value) => ExecOutcome::Failed(value.clone()),
        }
    }
}

/// What a command may do.
#[derive(Debug, PartialEq, Eq)]
pub enum PermissionProfile {
    /// Whatever it likes.
    Disabled,
    /// What a profile of that name allows.
    Named(String),
}

/// What a [`PermissionProfile`] means.
#[verifier::ext_equal]
pub ghost enum PermissionProfileView {
    Disabled,
    Named(Seq<char>),
}

impl DeepView for PermissionProfile {
    type V = PermissionProfileView;

    open spec fn deep_view(&self) -> PermissionProfileView {
        match self {
            PermissionProfile::Disabled => PermissionProfileView::Disabled,
            PermissionProfile::Named(value) => PermissionProfileView::Named(value@),
        }
    }
}

impl Duplicate for PermissionProfile {
    fn duplicate(&self) -> PermissionProfile {
        match self {
            PermissionProfile::Disabled => PermissionProfile::Disabled,
            PermissionProfile::Named(value) => PermissionProfile::Named(value.clone()),
        }
    }
}

/// How much of the output of a command is kept.
#[derive(Debug, Clone, Copy, PartialEq, Eq, Structural)]
pub enum ExecCapturePolicy {
    /// As much as a tool returns.
    ShellTool,
    /// All of it.
    FullBuffer,
}

/// How a command is to be run.
#[derive(Debug, PartialEq, Eq)]
pub struct ExecRequest {
    pub command: Vec<String>,
    pub cwd: String,
    pub env: Vec<EnvVar>,
    pub expiration_ms: u64,
    pub capture_policy: ExecCapturePolicy,
    pub permission_profile: PermissionProfile,
    pub sandboxed: bool,
    pub managed_network: bool,
}

/// What an [`ExecRequest`] means.
#[verifier::ext_equal]
pub ghost struct ExecRequestView {
    pub command: Seq<Seq<char>>,
    pub cwd: Seq<char>,
    pub env: Seq<EnvVarView>,
    pub expiration_ms: u64,
    pub capture_policy: ExecCapturePolicy,
    pub permission_profile: PermissionProfileView,
    pub sandboxed: bool,
    pub managed_network: bool,
}

impl DeepView for ExecRequest {
    type V = ExecRequestView;

    open spec fn deep_view(&self) -> ExecRequestView {
        ExecRequestView {
            command: self.command.deep_view(),
            cwd: self.cwd@,
            env: self.env.deep_view(),
            expiration_ms: self.expiration_ms,
            capture_policy: self.capture_policy,
            permission_profile: self.permission_profile.deep_view(),
            sandboxed: self.sandboxed,
            managed_network: self.managed_network,
        }
    }
}

impl Duplicate for ExecRequest {
    fn duplicate(&self) -> ExecRequest {
        ExecRequest {
            command: self.command.duplicate(),
            cwd: self.cwd.clone(),
            env: self.env.duplicate(),
            expiration_ms: self.expiration_ms,
            capture_policy: self.capture_policy,
            permission_profile: self.permission_profile.duplicate(),
            sandboxed: self.sandboxed,
            managed_network: self.managed_network,
        }
    }
}

/// What comes of a command that may be a `cd`.
#[derive(Debug, PartialEq, Eq)]
pub enum CdStep {
    /// It is for the shell.
    RunInShell,
    /// The directory has to be looked up.
    Resolve {
        target: String,
    },
    /// It has ended.
    Finish {
        output: ExecOutput,
    },
}

/// What a [`CdStep`] means.
#[verifier::ext_equal]
pub ghost enum CdStepView {
    RunInShell,
    Resolve {
        target: Seq<char>,
    },
    Finish {
        output: ExecOutputView,
    },
}

impl DeepView for CdStep {
    type V = CdStepView;

    open spec fn deep_view(&self) -> CdStepView {
        match self {
            CdStep::RunInShell => CdStepView::RunInShell,
            CdStep::Resolve { target } => CdStepView::Resolve {
                target: target@,
            },
            CdStep::Finish { output } => CdStepView::Finish {
                output: output.deep_view(),
            },
        }
    }
}

impl Duplicate for CdStep {
    fn duplicate(&self) -> CdStep {
        match self {
            CdStep::RunInShell => CdStep::RunInShell,
            CdStep::Resolve { target } => CdStep::Resolve {
                target: target.clone(),
            },
            CdStep::Finish { output } => CdStep::Finish {
                output: output.duplicate(),
            },
        }
    }
}

/// What looking up a directory has given.
#[derive(Debug, PartialEq, Eq)]
pub enum CdLookup {
    /// There is no such directory.
    Failed {
        message: String,
    },
    /// What was found is no absolute path.
    NotAbsolute {
        error: String,
    },
    Found {
        path: String,
    },
}

/// What a [`CdLookup`] means.
#[verifier::ext_equal]
pub ghost enum CdLookupView {
    Failed {
        message: Seq<char>,
    },
    NotAbsolute {
        error: Seq<char>,
    },
    Found {
        path: Seq<char>,
    },
}

impl DeepView for CdLookup {
    type V = CdLookupView;

    open spec fn deep_view(&self) -> CdLookupView {
        match self {
            CdLookup::Failed { message } => CdLookupView::Failed {
                message: message@,
            },
            CdLookup::NotAbsolute { error } => CdLookupView::NotAbsolute {
                error: error@,
            },
            CdLookup::Found { path } => CdLookupView::Found {
                path: path@,
            },
        }
    }
}

impl Duplicate for CdLookup {
    fn duplicate(&self) -> CdLookup {
        match self {
            CdLookup::Failed { message } => CdLookup::Failed {
                message: message.clone(),
            },
            CdLookup::NotAbsolute { error } => CdLookup::NotAbsolute {
                error: error.clone(),
            },
            CdLookup::Found { path } => CdLookup::Found {
                path: path.clone(),
            },
        }
    }
}

/// What comes of a directory that was looked up.
#[derive(Debug, PartialEq, Eq)]
pub enum CdUpdate {
    /// The session has to take over the directory.
    UpdateSettings {
        cwd: String,
    },
    /// The command has ended.
    Finish {
        output: ExecOutput,
    },
}

/// What a [`CdUpdate`] means.
#[verifier::ext_equal]
pub ghost enum CdUpdateView {
    UpdateSettings {
        cwd: Seq<char>,
    },
    Finish {
        output: ExecOutputView,
    },
}

impl DeepView for CdUpdate {
    type V = CdUpdateView;

    open spec fn deep_view(&self) -> CdUpdateView {
        match self {
            CdUpdate::UpdateSettings { cwd } => CdUpdateView::UpdateSettings {
                cwd: cwd@,
            },
            CdUpdate::Finish { output } => CdUpdateView::Finish {
                output: output.deep_view(),
            },
        }
    }
}

impl Duplicate for CdUpdate {
    fn duplicate(&self) -> CdUpdate {
        match self {
            CdUpdate::UpdateSettings { cwd } => CdUpdate::UpdateSettings {
                cwd: cwd.clone(),
            },
            CdUpdate::Finish { output } => CdUpdate::Finish {
                output: output.duplicate(),
            },
        }
    }
}

/// How a `cd` ends.
#[derive(Debug, PartialEq, Eq)]
pub struct CdEnd {
    /// The directory that later commands start in.
    pub cwd: String,
    /// The directory to write into the record of the session, where it has changed.
    pub turn_context_cwd: Option<String>,
    pub output: ExecOutput,
}

/// What a [`CdEnd`] means.
#[verifier::ext_equal]
pub ghost struct CdEndView {
    pub cwd: Seq<char>,
    pub turn_context_cwd: Option<Seq<char>>,
    pub output: ExecOutputView,
}

impl DeepView for CdEnd {
    type V = CdEndView;

    open spec fn deep_view(&self) -> CdEndView {
        CdEndView {
            cwd: self.cwd@,
            turn_context_cwd: self.turn_context_cwd.deep_view(),
            output: self.output.deep_view(),
        }
    }
}

impl Duplicate for CdEnd {
    fn duplicate(&self) -> CdEnd {
        CdEnd {
            cwd: self.cwd.clone(),
            turn_context_cwd: self.turn_context_cwd.duplicate(),
            output: self.output.duplicate(),
        }
    }
}

/// How the environment shows the proxy that the session manages.
#[derive(Debug, PartialEq, Eq)]
pub struct ProxyEnv {
    /// The variable that is set where the proxy is active.
    pub active_name: String,
    /// The proxy's own variables.
    pub names: Vec<String>,
    /// The variable with the command for git over SSH, and what its value starts with where the proxy
    /// has set it. There is none where the proxy sets no such command.
    pub git_ssh_mark: Option<EnvVar>,
}

/// What a [`ProxyEnv`] means.
#[verifier::ext_equal]
pub ghost struct ProxyEnvView {
    pub active_name: Seq<char>,
    pub names: Seq<Seq<char>>,
    pub git_ssh_mark: Option<EnvVarView>,
}

impl DeepView for ProxyEnv {
    type V = ProxyEnvView;

    open spec fn deep_view(&self) -> ProxyEnvView {
        ProxyEnvView {
            active_name: self.active_name@,
            names: self.names.deep_view(),
            git_ssh_mark: self.git_ssh_mark.deep_view(),
        }
    }
}

impl Duplicate for ProxyEnv {
    fn duplicate(&self) -> ProxyEnv {
        ProxyEnv {
            active_name: self.active_name.clone(),
            names: self.names.duplicate(),
            git_ssh_mark: self.git_ssh_mark.duplicate(),
        }
    }
}

/// What a command of the user is run with.
#[derive(Debug, PartialEq, Eq)]
pub struct ShellSetup {
    pub turn_id: String,
    pub shell_type: ShellType,
    /// The command as the shell is called with it.
    pub display_command: Vec<String>,
    /// What the command is made of, as the client shows it.
    pub parsed_command: Vec<String>,
    pub env: Vec<EnvVar>,
}

/// What a [`ShellSetup`] means.
#[verifier::ext_equal]
pub ghost struct ShellSetupView {
    pub turn_id: Seq<char>,
    pub shell_type: ShellType,
    pub display_command: Seq<Seq<char>>,
    pub parsed_command: Seq<Seq<char>>,
    pub env: Seq<EnvVarView>,
}

impl DeepView for ShellSetup {
    type V = ShellSetupView;

    open spec fn deep_view(&self) -> ShellSetupView {
        ShellSetupView {
            turn_id: self.turn_id@,
            shell_type: self.shell_type,
            display_command: self.display_command.deep_view(),
            parsed_command: self.parsed_command.deep_view(),
            env: self.env.deep_view(),
        }
    }
}

impl Duplicate for ShellSetup {
    fn duplicate(&self) -> ShellSetup {
        ShellSetup {
            turn_id: self.turn_id.clone(),
            shell_type: self.shell_type,
            display_command: self.display_command.duplicate(),
            parsed_command: self.parsed_command.duplicate(),
            env: self.env.duplicate(),
        }
    }
}

/// How a command of the user starts.
#[derive(Debug, PartialEq, Eq)]
pub struct ShellStart {
    /// What the client is told first, where it is told anything.
    pub turn_started: Option<ShellEvent>,
    pub call: CommandCall,
    /// The environment that the command is run in.
    pub env: Vec<EnvVar>,
    /// What comes of it.
    pub step: CdStep,
}

/// What a [`ShellStart`] means.
#[verifier::ext_equal]
pub ghost struct ShellStartView {
    pub turn_started: Option<ShellEventView>,
    pub call: CommandCallView,
    pub env: Seq<EnvVarView>,
    pub step: CdStepView,
}

impl DeepView for ShellStart {
    type V = ShellStartView;

    open spec fn deep_view(&self) -> ShellStartView {
        ShellStartView {
            turn_started: self.turn_started.deep_view(),
            call: self.call.deep_view(),
            env: self.env.deep_view(),
            step: self.step.deep_view(),
        }
    }
}

impl Duplicate for ShellStart {
    fn duplicate(&self) -> ShellStart {
        ShellStart {
            turn_started: self.turn_started.duplicate(),
            call: self.call.duplicate(),
            env: self.env.duplicate(),
            step: self.step.duplicate(),
        }
    }
}

/// How a command of the user is handed to the shell.
#[derive(Debug, PartialEq, Eq)]
pub struct ShellRun {
    /// What the client is told.
    pub begin: ShellEvent,
    pub request: ExecRequest,
}

/// What a [`ShellRun`] means.
#[verifier::ext_equal]
pub ghost struct ShellRunView {
    pub begin: ShellEventView,
    pub request: ExecRequestView,
}

impl DeepView for ShellRun {
    type V = ShellRunView;

    open spec fn deep_view(&self) -> ShellRunView {
        ShellRunView {
            begin: self.begin.deep_view(),
            request: self.request.deep_view(),
        }
    }
}

impl Duplicate for ShellRun {
    fn duplicate(&self) -> ShellRun {
        ShellRun {
            begin: self.begin.duplicate(),
            request: self.request.duplicate(),
        }
    }
}

/// A step that makes the output of a command part of the conversation.
#[derive(Debug, Clone, Copy, PartialEq, Eq, Structural)]
pub enum PersistAction {
    RecordConversationItems,
    EnsureRolloutMaterialized,
    InjectResponseItems,
}

/// The task that runs a command as a turn of its own.
#[derive(Debug)]
pub struct UserShellCommandTask {
    pub command: String,
}

impl UserShellCommandTask {
    /// The task that runs `command`.
    pub fn new(command: String) -> (task: UserShellCommandTask)
        ensures
            task.command@ == command@,
    {
        UserShellCommandTask { command }
    }

    /// The mode that the task runs its command in.
    pub fn mode(&self) -> (mode: UserShellCommandMode)
        ensures
            mode == UserShellCommandMode::StandaloneTurn,
    {
        UserShellCommandMode::StandaloneTurn
    }
}

/// The event that starts a command, where it is a turn of its own. A command beside another turn
/// starts no turn: that turn has been started already.
pub fn begin_user_shell_command(turn_id: &str, mode: UserShellCommandMode) -> (event: Option<
    ShellEvent,
>)
    ensures
        event.deep_view() == (if mode == UserShellCommandMode::StandaloneTurn {
            Some(ShellEventView::TurnStarted { turn_id: turn_id@ })
        } else {
            None
        }),
{
    if mode == UserShellCommandMode::StandaloneTurn {
        Some(ShellEvent::TurnStarted { turn_id: turn_id.to_owned() })
    } else {
        None
    }
}

/// Whether the environment has a variable of this name.
pub open spec fn env_has(env: Seq<EnvVarView>, name: Seq<char>) -> bool {
    exists|i: int| 0 <= i < env.len() && (#[trigger] env[i]).name == name
}

/// The value of the first variable of this name.
pub open spec fn env_value(env: Seq<EnvVarView>, name: Seq<char>) -> Option<Seq<char>>
    decreases env.len(),
{
    if env.len() == 0 {
        None
    } else if env[0].name == name {
        Some(env[0].value)
    } else {
        env_value(env.drop_first(), name)
    }
}

/// The position of the first variable of this name.
fn env_position(env: &Vec<EnvVar>, name: &str) -> (position: Option<usize>)
    ensures
        match position {
            Some(i) => i < env@.len() && env_value(env.deep_view(), name@) == Some(
                env@[i as int].value@,
            ) && env_has(env.deep_view(), name@),
            None => env_value(env.deep_view(), name@) is None && !env_has(env.deep_view(), name@),
        },
{
    let ghost all = env.deep_view();
    let mut i: usize = 0;
    assert(all.skip(0) == all);
    while i < env.len()
        invariant
            i <= env@.len(),
            all == env.deep_view(),
            env_value(all, name@) == env_value(all.skip(i as int), name@),
            forall|j: int| 0 <= j < i ==> (#[trigger] all[j]).name != name@,
        decreases env@.len() - i,
    {
        assert(all[i as int] == env@[i as int].deep_view());
        if same_text(env[i].name.as_str(), name) {
            return Some(i);
        }
        assert(all.skip(i as int).drop_first() == all.skip(i + 1));
        i = i + 1;
    }
    None
}

/// Whether a variable belongs to a proxy that the session manages: one of the proxy's own
/// variables, or a command for git over SSH that carries the proxy's mark.
pub open spec fn is_proxy_var(
    var: EnvVarView,
    proxy_names: Seq<Seq<char>>,
    git_ssh_mark: Option<EnvVarView>,
) -> bool {
    ||| proxy_names.contains(var.name)
    ||| git_ssh_mark matches Some(mark) && mark.name == var.name && mark.value.is_prefix_of(
        var.value,
    )
}

/// The environment of a command of the user: where the proxy that the session manages is active,
/// without the proxy's variables.
pub open spec fn scrubbed(
    env: Seq<EnvVarView>,
    active_name: Seq<char>,
    proxy_names: Seq<Seq<char>>,
    git_ssh_mark: Option<EnvVarView>,
) -> Seq<EnvVarView> {
    if env_has(env, active_name) {
        env.filter(|var: EnvVarView| !is_proxy_var(var, proxy_names, git_ssh_mark))
    } else {
        env
    }
}

/// Takes the variables of the session's proxy out of the environment of a command.
///
/// `git_ssh_mark` names the variable that holds the command for git over SSH and the text that
/// its value starts with where the proxy has set it; there is none on systems where the proxy
/// sets no such command.
pub fn scrub_proxy_env(
    env: &mut Vec<EnvVar>,
    active_name: &str,
    proxy_names: &Vec<String>,
    git_ssh_mark: &Option<EnvVar>,
)
    ensures
        final(env).deep_view() == scrubbed(
            old(env).deep_view(),
            active_name@,
            proxy_names.deep_view(),
            git_ssh_mark.deep_view(),
        ),
{
    if env_position(env, active_name).is_none() {
        return ;
    }
    let ghost names = proxy_names.deep_view();
    let ghost mark_view = git_ssh_mark.deep_view();
    let ghost wanted = |var: EnvVarView| !is_proxy_var(var, names, mark_view);
    let keep = |var: &EnvVar| -> (kept: bool)
        ensures
            kept == wanted(var.deep_view()),
        {
            if contains_text(proxy_names, &var.name) {
                return false;
            }
            match git_ssh_mark {
                Some(mark) => !(mark.name == var.name && starts_with(
                    var.value.as_str(),
                    mark.value.as_str(),
                )),
                None => true,
            }
        };
    retain_vec(env, keep, Ghost(wanted));
    assert(final(env).deep_view() == scrubbed(
        old(env).deep_view(),
        active_name@,
        names,
        mark_view,
    )) by {
        assert(wanted =~= (|var: EnvVarView| !is_proxy_var(var, names, mark_view)));
    }
}

/// The home directory that a command's environment gives.
pub fn shell_home(env: &Vec<EnvVar>) -> (home: Option<String>)
    ensures
        home.deep_view() == env_value(env.deep_view(), "HOME"@),
{
    match env_position(env, "HOME") {
        Some(i) => Some(env[i].value.clone()),
        None => None,
    }
}

/// Whether `cd` may look up a directory elsewhere than below the working directory: the
/// environment sets `CDPATH`, or the shell's start-up sets it.
pub fn cdpath_may_affect(env: &Vec<EnvVar>, snapshot_exports_cdpath: bool) -> (result: bool)
    ensures
        result == (snapshot_exports_cdpath || (env_value(env.deep_view(), "CDPATH"@) matches Some(
            value,
        ) && value.len() > 0)),
{
    let set_here = match env_position(env, "CDPATH") {
        Some(i) => !env[i].value.as_str().is_empty(),
        None => false,
    };
    set_here || snapshot_exports_cdpath
}

/// Whether `CDPATH` changes what a `cd` to `target` means: it does where the target is relative
/// and starts with a name.
pub open spec fn cdpath_applies(target: Seq<char>) -> bool {
    !absolute(target) && starts_with_name(target)
}

/// Whether `CDPATH` changes what a `cd` to `target` means.
pub fn cdpath_can_affect(target: &str) -> (result: bool)
    ensures
        result == cdpath_applies(target@),
{
    !is_absolute(target) && begins_with_name(target)
}

/// The lines of a text: what stands between its newlines.
pub open spec fn lines(text: Seq<char>) -> Seq<Seq<char>>
    decreases text.len(),
{
    if text.len() == 0 {
        seq![Seq::<char>::empty()]
    } else {
        let before = lines(text.drop_last());
        if text.last() == '\n' {
            before.push(Seq::<char>::empty())
        } else {
            before.drop_last().push(before.last().push(text.last()))
        }
    }
}

/// Whether a line starts the part of a shell snapshot that lists exported variables.
pub open spec fn is_exports_heading(line: Seq<char>) -> bool {
    "# exports "@.is_prefix_of(trimmed_start(line))
}

/// Whether a line exports `CDPATH`.
pub open spec fn exports_cdpath(line: Seq<char>) -> bool {
    let line = trimmed_start(line);
    ||| "export CDPATH="@.is_prefix_of(line)
    ||| "declare -x CDPATH="@.is_prefix_of(line)
    ||| "typeset -x CDPATH="@.is_prefix_of(line)
}

/// Whether there is a heading with an export of `CDPATH` somewhere below it.
pub open spec fn exports_below_heading(all: Seq<Seq<char>>) -> bool {
    exists|i: int, j: int|
        0 <= i < j < all.len() && is_exports_heading(#[trigger] all[i]) && exports_cdpath(
            #[trigger] all[j],
        )
}

/// Whether the characters from `from` to `to`, without leading white space, start with `prefix`.
fn line_starts_with(chars: &Vec<char>, from: usize, to: usize, prefix: &str) -> (result: bool)
    requires
        from <= to <= chars@.len(),
    ensures
        result == prefix@.is_prefix_of(trimmed_start(chars@.subrange(from as int, to as int))),
{
    let ghost line = chars@.subrange(from as int, to as int);
    let mut start: usize = from;
    while start < to && is_whitespace(chars[start])
        invariant
            from <= start <= to <= chars@.len(),
            line == chars@.subrange(from as int, to as int),
            trimmed_start(line) == trimmed_start(chars@.subrange(start as int, to as int)),
        ensures
            from <= start <= to <= chars@.len(),
            trimmed_start(line) == chars@.subrange(start as int, to as int),
        decreases to - start,
    {
        assert(chars@.subrange(start as int, to as int).drop_first() == chars@.subrange(
            start + 1,
            to as int,
        ));
        start = start + 1;
    }
    let wanted = chars_of(prefix);
    if to - start < wanted.len() {
        return false;
    }
    let mut k: usize = 0;
    let ghost rest = chars@.subrange(start as int, to as int);
    while k < wanted.len()
        invariant
            k <= wanted@.len() <= to - start,
            start <= to <= chars@.len(),
            rest == chars@.subrange(start as int, to as int),
            rest == trimmed_start(chars@.subrange(from as int, to as int)),
            wanted@ == prefix@,
            wanted@.take(k as int) == rest.take(k as int),
        decreases wanted@.len() - k,
    {
        assert(rest[k as int] == chars@[start + k]);
        if wanted[k] != chars[start + k] {
            assert(prefix@.is_prefix_of(rest) ==> prefix@[k as int] == rest.subrange(
                0,
                prefix@.len() as int,
            )[k as int]);
            return false;
        }
        assert(wanted@.take(k + 1) =~= rest.take(k + 1));
        k = k + 1;
    }
    assert(prefix@ =~= rest.subrange(0, prefix@.len() as int)) by {
        assert(wanted@.take(k as int) =~= prefix@);
    }
    true
}

fn line_exports_cdpath(chars: &Vec<char>, from: usize, to: usize) -> (result: bool)
    requires
        from <= to <= chars@.len(),
    ensures
        result == exports_cdpath(chars@.subrange(from as int, to as int)),
{
    line_starts_with(chars, from, to, "export CDPATH=") || line_starts_with(
        chars,
        from,
        to,
        "declare -x CDPATH=",
    ) || line_starts_with(chars, from, to, "typeset -x CDPATH=")
}

/// Whether a shell snapshot, given as its text, exports `CDPATH` below its heading for exports.
pub fn snapshot_text_exports_cdpath(contents: &str) -> (result: bool)
    ensures
        result == exports_below_heading(lines(contents@)),
{
    let chars = chars_of(contents);
    let mut i: usize = 0;
    let mut start: usize = 0;
    let mut heading_seen = false;
    let ghost text = contents@;
    proof {
        assert(text.take(0) == Seq::<char>::empty());
        assert(lines(text.take(0)).last() == text.subrange(0, 0));
    }
    while i < chars.len()
        invariant
            start <= i <= chars@.len(),
            chars@ == text,
            text == contents@,
            lines(text.take(i as int)).len() > 0,
            lines(text.take(i as int)).last() == text.subrange(start as int, i as int),
            heading_seen == exists|h: int|
                0 <= h < lines(text.take(i as int)).len() - 1 && is_exports_heading(
                    #[trigger] lines(text.take(i as int))[h],
                ),
            !exports_below_heading(lines(text.take(i as int)).drop_last()),
        decreases chars@.len() - i,
    {
        let ghost done = lines(text.take(i as int));
        proof {
            assert(text.take(i + 1).drop_last() == text.take(i as int));
            assert(forall|k: int| 0 <= k < done.len() - 1 ==> done.drop_last()[k] == done[k]);
        }
        if chars[i] == '\n' {
            let ghost next = lines(text.take(i + 1));
            assert(next == done.push(Seq::<char>::empty()));
            assert(next.drop_last() == done);
            if heading_seen && line_exports_cdpath(&chars, start, i) {
                proof {
                    let h = choose|h: int|
                        0 <= h < done.len() - 1 && is_exports_heading(#[trigger] done[h]);
                    lemma_lines_extend(text, i as int);
                    let all = lines(text);
                    assert(all[h] == done[h]);
                    assert(all[done.len() - 1] == done[done.len() - 1]);
                    assert(exports_below_heading(all));
                }
                return true;
            }
            proof {
                if exports_below_heading(done) {
                    let (a, b) = choose|a: int, b: int|
                        0 <= a < b < done.len() && is_exports_heading(#[trigger] done[a])
                            && exports_cdpath(#[trigger] done[b]);
                    if b < done.len() - 1 {
                        assert(exports_below_heading(done.drop_last())) by {
                            assert(done.drop_last()[a] == done[a]);
                            assert(done.drop_last()[b] == done[b]);
                        }
                    }
                }
            }
            if line_starts_with(&chars, start, i, "# exports ") {
                heading_seen = true;
                assert(is_exports_heading(next[next.len() - 2]));
            }
            start = i + 1;
            assert(next.last() == text.subrange(start as int, i + 1));
        } else {
            let ghost next = lines(text.take(i + 1));
            assert(next.last() == text.subrange(start as int, i + 1));
            assert(next.drop_last() == done.drop_last());
            assert(forall|k: int| 0 <= k < next.len() - 1 ==> next[k] == done[k]);
        }
        i = i + 1;
    }
    assert(text.take(i as int) == text);
    let ghost all = lines(text);
    let result = heading_seen && line_exports_cdpath(&chars, start, i);
    proof {
        if result {
            let h = choose|h: int| 0 <= h < all.len() - 1 && is_exports_heading(#[trigger] all[h]);
            assert(exports_cdpath(all[all.len() - 1]));
        }
        if exports_below_heading(all) {
            let (a, b) = choose|a: int, b: int|
                0 <= a < b < all.len() && is_exports_heading(#[trigger] all[a]) && exports_cdpath(
                    #[trigger] all[b],
                );
            if b < all.len() - 1 {
                assert(all.drop_last()[a] == all[a]);
                assert(all.drop_last()[b] == all[b]);
            }
        }
    }
    result
}

/// The lines that a newline has ended stay as they are, whatever text comes behind it.
proof fn lemma_lines_extend(text: Seq<char>, i: int)
    requires
        0 <= i < text.len(),
        text[i] == '\n',
    ensures
        lines(text.take(i)).len() < lines(text).len(),
        lines(text.take(i)).len() > 0,
        forall|k: int|
            0 <= k < lines(text.take(i)).len() ==> (#[trigger] lines(text)[k]) == lines(
                text.take(i),
            )[k],
    decreases text.len(),
{
    if i == text.len() - 1 {
        assert(text.drop_last() == text.take(i));
        lemma_lines_nonempty(text.take(i));
    } else {
        let shorter = text.drop_last();
        assert(shorter.take(i) == text.take(i));
        lemma_lines_extend(shorter, i);
    }
}

proof fn lemma_lines_nonempty(text: Seq<char>)
    ensures
        lines(text).len() > 0,
{
}

/// What is known of the script that a shell starts with.
#[derive(Debug, PartialEq, Eq)]
pub enum ShellSnapshot {
    /// There is none, or it belongs to another directory.
    Absent,
    /// There is one, and it could not be read.
    Unreadable,
    /// Its text.
    Contents(String),
}

/// Whether a shell's start-up may set `CDPATH`. A script that cannot be read may do anything.
pub fn shell_snapshot_exports_cdpath(snapshot: &ShellSnapshot) -> (result: bool)
    ensures
        result == startup_sets_cdpath(*snapshot),
{
    match snapshot {
        ShellSnapshot::Absent => false,
        ShellSnapshot::Unreadable => true,
        ShellSnapshot::Contents(contents) => snapshot_text_exports_cdpath(contents.as_str()),
    }
}

/// How a command of the user is run: for at most [`USER_SHELL_TIMEOUT_MS`], with no permission
/// held back, without a sandbox and without the proxy that the session manages.
pub fn user_shell_exec_request(command: Vec<String>, cwd: String, env: Vec<EnvVar>) -> (request:
    ExecRequest)
    ensures
        request.deep_view() == (ExecRequestView {
            command: command.deep_view(),
            cwd: cwd@,
            env: env.deep_view(),
            expiration_ms: USER_SHELL_TIMEOUT_MS,
            capture_policy: ExecCapturePolicy::ShellTool,
            permission_profile: PermissionProfileView::Disabled,
            sandboxed: false,
            managed_network: false,
        }),
{
    ExecRequest {
        command,
        cwd,
        env,
        expiration_ms: USER_SHELL_TIMEOUT_MS,
        capture_policy: ExecCapturePolicy::ShellTool,
        permission_profile: PermissionProfile::Disabled,
        sandboxed: false,
        managed_network: false,
    }
}

/// The status that an exit code means.
pub open spec fn status_of(exit_code: i32) -> ExecCommandStatus {
    if exit_code == 0 {
        ExecCommandStatus::Completed
    } else {
        ExecCommandStatus::Failed
    }
}

/// What a command leaves behind that has ended with `exit_code` and said `message`, on the
/// stream that suits the code.
pub open spec fn message_output(exit_code: i32, message: Seq<char>) -> ExecOutputView {
    ExecOutputView {
        exit_code,
        stdout: if exit_code == 0 {
            message
        } else {
            Seq::empty()
        },
        stderr: if exit_code == 0 {
            Seq::empty()
        } else {
            message
        },
        aggregated_output: message,
        duration_nanos: 0,
        timed_out: false,
    }
}

/// What a command leaves behind that was not carried out, for the reason that `message` gives.
pub open spec fn refusal_output(message: Seq<char>) -> ExecOutputView {
    message_output((-1) as i32, message)
}

/// What a `cd` leaves behind.
pub fn cd_output(exit_code: i32, message: &str) -> (output: ExecOutput)
    ensures
        output.deep_view() == message_output(exit_code, message@),
{
    let (stdout, stderr) = if exit_code == 0 {
        (message.to_owned(), String::new())
    } else {
        (String::new(), message.to_owned())
    };
    ExecOutput {
        exit_code,
        stdout,
        stderr,
        aggregated_output: message.to_owned(),
        duration_nanos: 0,
        timed_out: false,
    }
}

/// What the run of a command leaves behind, however it ended.
pub open spec fn outcome_left(outcome: ExecOutcomeView) -> ExecOutputView {
    match outcome {
        ExecOutcomeView::Cancelled => refusal_output("command aborted by user"@),
        ExecOutcomeView::Finished(output) => output,
        ExecOutcomeView::Failed(error) => refusal_output("execution error: "@ + error),
    }
}

/// What the run of a command leaves behind, however it ended.
pub fn outcome_output(outcome: &ExecOutcome) -> (output: ExecOutput)
    ensures
        output.deep_view() == outcome_left(outcome.deep_view()),
{
    match outcome {
        ExecOutcome::Cancelled => cd_output(-1, "command aborted by user"),
        ExecOutcome::Finished(output) => output.duplicate(),
        ExecOutcome::Failed(error) => cd_output(
            -1,
            "execution error: ".to_owned().concat(error.as_str()).as_str(),
        ),
    }
}

/// The steps that end a command. What a cancelled command leaves behind is kept before the
/// client is told; any other after.
pub open spec fn ending(
    call: CommandCallView,
    cwd: Seq<char>,
    raw_command: Seq<char>,
    outcome: ExecOutcomeView,
    formatted: Seq<char>,
) -> Seq<ShellActionView> {
    let output = outcome_left(outcome);
    let persist = ShellActionView::Persist { raw_command, output };
    let send = |formatted_output: Seq<char>, status: ExecCommandStatus|
        ShellActionView::Send(
            ShellEventView::ExecCommandEnd { call, cwd, output, formatted_output, status },
        );
    match outcome {
        ExecOutcomeView::Cancelled => seq![
            persist,
            send("command aborted by user"@, ExecCommandStatus::Failed),
        ],
        ExecOutcomeView::Finished(_) => seq![send(formatted, status_of(output.exit_code)), persist],
        ExecOutcomeView::Failed(_) => seq![send(formatted, ExecCommandStatus::Failed), persist],
    }
}

/// The steps that end a command. `formatted` is the output, from [`outcome_output`], as the
/// client shows it.
pub fn finish_user_shell_command(
    call: CommandCall,
    cwd: String,
    raw_command: String,
    outcome: ExecOutcome,
    formatted: String,
) -> (actions: Vec<ShellAction>)
    ensures
        actions.deep_view() == ending(
            call.deep_view(),
            cwd@,
            raw_command@,
            outcome.deep_view(),
            formatted@,
        ),
{
    let output = outcome_output(&outcome);
    let persist = ShellAction::Persist { raw_command, output: output.duplicate() };
    let mut actions: Vec<ShellAction> = Vec::new();
    match outcome {
        ExecOutcome::Cancelled => {
            let event = ShellEvent::ExecCommandEnd {
                call,
                cwd,
                output,
                formatted_output: "command aborted by user".to_owned(),
                status: ExecCommandStatus::Failed,
            };
            actions.push(persist);
            actions.push(ShellAction::Send(event));
        },
        ExecOutcome::Finished(_) => {
            let status = if output.exit_code == 0 {
                ExecCommandStatus::Completed
            } else {
                ExecCommandStatus::Failed
            };
            let event = ShellEvent::ExecCommandEnd {
                call,
                cwd,
                output,
                formatted_output: formatted,
                status,
            };
            actions.push(ShellAction::Send(event));
            actions.push(persist);
        },
        ExecOutcome::Failed(_) => {
            let event = ShellEvent::ExecCommandEnd {
                call,
                cwd,
                output,
                formatted_output: formatted,
                status: ExecCommandStatus::Failed,
            };
            actions.push(ShellAction::Send(event));
            actions.push(persist);
        },
    }
    assert(actions.deep_view() =~= ending(
        call.deep_view(),
        cwd@,
        raw_command@,
        outcome.deep_view(),
        formatted@,
    ));
    actions
}

/// Whether a shell reads `cd` the way that this library does.
pub open spec fn is_posix_shell(shell_type: ShellType) -> bool {
    shell_type == ShellType::Bash || shell_type == ShellType::Zsh || shell_type == ShellType::Sh
}

/// What comes of a command, given what it asks of the working directory.
pub open spec fn cd_step(
    meaning: CdMeaning,
    cdpath_may_affect: bool,
    mode: UserShellCommandMode,
) -> CdStepView {
    match meaning {
        CdMeaning::NotCd => CdStepView::RunInShell,
        CdMeaning::Invalid(message) => CdStepView::Finish { output: refusal_output(message) },
        CdMeaning::ChangeTo(target) => if cdpath_may_affect && cdpath_applies(target) {
            CdStepView::RunInShell
        } else if mode == UserShellCommandMode::ActiveTurnAuxiliary {
            CdStepView::Finish {
                output: refusal_output("cd: cannot change cwd while a turn is in progress"@,
                ),
            }
        } else {
            CdStepView::Resolve { target }
        },
    }
}

/// What comes of a command, given what it asks of the working directory.
pub fn cd_step_for(meaning: ShellCd, cdpath_may_affect: bool, mode: UserShellCommandMode) -> (step:
    CdStep)
    ensures
        step.deep_view() == cd_step(meaning.deep_view(), cdpath_may_affect, mode),
{
    match meaning {
        ShellCd::NotCd => CdStep::RunInShell,
        ShellCd::Invalid(message) => CdStep::Finish { output: cd_output(-1, message.as_str()) },
        ShellCd::ChangeTo(target) => {
            if cdpath_may_affect && cdpath_can_affect(target.as_str()) {
                CdStep::RunInShell
            } else if mode == UserShellCommandMode::ActiveTurnAuxiliary {
                CdStep::Finish {
                    output: cd_output(-1, "cd: cannot change cwd while a turn is in progress"),
                }
            } else {
                CdStep::Resolve { target }
            }
        },
    }
}

/// What comes of a command of the user: whether it is run, and where it is a `cd` instead, what
/// is to be looked up or how it ends.
pub fn handle_cd_command(
    shell_type: ShellType,
    raw_command: &str,
    home: Option<&str>,
    cdpath_may_affect: bool,
    mode: UserShellCommandMode,
) -> (step: CdStep)
    ensures
        step.deep_view() == (if is_posix_shell(shell_type) {
            cd_step(
                cd_meaning(raw_command@, shell_words(raw_command@), home.deep_view()),
                cdpath_may_affect,
                mode,
            )
        } else {
            CdStepView::RunInShell
        }),
{
    match shell_type {
        ShellType::Bash | ShellType::Zsh | ShellType::Sh => cd_step_for(
            parse_with_home(raw_command, home),
            cdpath_may_affect,
            mode,
        ),
        ShellType::PowerShell | ShellType::Cmd => CdStep::RunInShell,
    }
}

/// Whether a shell's start-up may set `CDPATH`.
pub open spec fn startup_sets_cdpath(snapshot: ShellSnapshot) -> bool {
    match snapshot {
        ShellSnapshot::Absent => false,
        ShellSnapshot::Unreadable => true,
        ShellSnapshot::Contents(contents) => exports_below_heading(lines(contents@)),
    }
}

/// How a command starts whose call is `call_id`: the proxy's variables leave the environment,
/// and what is left says where `cd` without an argument leads and whether `CDPATH` is set.
pub open spec fn starting(
    setup: ShellSetupView,
    proxy: ProxyEnvView,
    startup_sets_cdpath: bool,
    raw_command: Seq<char>,
    mode: UserShellCommandMode,
    call_id: Seq<char>,
) -> ShellStartView {
    let env = scrubbed(setup.env, proxy.active_name, proxy.names, proxy.git_ssh_mark);
    ShellStartView {
        turn_started: if mode == UserShellCommandMode::StandaloneTurn {
            Some(ShellEventView::TurnStarted { turn_id: setup.turn_id })
        } else {
            None
        },
        call: CommandCallView {
            call_id,
            turn_id: setup.turn_id,
            command: setup.display_command,
            parsed_command: setup.parsed_command,
            source: CommandExecutionSource::UserShell,
        },
        env,
        step: if is_posix_shell(setup.shell_type) {
            cd_step(
                cd_meaning(raw_command, shell_words(raw_command), env_value(env, "HOME"@)),
                startup_sets_cdpath || (env_value(env, "CDPATH"@) matches Some(value) && value.len()
                    > 0),
                mode,
            )
        } else {
            CdStepView::RunInShell
        },
    }
}

/// Starts a command of the user, up to what comes of it: whether it goes to the shell, see
/// [`run_user_shell_command`], is a directory to look up, or has ended.
pub fn execute_user_shell_command(
    setup: ShellSetup,
    proxy: &ProxyEnv,
    snapshot: &ShellSnapshot,
    raw_command: &str,
    mode: UserShellCommandMode,
) -> (start: ShellStart)
    ensures
        start.deep_view() == starting(
            setup.deep_view(),
            proxy.deep_view(),
            startup_sets_cdpath(*snapshot),
            raw_command@,
            mode,
            start.call.call_id@,
        ),
        exists|value: u128| #[trigger]
            is_random_uuid(value) && start.call.call_id@ == id_text(ThreadId { value }),
{
    let turn_started = begin_user_shell_command(setup.turn_id.as_str(), mode);
    let ShellSetup { turn_id, shell_type, display_command, parsed_command, mut env } = setup;
    scrub_proxy_env(&mut env, proxy.active_name.as_str(), &proxy.names, &proxy.git_ssh_mark);
    let call = CommandCall {
        call_id: new_call_id(),
        turn_id,
        command: display_command,
        parsed_command,
        source: CommandExecutionSource::UserShell,
    };
    let home = shell_home(&env);
    let home = match &home {
        Some(home) => Some(home.as_str()),
        None => None,
    };
    let cdpath = cdpath_may_affect(&env, shell_snapshot_exports_cdpath(snapshot));
    let step = handle_cd_command(shell_type, raw_command, home, cdpath, mode);
    ShellStart { turn_started, call, env, step }
}

/// Hands a command of the user to the shell, which is called with `exec_command`.
pub fn run_user_shell_command(
    call: CommandCall,
    cwd: String,
    exec_command: Vec<String>,
    env: Vec<EnvVar>,
) -> (run: ShellRun)
    ensures
        run.deep_view() == (ShellRunView {
            begin: ShellEventView::ExecCommandBegin { call: call.deep_view(), cwd: cwd@ },
            request: ExecRequestView {
                command: exec_command.deep_view(),
                cwd: cwd@,
                env: env.deep_view(),
                expiration_ms: USER_SHELL_TIMEOUT_MS,
                capture_policy: ExecCapturePolicy::ShellTool,
                permission_profile: PermissionProfileView::Disabled,
                sandboxed: false,
                managed_network: false,
            },
        }),
{
    let begin = ShellEvent::ExecCommandBegin { call, cwd: cwd.clone() };
    ShellRun { begin, request: user_shell_exec_request(exec_command, cwd, env) }
}

/// What comes of a directory that was looked up.
pub fn cd_resolved(lookup: CdLookup) -> (update: CdUpdate)
    ensures
        update.deep_view() == match lookup.deep_view() {
            CdLookupView::Failed { message } => CdUpdateView::Finish {
                output: refusal_output(message),
            },
            CdLookupView::NotAbsolute { error } => CdUpdateView::Finish {
                output: refusal_output("cd: resolved path is not absolute: "@ + error),
            },
            CdLookupView::Found { path } => CdUpdateView::UpdateSettings { cwd: path },
        },
{
    match lookup {
        CdLookup::Failed { message } => CdUpdate::Finish { output: cd_output(-1, message.as_str()) },
        CdLookup::NotAbsolute { error } => CdUpdate::Finish {
            output: cd_output(
                -1,
                "cd: resolved path is not absolute: ".to_owned().concat(error.as_str()).as_str(),
            ),
        },
        CdLookup::Found { path } => CdUpdate::UpdateSettings { cwd: path },
    }
}

/// How a `cd` ends, once the session was asked to take over the directory `path`: in that
/// directory, or in `cwd` as before where the session has refused.
pub fn cd_updated(path: String, cwd: String, update_error: Option<String>) -> (end: CdEnd)
    ensures
        end.deep_view() == match update_error.deep_view() {
            None => CdEndView {
                cwd: path@,
                turn_context_cwd: Some(path@),
                output: message_output(0, "cwd: "@ + path@),
            },
            Some(error) => CdEndView {
                cwd: cwd@,
                turn_context_cwd: None,
                output: refusal_output("cd: failed to update cwd: "@ + error),
            },
        },
{
    match update_error {
        None => {
            let output = cd_output(0, "cwd: ".to_owned().concat(path.as_str()).as_str());
            CdEnd { turn_context_cwd: Some(path.clone()), cwd: path, output }
        },
        Some(error) => CdEnd {
            cwd,
            turn_context_cwd: None,
            output: cd_output(
                -1,
                "cd: failed to update cwd: ".to_owned().concat(error.as_str()).as_str(),
            ),
        },
    }
}

/// The steps that end a `cd`: the client sees a command that begins in the old directory and ends
/// in the new one, and the output becomes part of the conversation.
pub open spec fn cd_ending(
    call: CommandCallView,
    turn_cwd: Seq<char>,
    raw_command: Seq<char>,
    cwd: Seq<char>,
    output: ExecOutputView,
    formatted_output: Seq<char>,
) -> Seq<ShellActionView> {
    seq![
        ShellActionView::Send(ShellEventView::ExecCommandBegin { call, cwd: turn_cwd }),
        ShellActionView::Send(
            ShellEventView::ExecCommandEnd {
                call,
                cwd,
                output,
                formatted_output,
                status: status_of(output.exit_code),
            },
        ),
        ShellActionView::Persist { raw_command, output },
    ]
}

/// The steps that end a `cd`. `formatted` is the output as the client shows it.
pub fn send_cd_end(
    call: CommandCall,
    turn_cwd: String,
    raw_command: String,
    cwd: String,
    output: ExecOutput,
    formatted: String,
) -> (actions: Vec<ShellAction>)
    ensures
        actions.deep_view() == cd_ending(
            call.deep_view(),
            turn_cwd@,
            raw_command@,
            cwd@,
            output.deep_view(),
            formatted@,
        ),
{
    let status = if output.exit_code == 0 {
        ExecCommandStatus::Completed
    } else {
        ExecCommandStatus::Failed
    };
    let mut actions: Vec<ShellAction> = Vec::new();
    actions.push(
        ShellAction::Send(ShellEvent::ExecCommandBegin { call: call.duplicate(), cwd: turn_cwd }),
    );
    let copy = output.duplicate();
    actions.push(
        ShellAction::Send(
            ShellEvent::ExecCommandEnd {
                call,
                cwd,
                output: copy,
                formatted_output: formatted,
                status,
            },
        ),
    );
    actions.push(ShellAction::Persist { raw_command, output });
    assert(actions.deep_view() =~= cd_ending(
        call.deep_view(),
        turn_cwd@,
        raw_command@,
        cwd@,
        output.deep_view(),
        formatted@,
    ));
    actions
}

/// The steps that make the output of a command part of the conversation. A command that is a
/// turn of its own is recorded, and the record is made to exist; one beside another turn is handed
/// to that turn.
pub fn persist_user_shell_output(mode: UserShellCommandMode) -> (actions: Vec<PersistAction>)
    ensures
        actions@ == (if mode == UserShellCommandMode::StandaloneTurn {
            seq![PersistAction::RecordConversationItems, PersistAction::EnsureRolloutMaterialized]
        } else {
            seq![PersistAction::InjectResponseItems]
        }),
{
    if mode == UserShellCommandMode::StandaloneTurn {
        vec![PersistAction::RecordConversationItems, PersistAction::EnsureRolloutMaterialized]
    } else {
        vec![PersistAction::InjectResponseItems]
    }
}

/// The steps after an output was handed to the turn that is under way: where no turn has taken
/// it, it is recorded.
pub fn after_injection(taken: bool) -> (actions: Vec<PersistAction>)
    ensures
        actions@ == (if taken {
            seq![]
        } else {
            seq![PersistAction::RecordConversationItems]
        }),
{
    if taken {
        vec![]
    } else {
        vec![PersistAction::RecordConversationItems]
    }
}

/// A command beside another turn starts no turn and changes no directory.
pub proof fn law_auxiliary_command_leaves_the_turn_alone(
    setup: ShellSetupView,
    proxy: ProxyEnvView,
    startup_sets_cdpath: bool,
    raw_command: Seq<char>,
    call_id: Seq<char>,
)
    ensures
        ({
            let start = starting(
                setup,
                proxy,
                startup_sets_cdpath,
                raw_command,
                UserShellCommandMode::ActiveTurnAuxiliary,
                call_id,
            );
            start.turn_started is None && !(start.step is Resolve)
        }),
{
}

/// Where the proxy that the session manages is active, a command of the user sees none of its
/// variables, and all others as they were; where it is not, the environment stays as it is.
pub proof fn law_command_escapes_the_proxy(
    setup: ShellSetupView,
    proxy: ProxyEnvView,
    startup_sets_cdpath: bool,
    raw_command: Seq<char>,
    mode: UserShellCommandMode,
    call_id: Seq<char>,
)
    ensures
        ({
            let env = starting(
                setup,
                proxy,
                startup_sets_cdpath,
                raw_command,
                mode,
                call_id,
            ).env;
            if env_has(setup.env, proxy.active_name) {
                &&& forall|i: int|
                    0 <= i < env.len() ==> !is_proxy_var(
                        #[trigger] env[i],
                        proxy.names,
                        proxy.git_ssh_mark,
                    )
                &&& forall|i: int|
                    0 <= i < setup.env.len() && !is_proxy_var(
                        #[trigger] setup.env[i],
                        proxy.names,
                        proxy.git_ssh_mark,
                    ) ==> env.contains(setup.env[i])
            } else {
                env == setup.env
            }
        }),
{
    let keep = |var: EnvVarView| !is_proxy_var(var, proxy.names, proxy.git_ssh_mark);
    lemma_filter_holds(setup.env, keep);
    assert forall|i: int|
        0 <= i < setup.env.len() && !is_proxy_var(
            #[trigger] setup.env[i],
            proxy.names,
            proxy.git_ssh_mark,
        ) implies setup.env.filter(keep).contains(setup.env[i]) by {
        setup.env.lemma_filter_contains(keep, i);
    }
}

/// A command in which the shell gives some character a meaning of its own goes to the shell, and
/// so does every command of a shell that reads `cd` otherwise.
pub proof fn law_complex_command_goes_to_the_shell(
    setup: ShellSetupView,
    proxy: ProxyEnvView,
    startup_sets_cdpath: bool,
    raw_command: Seq<char>,
    mode: UserShellCommandMode,
    call_id: Seq<char>,
)
    requires
        has_metachar(trimmed_start(raw_command)) || !is_posix_shell(setup.shell_type),
    ensures
        starting(setup, proxy, startup_sets_cdpath, raw_command, mode, call_id).step
            == CdStepView::RunInShell,
{
}

/// However a command ends, the client is told of the end exactly once and what it leaves behind
/// is kept exactly once, and both speak of the same output.
pub proof fn law_command_ends_once(
    call: CommandCallView,
    cwd: Seq<char>,
    raw_command: Seq<char>,
    outcome: ExecOutcomeView,
    formatted: Seq<char>,
)
    ensures
        ({
            let actions = ending(call, cwd, raw_command, outcome, formatted);
            let persist = ShellActionView::Persist { raw_command, output: outcome_left(outcome) };
            &&& actions.len() == 2
            &&& actions[0] == persist || actions[1] == persist
            &&& exists|i: int|
                0 <= i < 2 && (#[trigger] actions[i] matches ShellActionView::Send(event)
                    && event matches ShellEventView::ExecCommandEnd { output, .. } && output
                    == outcome_left(outcome))
        }),
{
    let actions = ending(call, cwd, raw_command, outcome, formatted);
    assert(actions[0] is Send || actions[1] is Send);
}

} // verus!
