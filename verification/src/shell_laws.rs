//! What becomes of the commands that the user runs in a shell.
use crate::cd::{cd_meaning, shell_words};
use crate::collections::lemma_filter_same;
use crate::path_text::starts_with_name;
use crate::protocol::CommandExecutionSource;
use crate::text::trimmed_start;
use crate::user_shell::{
    cd_ending, cdpath_applies, ending, env_has, env_value, exports_below_heading,
    exports_cdpath, is_exports_heading, is_posix_shell, is_proxy_var, lines, message_output,
    outcome_left, refusal_output, scrubbed, starting, startup_sets_cdpath, status_of, CdStepView,
    CommandCallView, EnvVarView, ExecCommandStatus, ExecOutcomeView, ExecOutputView, ProxyEnvView,
    ShellActionView, ShellEventView, ShellSetupView, ShellSnapshot, ShellType,
    UserShellCommandMode,
};
use vstd::prelude::*;

verus! {

/// A variable has the value of the first of its name, and none exactly where none has that name.
pub proof fn law_first_variable_of_a_name_counts(env: Seq<EnvVarView>, name: Seq<char>, i: int)
    ensures
        0 <= i < env.len() && env[i].name == name && (forall|j: int|
            0 <= j < i ==> (#[trigger] env[j]).name != name) ==> env_value(env, name) == Some(
            env[i].value,
        ) && env_has(env, name),
        (forall|j: int| 0 <= j < env.len() ==> (#[trigger] env[j]).name != name) ==> env_value(
            env,
            name,
        ) is None && !env_has(env, name),
    decreases env.len(),
{
    if env.len() > 0 && env[0].name != name {
        let rest = env.drop_first();
        law_first_variable_of_a_name_counts(rest, name, i - 1);
        if 0 <= i < env.len() && env[i].name == name && (forall|j: int|
            0 <= j < i ==> (#[trigger] env[j]).name != name) {
            assert(rest[i - 1] == env[i]);
            assert forall|j: int| 0 <= j < i - 1 implies (#[trigger] rest[j]).name != name by {
                assert(rest[j] == env[j + 1]);
            }
        }
        if forall|j: int| 0 <= j < env.len() ==> (#[trigger] env[j]).name != name {
            assert forall|j: int| 0 <= j < rest.len() implies (#[trigger] rest[j]).name != name by {
                assert(rest[j] == env[j + 1]);
            }
        }
    }
}

/// Where the session's proxy is active, a command runs without the variables that the proxy names,
/// and without a command for git over SSH that starts with the proxy's mark; every other variable
/// stays, in its order. Where it is not active, all stay.
pub proof fn law_proxy_variables_are_taken_out(
    env: Seq<EnvVarView>,
    active_name: Seq<char>,
    names: Seq<Seq<char>>,
    mark: Option<EnvVarView>,
)
    ensures
        (exists|i: int| 0 <= i < env.len() && (#[trigger] env[i]).name == active_name) ==> scrubbed(
            env,
            active_name,
            names,
            mark,
        ) == env.filter(
            |var: EnvVarView|
                !names.contains(var.name) && !(mark is Some && var.name == mark->0.name
                    && mark->0.value.len() <= var.value.len() && var.value.subrange(
                    0,
                    mark->0.value.len() as int,
                ) == mark->0.value),
        ),
        !(exists|i: int| 0 <= i < env.len() && (#[trigger] env[i]).name == active_name)
            ==> scrubbed(env, active_name, names, mark) == env,
{
    let keep = |var: EnvVarView| !is_proxy_var(var, names, mark);
    let wanted = |var: EnvVarView|
        !names.contains(var.name) && !(mark is Some && var.name == mark->0.name
            && mark->0.value.len() <= var.value.len() && var.value.subrange(
            0,
            mark->0.value.len() as int,
        ) == mark->0.value);
    lemma_filter_same(env, keep, wanted);
}

/// A command starts a turn of its own exactly where it is one. It is told of under the name that it
/// was given, on the turn that it belongs to, with the words that are shown and as a command of the
/// user.
pub proof fn law_command_is_told_of_as_given(
    setup: ShellSetupView,
    proxy: ProxyEnvView,
    startup: bool,
    raw_command: Seq<char>,
    mode: UserShellCommandMode,
    call_id: Seq<char>,
)
    ensures
        ({
            let start = starting(setup, proxy, startup, raw_command, mode, call_id);
            &&& mode == UserShellCommandMode::StandaloneTurn ==> start.turn_started == Some(
                ShellEventView::TurnStarted { turn_id: setup.turn_id },
            )
            &&& mode != UserShellCommandMode::StandaloneTurn ==> start.turn_started is None
            &&& start.call.call_id == call_id
            &&& start.call.turn_id == setup.turn_id
            &&& start.call.command == setup.display_command
            &&& start.call.parsed_command == setup.parsed_command
            &&& start.call.source == CommandExecutionSource::UserShell
            &&& start.env == scrubbed(
                setup.env,
                proxy.active_name,
                proxy.names,
                proxy.git_ssh_mark,
            )
        }),
{
}

/// A command is read as a `cd` only for the shells that read it so, with the home directory of the
/// command's own environment. It goes to the shell where it is no `cd` and where `CDPATH` may lead
/// elsewhere; a `cd` that cannot be carried out is refused with the reason, and one beside another
/// turn too; any other has its directory looked up.
pub proof fn law_which_directory_is_looked_up(
    setup: ShellSetupView,
    proxy: ProxyEnvView,
    startup: bool,
    raw_command: Seq<char>,
    mode: UserShellCommandMode,
    call_id: Seq<char>,
)
    ensures
        ({
            let start = starting(setup, proxy, startup, raw_command, mode, call_id);
            let reads_cd = setup.shell_type == ShellType::Bash || setup.shell_type
                == ShellType::Zsh || setup.shell_type == ShellType::Sh;
            let meaning = cd_meaning(
                raw_command,
                shell_words(raw_command),
                env_value(start.env, "HOME"@),
            );
            let cdpath = startup || (env_value(start.env, "CDPATH"@) is Some && env_value(
                start.env,
                "CDPATH"@,
            )->0.len() > 0);
            &&& !reads_cd ==> start.step == CdStepView::RunInShell
            &&& reads_cd && meaning is NotCd ==> start.step == CdStepView::RunInShell
            &&& reads_cd && meaning is Invalid ==> start.step is Finish && is_refusal(
                start.step->output,
                meaning->Invalid_0,
            )
            &&& reads_cd && meaning is ChangeTo && cdpath && is_plain_name(meaning->ChangeTo_0)
                ==> start.step == CdStepView::RunInShell
            &&& reads_cd && meaning is ChangeTo && !(cdpath && is_plain_name(meaning->ChangeTo_0))
                && mode == UserShellCommandMode::ActiveTurnAuxiliary
                ==> start.step is Finish && is_refusal(
                start.step->output,
                "cd: cannot change cwd while a turn is in progress"@,
            )
            &&& reads_cd && meaning is ChangeTo && !(cdpath && is_plain_name(meaning->ChangeTo_0))
                && mode == UserShellCommandMode::StandaloneTurn ==> start.step == (
            CdStepView::Resolve { target: meaning->ChangeTo_0 })
        }),
{
}

/// Whether a path starts with the name of an entry, so that `CDPATH` applies to it.
pub open spec fn is_plain_name(path: Seq<char>) -> bool {
    !(path.len() > 0 && path[0] == '/') && starts_with_name(path)
}

/// Whether an output says that a command was not carried out, and why.
pub open spec fn is_refusal(output: ExecOutputView, message: Seq<char>) -> bool {
    &&& output.exit_code == -1
    &&& output.stdout.len() == 0
    &&& output.stderr == message
    &&& output.aggregated_output == message
    &&& output.duration_nanos == 0
    &&& !output.timed_out
}

/// A message goes to the standard output where all went well, and else to the standard error; either
/// way it is the whole output. A refusal has the exit code minus one.
pub proof fn law_message_goes_to_the_stream_that_suits(exit_code: i32, message: Seq<char>)
    ensures
        ({
            let output = message_output(exit_code, message);
            &&& output.exit_code == exit_code
            &&& output.aggregated_output == message
            &&& exit_code == 0 ==> output.stdout == message && output.stderr.len() == 0
            &&& exit_code != 0 ==> output.stdout.len() == 0 && output.stderr == message
            &&& output.duration_nanos == 0
            &&& !output.timed_out
        }),
        is_refusal(refusal_output(message), message),
        status_of(exit_code) == ExecCommandStatus::Completed <==> exit_code == 0,
        status_of(exit_code) == ExecCommandStatus::Failed <==> exit_code != 0,
{
}

/// What a command leaves behind is its own output where it has ended, and else says that it was
/// cancelled or why it could not be run.
pub proof fn law_output_is_what_the_command_left(outcome: ExecOutcomeView)
    ensures
        match outcome {
            ExecOutcomeView::Cancelled => is_refusal(
                outcome_left(outcome),
                "command aborted by user"@,
            ),
            ExecOutcomeView::Finished(output) => outcome_left(outcome) == output,
            ExecOutcomeView::Failed(error) => is_refusal(
                outcome_left(outcome),
                "execution error: "@ + error,
            ),
        },
{
}

/// A command that has ended, or could not be run, is told of first and then kept; one that was
/// cancelled is kept first. The client is told the call, the directory, what was left behind, how
/// it is shown and whether it went well.
pub proof fn law_end_of_a_command_is_told_and_kept(
    call: CommandCallView,
    cwd: Seq<char>,
    raw_command: Seq<char>,
    outcome: ExecOutcomeView,
    formatted: Seq<char>,
)
    ensures
        ({
            let actions = ending(call, cwd, raw_command, outcome, formatted);
            let output = outcome_left(outcome);
            let kept = if outcome is Cancelled {
                0int
            } else {
                1int
            };
            &&& actions.len() == 2
            &&& actions[kept] == (ShellActionView::Persist { raw_command, output })
            &&& actions[1 - kept] == ShellActionView::Send(
                ShellEventView::ExecCommandEnd {
                    call,
                    cwd,
                    output,
                    formatted_output: if outcome is Cancelled {
                        "command aborted by user"@
                    } else {
                        formatted
                    },
                    status: if outcome is Finished && output.exit_code == 0 {
                        ExecCommandStatus::Completed
                    } else {
                        ExecCommandStatus::Failed
                    },
                },
            )
        }),
{
}

/// A `cd` is told of as a command that begins in the old directory and ends in the new one, and is
/// then kept.
pub proof fn law_end_of_a_cd_is_told_and_kept(
    call: CommandCallView,
    turn_cwd: Seq<char>,
    raw_command: Seq<char>,
    cwd: Seq<char>,
    output: ExecOutputView,
    formatted_output: Seq<char>,
)
    ensures
        ({
            let actions = cd_ending(call, turn_cwd, raw_command, cwd, output, formatted_output);
            &&& actions.len() == 3
            &&& actions[0] == ShellActionView::Send(
                ShellEventView::ExecCommandBegin { call, cwd: turn_cwd },
            )
            &&& actions[1] == ShellActionView::Send(
                ShellEventView::ExecCommandEnd {
                    call,
                    cwd,
                    output,
                    formatted_output,
                    status: if output.exit_code == 0 {
                        ExecCommandStatus::Completed
                    } else {
                        ExecCommandStatus::Failed
                    },
                },
            )
            &&& actions[2] == (ShellActionView::Persist { raw_command, output })
        }),
{
}

/// The lines of a text are what stands between its line ends: a line end starts an empty line, and
/// any other character goes to the end of the last line.
pub proof fn law_lines_are_told_apart(text: Seq<char>, c: char)
    ensures
        lines(Seq::empty()) == seq![Seq::<char>::empty()],
        lines(text).len() > 0,
        lines(text.push('\n')) == lines(text).push(Seq::empty()),
        c != '\n' ==> lines(text.push(c)).len() == lines(text).len() && lines(
            text.push(c),
        ).drop_last() == lines(text).drop_last() && lines(text.push(c)).last() == lines(
            text,
        ).last().push(c),
    decreases text.len(),
{
    if text.len() > 0 {
        law_lines_are_told_apart(text.drop_last(), text.last());
        assert(text.drop_last().push(text.last()) =~= text);
    }
    assert(text.push('\n').drop_last() =~= text);
    assert(text.push(c).drop_last() =~= text);
    if c != '\n' {
        let before = lines(text);
        let next = lines(text.push(c));
        assert(next == before.drop_last().push(before.last().push(c)));
        assert(next.drop_last() =~= before.drop_last());
    }
}

/// A start-up script sets `CDPATH` where some line below a heading for exports exports it, in one
/// of the three ways that shells write it. One that cannot be read may set anything, and where
/// there is none, nothing is set.
pub proof fn law_when_a_startup_sets_cdpath(
    snapshot: ShellSnapshot,
    line: Seq<char>,
    all: Seq<Seq<char>>,
    i: int,
    j: int,
)
    ensures
        snapshot is Absent ==> !startup_sets_cdpath(snapshot),
        snapshot is Unreadable ==> startup_sets_cdpath(snapshot),
        snapshot matches ShellSnapshot::Contents(contents) ==> startup_sets_cdpath(snapshot)
            == exports_below_heading(lines(contents@)),
        0 <= i < j < all.len() && is_exports_heading(all[i]) && exports_cdpath(all[j])
            ==> exports_below_heading(all),
        (forall|a: int, b: int|
            0 <= a < b < all.len() ==> !(is_exports_heading(#[trigger] all[a]) && exports_cdpath(
                #[trigger] all[b],
            ))) ==> !exports_below_heading(all),
        is_exports_heading(line) <==> "# exports "@.is_prefix_of(trimmed_start(line)),
        exports_cdpath(line) <==> "export CDPATH="@.is_prefix_of(trimmed_start(line))
            || "declare -x CDPATH="@.is_prefix_of(trimmed_start(line))
            || "typeset -x CDPATH="@.is_prefix_of(trimmed_start(line)),
{
}

/// `CDPATH` can lead a `cd` elsewhere only where its argument is not absolute and starts with the
/// name of an entry.
pub proof fn law_when_cdpath_applies(target: Seq<char>, shell_type: ShellType)
    ensures
        cdpath_applies(target) <==> is_plain_name(target),
        is_posix_shell(shell_type) <==> shell_type == ShellType::Bash || shell_type
            == ShellType::Zsh || shell_type == ShellType::Sh,
{
}

} // verus!
