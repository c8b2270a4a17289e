use agent_threads::user_shell::{
    after_injection, begin_user_shell_command, cd_resolved, cd_step_for, cd_updated,
    cdpath_can_affect, cdpath_may_affect, execute_user_shell_command, finish_user_shell_command,
    handle_cd_command, outcome_output, persist_user_shell_output, run_user_shell_command,
    scrub_proxy_env, send_cd_end, shell_home, shell_snapshot_exports_cdpath,
    snapshot_text_exports_cdpath, CdEnd, CdLookup, CdStep, CdUpdate, CommandCall, EnvVar,
    ExecCapturePolicy, ExecCommandStatus, ExecOutcome, ExecOutput, ExecRequest, PermissionProfile,
    PersistAction, ProxyEnv, ShellAction, ShellEvent, ShellRun, ShellSetup, ShellSnapshot, ShellType, UserShellCommandMode,
    UserShellCommandTask, USER_SHELL_TIMEOUT_MS,
};
use agent_threads::cd::ShellCd;
use agent_threads::collections::Duplicate;
use agent_threads::protocol::CommandExecutionSource;

const STANDALONE: UserShellCommandMode = UserShellCommandMode::StandaloneTurn;
const AUXILIARY: UserShellCommandMode = UserShellCommandMode::ActiveTurnAuxiliary;

fn var(name: &str, value: &str) -> EnvVar {
    EnvVar { name: name.to_string(), value: value.to_string() }
}

fn texts(texts: &[&str]) -> Vec<String> {
    texts.iter().map(|text| text.to_string()).collect()
}

fn call() -> CommandCall {
    CommandCall {
        call_id: "call".to_string(),
        turn_id: "turn".to_string(),
        command: texts(&["bash", "-lc", "ls"]),
        parsed_command: texts(&["ls"]),
        source: CommandExecutionSource::UserShell,
    }
}

fn output(exit_code: i32, stdout: &str, stderr: &str) -> ExecOutput {
    ExecOutput {
        exit_code,
        stdout: stdout.to_string(),
        stderr: stderr.to_string(),
        aggregated_output: format!("{stdout}{stderr}"),
        duration_nanos: 0,
        timed_out: false,
    }
}

fn proxy() -> ProxyEnv {
    ProxyEnv {
        active_name: "PROXY_ACTIVE".to_string(),
        names: texts(&["PROXY_ACTIVE", "HTTP_PROXY"]),
        git_ssh_mark: Some(var("GIT_SSH_COMMAND", "PROXY=1 ")),
    }
}

fn setup(shell_type: ShellType, env: Vec<EnvVar>) -> ShellSetup {
    ShellSetup {
        turn_id: "turn".to_string(),
        shell_type,
        display_command: texts(&["bash", "-lc", "ls"]),
        parsed_command: texts(&["ls"]),
        env,
    }
}

#[test]
fn task_runs_as_a_turn_of_its_own() {
    let task = UserShellCommandTask::new("ls".to_string());
    assert_eq!(task.command, "ls");
    assert_eq!(task.mode(), STANDALONE);
    assert_eq!(
        begin_user_shell_command("turn", task.mode()),
        Some(ShellEvent::TurnStarted { turn_id: "turn".to_string() })
    );
    assert_eq!(begin_user_shell_command("turn", AUXILIARY), None);
}

#[test]
fn proxy_leaves_the_environment() {
    let scrubbed = |mut env: Vec<EnvVar>| {
        let proxy = proxy();
        scrub_proxy_env(&mut env, &proxy.active_name, &proxy.names, &proxy.git_ssh_mark);
        env
    };
    assert_eq!(
        scrubbed(vec![
            var("A", "1"),
            var("HTTP_PROXY", "http://localhost"),
            var("PROXY_ACTIVE", "1"),
            var("GIT_SSH_COMMAND", "PROXY=1 ssh"),
            var("B", "2"),
        ]),
        vec![var("A", "1"), var("B", "2")]
    );
    assert_eq!(
        scrubbed(vec![var("PROXY_ACTIVE", ""), var("GIT_SSH_COMMAND", "ssh -i key")]),
        vec![var("GIT_SSH_COMMAND", "ssh -i key")]
    );
    assert_eq!(
        scrubbed(vec![var("HTTP_PROXY", "http://proxy")]),
        vec![var("HTTP_PROXY", "http://proxy")]
    );
}

#[test]
fn home_and_cdpath_come_from_the_environment() {
    let env = vec![var("HOME", "/home/user"), var("CDPATH", "")];
    assert_eq!(shell_home(&env), Some("/home/user".to_string()));
    assert_eq!(shell_home(&Vec::new()), None);
    assert!(!cdpath_may_affect(&env, false));
    assert!(cdpath_may_affect(&env, true));
    assert!(cdpath_may_affect(&vec![var("CDPATH", "/src")], false));
}

#[test]
fn cdpath_is_for_names() {
    assert!(cdpath_can_affect("child"));
    assert!(cdpath_can_affect(".hidden"));
    assert!(!cdpath_can_affect("./child"));
    assert!(!cdpath_can_affect("../child"));
    assert!(!cdpath_can_affect("."));
    assert!(!cdpath_can_affect(".."));
    assert!(!cdpath_can_affect("/abs"));
    assert!(!cdpath_can_affect(""));
}

#[test]
fn exports_of_a_snapshot_stand_below_their_heading() {
    assert!(snapshot_text_exports_cdpath("# exports 2\nexport A=1\nexport CDPATH=/x\n"));
    assert!(snapshot_text_exports_cdpath("a\n  # exports \n\tdeclare -x CDPATH=\"/x\""));
    assert!(snapshot_text_exports_cdpath("# exports 1\r\ntypeset -x CDPATH=/x\r\n"));
    assert!(!snapshot_text_exports_cdpath("export CDPATH=/x\n# exports 1\n"));
    assert!(!snapshot_text_exports_cdpath("# exports 1 export CDPATH=/x\n"));
    assert!(!snapshot_text_exports_cdpath("# exports\nexport CDPATH=/x\n"));
    assert!(!snapshot_text_exports_cdpath("# exports 1\nexport CDPATHS=/x\n"));
    assert!(!snapshot_text_exports_cdpath(""));
    assert!(!shell_snapshot_exports_cdpath(&ShellSnapshot::Absent));
    assert!(shell_snapshot_exports_cdpath(&ShellSnapshot::Unreadable));
    assert!(shell_snapshot_exports_cdpath(&ShellSnapshot::Contents(
        "# exports 1\nexport CDPATH=/x".to_string()
    )));
}

#[test]
fn command_goes_to_the_shell_without_the_proxy() {
    let env = vec![var("PROXY_ACTIVE", "1"), var("A", "1")];
    let start = execute_user_shell_command(
        setup(ShellType::Bash, env),
        &proxy(),
        &ShellSnapshot::Absent,
        "ls | wc",
        STANDALONE,
    );
    assert_eq!(
        start.turn_started,
        Some(ShellEvent::TurnStarted { turn_id: "turn".to_string() })
    );
    assert_eq!(start.env, vec![var("A", "1")]);
    assert_eq!(start.step, CdStep::RunInShell);
    assert_eq!(start.call.turn_id, "turn");
    assert_eq!(start.call.command, texts(&["bash", "-lc", "ls"]));
    assert_eq!(start.call.parsed_command, texts(&["ls"]));
    assert_eq!(start.call.source, CommandExecutionSource::UserShell);
    assert_eq!(start.call.call_id.len(), 36);

    assert_eq!(
        run_user_shell_command(call(), "/work".to_string(), texts(&["sh"]), start.env),
        ShellRun {
            begin: ShellEvent::ExecCommandBegin { call: call(), cwd: "/work".to_string() },
            request: ExecRequest {
                command: texts(&["sh"]),
                cwd: "/work".to_string(),
                env: vec![var("A", "1")],
                expiration_ms: USER_SHELL_TIMEOUT_MS,
                capture_policy: ExecCapturePolicy::ShellTool,
                permission_profile: PermissionProfile::Disabled,
                sandboxed: false,
                managed_network: false,
            },
        }
    );
    assert_eq!(USER_SHELL_TIMEOUT_MS, 60 * 60 * 1000);
}

#[test]
fn plain_cd_is_not_run() {
    let env = || vec![var("HOME", "/home/user")];
    let step = |shell_type, snapshot: &ShellSnapshot, command: &str, mode| {
        execute_user_shell_command(setup(shell_type, env()), &proxy(), snapshot, command, mode).step
    };
    let absent = &ShellSnapshot::Absent;
    let resolve = |target: &str| CdStep::Resolve { target: target.to_string() };
    assert_eq!(step(ShellType::Bash, absent, "cd", STANDALONE), resolve("/home/user"));
    assert_eq!(step(ShellType::Zsh, absent, "cd child", STANDALONE), resolve("child"));
    assert_eq!(step(ShellType::Sh, absent, "cd ~/x", STANDALONE), resolve("/home/user/x"));
    assert_eq!(step(ShellType::PowerShell, absent, "cd child", STANDALONE), CdStep::RunInShell);
    assert_eq!(step(ShellType::Cmd, absent, "cd child", STANDALONE), CdStep::RunInShell);
    let unreadable = &ShellSnapshot::Unreadable;
    assert_eq!(step(ShellType::Bash, unreadable, "cd child", STANDALONE), CdStep::RunInShell);
    assert_eq!(step(ShellType::Bash, unreadable, "cd ./child", STANDALONE), resolve("./child"));
    assert_eq!(
        step(ShellType::Bash, absent, "cd child", AUXILIARY),
        CdStep::Finish {
            output: output(-1, "", "cd: cannot change cwd while a turn is in progress"),
        }
    );
    assert_eq!(
        step(ShellType::Bash, absent, "cd 'child", AUXILIARY),
        CdStep::Finish { output: output(-1, "", "cd: could not parse quoted path") }
    );
    assert_eq!(step(ShellType::Bash, absent, "cd a && ls", AUXILIARY), CdStep::RunInShell);
    assert_eq!(
        handle_cd_command(ShellType::Bash, "cd", None, false, STANDALONE),
        CdStep::Finish { output: output(-1, "", "cd: HOME is not set") }
    );
    assert_eq!(
        cd_step_for(ShellCd::ChangeTo("child".to_string()), true, AUXILIARY),
        CdStep::RunInShell
    );
}

#[test]
fn directory_is_taken_over_or_refused() {
    assert_eq!(
        cd_resolved(CdLookup::Failed { message: "cd: not a directory: /f".to_string() }),
        CdUpdate::Finish { output: output(-1, "", "cd: not a directory: /f") }
    );
    assert_eq!(
        cd_resolved(CdLookup::NotAbsolute { error: "odd".to_string() }),
        CdUpdate::Finish { output: output(-1, "", "cd: resolved path is not absolute: odd") }
    );
    assert_eq!(
        cd_resolved(CdLookup::Found { path: "/new".to_string() }),
        CdUpdate::UpdateSettings { cwd: "/new".to_string() }
    );
    assert_eq!(
        cd_updated("/new".to_string(), "/old".to_string(), None),
        CdEnd {
            cwd: "/new".to_string(),
            turn_context_cwd: Some("/new".to_string()),
            output: output(0, "cwd: /new", ""),
        }
    );
    assert_eq!(
        cd_updated("/new".to_string(), "/old".to_string(), Some("no".to_string())),
        CdEnd {
            cwd: "/old".to_string(),
            turn_context_cwd: None,
            output: output(-1, "", "cd: failed to update cwd: no"),
        }
    );
}

#[test]
fn cd_is_shown_as_a_command() {
    let end = |left: ExecOutput, status| {
        let actions = send_cd_end(
            call(),
            "/old".to_string(),
            "cd new".to_string(),
            "/new".to_string(),
            left.duplicate(),
            "shown".to_string(),
        );
        assert_eq!(
            actions,
            vec![
                ShellAction::Send(ShellEvent::ExecCommandBegin {
                    call: call(),
                    cwd: "/old".to_string(),
                }),
                ShellAction::Send(ShellEvent::ExecCommandEnd {
                    call: call(),
                    cwd: "/new".to_string(),
                    output: left.duplicate(),
                    formatted_output: "shown".to_string(),
                    status,
                }),
                ShellAction::Persist { raw_command: "cd new".to_string(), output: left },
            ]
        );
    };
    end(output(0, "cwd: /new", ""), ExecCommandStatus::Completed);
    end(output(-1, "", "cd: no"), ExecCommandStatus::Failed);
}

#[test]
fn command_ends_once() {
    let end = |outcome: ExecOutcome| {
        finish_user_shell_command(
            call(),
            "/work".to_string(),
            "ls".to_string(),
            outcome,
            "shown".to_string(),
        )
    };
    let sent = |left: ExecOutput, shown: &str, status| {
        ShellAction::Send(ShellEvent::ExecCommandEnd {
            call: call(),
            cwd: "/work".to_string(),
            output: left,
            formatted_output: shown.to_string(),
            status,
        })
    };
    let kept = |left: ExecOutput| ShellAction::Persist {
        raw_command: "ls".to_string(),
        output: left,
    };
    let aborted = || output(-1, "", "command aborted by user");
    assert_eq!(
        end(ExecOutcome::Cancelled),
        vec![
            kept(aborted()),
            sent(aborted(), "command aborted by user", ExecCommandStatus::Failed),
        ]
    );
    let failed = || output(-1, "", "execution error: no shell");
    assert_eq!(
        end(ExecOutcome::Failed("no shell".to_string())),
        vec![sent(failed(), "shown", ExecCommandStatus::Failed), kept(failed())]
    );
    for (code, status) in [(0, ExecCommandStatus::Completed), (2, ExecCommandStatus::Failed)] {
        let left = || ExecOutput { duration_nanos: 5_000_001, timed_out: true, ..output(code, "out", "err") };
        assert_eq!(outcome_output(&ExecOutcome::Finished(left())), left());
        assert_eq!(
            end(ExecOutcome::Finished(left())),
            vec![sent(left(), "shown", status), kept(left())]
        );
    }
}

#[test]
fn output_becomes_part_of_the_conversation() {
    assert_eq!(
        persist_user_shell_output(STANDALONE),
        vec![PersistAction::RecordConversationItems, PersistAction::EnsureRolloutMaterialized]
    );
    assert_eq!(
        persist_user_shell_output(AUXILIARY),
        vec![PersistAction::InjectResponseItems]
    );
    assert_eq!(after_injection(false), vec![PersistAction::RecordConversationItems]);
    assert!(after_injection(true).is_empty());
}
