use agent_threads::background_terminal_wakeup::{
    completion_prompt, output_preview, BackgroundTerminalCompletion, OUTPUT_PREVIEW_CHAR_LIMIT,
};
use agent_threads::protocol::CommandExecutionStatus;

#[test]
fn completion_prompt_includes_command_status_exit_and_output() {
    let prompt = completion_prompt(BackgroundTerminalCompletion {
        command_display: "cargo test -p codex-tui",
        status: CommandExecutionStatus::Completed,
        exit_code: Some(0),
        output: "ok\n",
    });

    assert!(prompt.contains("Command: cargo test -p codex-tui"));
    assert!(prompt.contains("Status: completed"));
    assert!(prompt.contains("Exit code: 0"));
    assert!(prompt.contains("Output:\nok"));
}

#[test]
fn output_preview_limits_long_output() {
    let output = "a".repeat(OUTPUT_PREVIEW_CHAR_LIMIT + 10);
    let preview = output_preview(&output);

    assert!(preview.contains("... 10 chars omitted ..."));
    assert_eq!(preview.chars().filter(|ch| *ch == 'a').count(), OUTPUT_PREVIEW_CHAR_LIMIT);
}

#[test]
fn completion_prompt_is_exact() {
    let prompt = completion_prompt(BackgroundTerminalCompletion {
        command_display: "make",
        status: CommandExecutionStatus::Declined,
        exit_code: None,
        output: " \n",
    });
    assert_eq!(
        prompt,
        "Background terminal completed.\n\nCommand: make\nStatus: declined\nExit code: unknown\n\nOutput:\n(no output captured)\n\nContinue from this result. If it failed, diagnose the failure before starting another long-running command."
    );
}

#[test]
fn negative_exit_code_is_shown() {
    let prompt = completion_prompt(BackgroundTerminalCompletion {
        command_display: "make",
        status: CommandExecutionStatus::InProgress,
        exit_code: Some(i32::MIN),
        output: "x",
    });
    assert!(prompt.contains("Status: in progress\nExit code: -2147483648\n"));
}

#[test]
fn output_preview_keeps_both_ends() {
    let output = format!("{}{}{}", "a".repeat(3000), "b".repeat(7), "c".repeat(3000));
    let preview = output_preview(&output);
    assert_eq!(
        preview,
        format!("{}\n\n... 7 chars omitted ...\n\n{}", "a".repeat(3000), "c".repeat(2999))
    );
    let short = "x".repeat(OUTPUT_PREVIEW_CHAR_LIMIT);
    assert_eq!(output_preview(&short), short);
}

#[test]
fn output_preview_trims_all_white_space() {
    assert_eq!(output_preview("\u{3000}\u{a0}\t ok \u{2028}\u{85}\r\n"), "ok");
    assert_eq!(output_preview("\u{200b}x"), "\u{200b}x");
}
