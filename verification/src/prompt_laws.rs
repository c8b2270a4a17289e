//! What the prompts say that wake an agent up.
use crate::background_terminal_wakeup::{
    exit_code_word, previewed, prompt_text, status_word, OUTPUT_PREVIEW_CHAR_LIMIT,
};
use crate::protocol::{
    AppCommandView, CommandExecutionStatus, ThreadSessionStateView, UserInputView,
};
use crate::text::{decimal, trimmed};
use crate::text_laws::{
    all_digits, law_decimal_reads_back, law_signed_decimal_reads_back, read_decimal, read_signed,
};
use crate::thread_id::{id_text, ThreadId};
use crate::wakeups::{subagent_prompt, wakeup_turn};
use vstd::prelude::*;

verus! {

/// A prompt about a terminal says which command ran, how it ended, with which exit code and what
/// it put out, each behind its heading and in this order. The exit code reads back as the number
/// that it is, sign included, so that no two codes are told alike.
pub proof fn law_prompt_tells_how_a_terminal_ended(
    command: Seq<char>,
    status: CommandExecutionStatus,
    exit_code: Option<i32>,
    output: Seq<char>,
)
    ensures
        exists|word: Seq<char>, code: Seq<char>|
            {
                &&& prompt_text(command, status, exit_code, output)
                    == "Background terminal completed.\n\nCommand: "@ + command + "\nStatus: "@
                    + word + "\nExit code: "@ + code + "\n\nOutput:\n"@ + previewed(output)
                    + "\n\nContinue from this result. If it failed, diagnose the failure before starting another long-running command."@
                &&& #[trigger] says_status(word, status)
                &&& #[trigger] says_code(code, exit_code)
            },
{
    let word = status_word(status);
    let code = exit_code_word(exit_code);
    if let Some(number) = exit_code {
        law_signed_decimal_reads_back(number as int);
    }
    assert(says_status(word, status));
    assert(says_code(code, exit_code));
}

/// Whether a word tells how far a command has come.
pub open spec fn says_status(word: Seq<char>, status: CommandExecutionStatus) -> bool {
    &&& status == CommandExecutionStatus::InProgress ==> word == "in progress"@
    &&& status == CommandExecutionStatus::Completed ==> word == "completed"@
    &&& status == CommandExecutionStatus::Failed ==> word == "failed"@
    &&& status == CommandExecutionStatus::Declined ==> word == "declined"@
}

/// Whether a text tells an exit code: the text reads as the very number, or says that it is
/// unknown.
pub open spec fn says_code(text: Seq<char>, exit_code: Option<i32>) -> bool {
    match exit_code {
        Some(code) => {
            &&& read_signed(text) == code
            &&& code >= 0 ==> all_digits(text)
            &&& code < 0 ==> text.len() > 0 && text[0] == '-' && all_digits(text.skip(1))
            &&& code > 0 ==> text[0] != '0'
            &&& code < 0 ==> text[1] != '0'
            &&& code == 0 ==> text.len() == 1
        },
        None => text == "unknown"@,
    }
}

/// Every exit code reads back from the text that stands for it.
pub proof fn law_exit_code_reads_back(code: i32)
    ensures
        read_signed(exit_code_word(Some(code))) == code,
        exit_code_word(None) == "unknown"@,
        exit_code_word(Some(code)) != "unknown"@,
{
    law_signed_decimal_reads_back(code as int);
    reveal_strlit("unknown");
    let text = exit_code_word(Some(code));
    assert(text[0] == '-' || '0' <= text[0] <= '9');
}

/// Output that is too long is shown as its first and its last characters, around a notice of how
/// many there are beyond the limit, which reads back as that number. No output is said to be
/// none. Any other is shown as it is, without the white space around it.
pub proof fn law_preview_says_what_is_left_out(output: Seq<char>)
    ensures
        OUTPUT_PREVIEW_CHAR_LIMIT == 6000,
        trimmed(output).len() == 0 ==> previewed(output) == "(no output captured)"@,
        0 < trimmed(output).len() <= 6000 ==> previewed(output) == trimmed(output),
        trimmed(output).len() > 6000 ==> exists|number: Seq<char>|
            {
                &&& #[trigger] all_digits(number)
                &&& read_decimal(number) == trimmed(output).len() - 6000
                &&& previewed(output) == trimmed(output).subrange(0, 3000) + "\n\n... "@ + number
                    + " chars omitted ...\n\n"@ + trimmed(output).subrange(
                    trimmed(output).len() - 2999,
                    trimmed(output).len() as int,
                )
            },
{
    let shown = trimmed(output);
    if shown.len() > 6000 {
        let number = decimal((shown.len() - 6000) as nat);
        law_decimal_reads_back((shown.len() - 6000) as nat);
        assert(shown.take(3000) =~= shown.subrange(0, 3000));
        assert(shown.skip(shown.len() - 2999) =~= shown.subrange(
            shown.len() - 2999,
            shown.len() as int,
        ));
        assert(all_digits(number));
    }
}

/// A prompt about a subagent says what it is called and which thread it had.
pub proof fn law_prompt_tells_which_subagent_ended(label: Seq<char>, thread_id: ThreadId)
    ensures
        subagent_prompt(label, thread_id) == "Subagent completed.\n\nAgent: "@ + label
            + "\nThread: "@ + id_text(thread_id)
            + "\n\nContinue from this subagent result. Inspect the subagent transcript if needed before taking further action."@,
{
}

/// A prompt is submitted as a turn of its own, with the prompt as the one thing that is said and
/// with every setting as the session has it.
pub proof fn law_wakeup_runs_under_the_session(session: ThreadSessionStateView, text: Seq<char>)
    ensures
        wakeup_turn(session, text) matches AppCommandView::UserTurn(turn) && {
            &&& turn.items.len() == 1
            &&& turn.items[0] == (UserInputView::Text { text })
            &&& turn.cwd == session.cwd
            &&& turn.model == session.model
            &&& turn.effort == session.reasoning_effort
            &&& turn.approval_policy == session.approval_policy
            &&& turn.approvals_reviewer == Some(session.approvals_reviewer)
            &&& turn.permission_profile == session.permission_profile
            &&& session.service_tier is Some ==> turn.service_tier == Some(session.service_tier)
            &&& session.service_tier is None ==> turn.service_tier is None
            &&& turn.summary is None
            &&& turn.final_output_json_schema is None
            &&& turn.collaboration_mode is None
            &&& turn.personality is None
        },
{
}

} // verus!
