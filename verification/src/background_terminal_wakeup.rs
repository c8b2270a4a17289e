//! The prompt that tells the agent of a background terminal that has ended.
use crate::protocol::CommandExecutionStatus;
use crate::text::{decimal, decimal_text, signed_decimal, signed_decimal_text, trim, trimmed};
use vstd::prelude::*;
use vstd::string::{StrSliceExecFns, StringExecFns};

verus! {

/// How many characters of a terminal's output a prompt shows at most.
pub const OUTPUT_PREVIEW_CHAR_LIMIT: usize = 6000;

/// A background terminal that has ended.
#[derive(Debug, Clone, Copy, PartialEq, Eq)]
pub struct BackgroundTerminalCompletion<'a> {
    pub command_display: &'a str,
    pub status: CommandExecutionStatus,
    pub exit_code: Option<i32>,
    pub output: &'a str,
}

/// The word for a status.
pub open spec fn status_word(status: CommandExecutionStatus) -> Seq<char> {
    match status {
        CommandExecutionStatus::InProgress => "in progress"@,
        CommandExecutionStatus::Completed => "completed"@,
        CommandExecutionStatus::Failed => "failed"@,
        CommandExecutionStatus::Declined => "declined"@,
    }
}

/// The text for an exit code.
pub open spec fn exit_code_word(exit_code: Option<i32>) -> Seq<char> {
    match exit_code {
        Some(code) => signed_decimal(code as int),
        None => "unknown"@,
    }
}

/// What a prompt shows of an output: all of it where it is within the limit, else its two ends
/// around a notice of how many characters it has beyond the limit. The notice counts as one
/// character of the limit, which the second end is shorter by.
pub open spec fn previewed(output: Seq<char>) -> Seq<char> {
    let shown = trimmed(output);
    let limit = OUTPUT_PREVIEW_CHAR_LIMIT as int;
    if shown.len() == 0 {
        "(no output captured)"@
    } else if shown.len() <= limit {
        shown
    } else {
        shown.take(limit / 2) + "\n\n... "@ + decimal((shown.len() - limit) as nat)
            + " chars omitted ...\n\n"@ + shown.skip(shown.len() - (limit - limit / 2 - 1))
    }
}

/// The prompt for a terminal that has ended.
pub open spec fn prompt_text(
    command_display: Seq<char>,
    status: CommandExecutionStatus,
    exit_code: Option<i32>,
    output: Seq<char>,
) -> Seq<char> {
    "Background terminal completed.\n\nCommand: "@ + command_display + "\nStatus: "@ + status_word(
        status,
    ) + "\nExit code: "@ + exit_code_word(exit_code) + "\n\nOutput:\n"@ + previewed(output)
        + "\n\nContinue from this result. If it failed, diagnose the failure before starting another long-running command."@
}

/// The word for a status.
pub fn status_label(status: CommandExecutionStatus) -> (label: &'static str)
    ensures
        label@ == status_word(status),
{
    match status {
        CommandExecutionStatus::InProgress => "in progress",
        CommandExecutionStatus::Completed => "completed",
        CommandExecutionStatus::Failed => "failed",
        CommandExecutionStatus::Declined => "declined",
    }
}

/// What a prompt shows of `output`.
pub fn output_preview(output: &str) -> (preview: String)
    ensures
        preview@ == previewed(output@),
{
    let output = trim(output);
    let count: usize = output.unicode_len();
    if count == 0 {
        return "(no output captured)".to_owned();
    }
    if count <= OUTPUT_PREVIEW_CHAR_LIMIT {
        return output.to_owned();
    }
    let head_count: usize = OUTPUT_PREVIEW_CHAR_LIMIT / 2;
    let tail_count: usize = OUTPUT_PREVIEW_CHAR_LIMIT - head_count - 1;
    let head = output.substring_char(0, head_count);
    let tail = output.substring_char(count - tail_count, count);
    let omitted = decimal_text((count - OUTPUT_PREVIEW_CHAR_LIMIT) as u64);
    assert(head@ == output@.take(head_count as int));
    assert(tail@ == output@.skip(count - tail_count));
    head.to_owned().concat("\n\n... ").concat(omitted.as_str()).concat(
        " chars omitted ...\n\n",
    ).concat(tail)
}

/// The prompt for a terminal that has ended.
pub fn completion_prompt(completion: BackgroundTerminalCompletion<'_>) -> (prompt: String)
    ensures
        prompt@ == prompt_text(
            completion.command_display@,
            completion.status,
            completion.exit_code,
            completion.output@,
        ),
{
    let exit_code = match completion.exit_code {
        Some(code) => signed_decimal_text(code),
        None => "unknown".to_owned(),
    };
    let preview = output_preview(completion.output);
    "Background terminal completed.\n\nCommand: ".to_owned().concat(
        completion.command_display,
    ).concat("\nStatus: ").concat(status_label(completion.status)).concat("\nExit code: ").concat(
        exit_code.as_str(),
    ).concat("\n\nOutput:\n").concat(preview.as_str()).concat(
        "\n\nContinue from this result. If it failed, diagnose the failure before starting another long-running command.",
    )
}

/// A preview holds every character of an output that fits. Where one does not fit, the preview
/// has the first characters at its start and the last ones at its end, and together with the
/// notice, counted as one, they are as many as the limit allows.
pub proof fn law_preview_keeps_both_ends(output: Seq<char>)
    requires
        trimmed(output).len() > 0,
    ensures
        trimmed(output).len() <= OUTPUT_PREVIEW_CHAR_LIMIT ==> previewed(output) == trimmed(output),
        trimmed(output).len() > OUTPUT_PREVIEW_CHAR_LIMIT ==> {
            let shown = trimmed(output);
            let preview = previewed(output);
            let head = OUTPUT_PREVIEW_CHAR_LIMIT / 2;
            let tail = OUTPUT_PREVIEW_CHAR_LIMIT - 1 - head;
            &&& shown.take(head as int).is_prefix_of(preview)
            &&& shown.skip(shown.len() - tail).is_suffix_of(preview)
            &&& head + 1 + tail == OUTPUT_PREVIEW_CHAR_LIMIT
        },
{
    let shown = trimmed(output);
    if shown.len() > OUTPUT_PREVIEW_CHAR_LIMIT {
        let preview = previewed(output);
        let tail = shown.skip(shown.len() - 2999);
        assert(preview.subrange(0, 3000) =~= shown.take(3000));
        assert(preview.subrange(preview.len() - 2999, preview.len() as int) =~= tail);
    }
}

} // verus!
