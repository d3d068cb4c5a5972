//! What a program that was run has left behind.

use crate::failure::Failure;
use crate::text::bytes::{text_from_utf8, utf8_lossy};
use crate::text::lines::{lines, split_lines};
use crate::text::space::{trim, trimmed, views};
use vstd::prelude::*;

verus! {

/// What a program left behind when it ended.
#[derive(Debug, Clone)]
pub struct CommandOutput {
    pub success: bool,
    /// How the program ended, as messages show it.
    pub status: String,
    pub stdout: Vec<u8>,
    pub stderr: Vec<u8>,
}

/// What became of a program that was to be run.
#[derive(Debug, Clone)]
pub enum CommandOutcome {
    /// It could not be run, for this reason.
    Failed(String),
    /// It ran to its end.
    Finished(CommandOutput),
}

/// The arguments by which a program is asked for help.
pub fn help_args() -> (args: Vec<String>)
    ensures
        views(args@) == seq!["--help"@],
{
    let args: Vec<String> = vec!["--help".to_string()];
    proof {
        assert(views(args@) =~= seq!["--help"@]);
    }
    args
}

/// The text of an output, without white space at either end.
pub open spec fn output_text(bytes: Seq<u8>) -> Seq<char> {
    trim(utf8_lossy(bytes))
}

/// What a program that failed has to say: its error output, else its output, else how it ended.
pub open spec fn output_detail(output: CommandOutput) -> Seq<char> {
    if output_text(output.stderr@).len() > 0 {
        output_text(output.stderr@)
    } else if output_text(output.stdout@).len() > 0 {
        output_text(output.stdout@)
    } else {
        output.status@
    }
}

/// Whether a program ran to its end with success.
pub open spec fn succeeded(outcome: CommandOutcome) -> bool {
    outcome matches CommandOutcome::Finished(output) && output.success
}

/// The text of an output, without white space at either end.
pub fn shown_output(bytes: &[u8]) -> (text: String)
    ensures
        text@ == output_text(bytes@),
{
    let text = text_from_utf8(bytes);
    trimmed(text.as_str())
}

/// What a program that failed has to say.
pub fn command_output_detail(output: &CommandOutput) -> (detail: String)
    ensures
        detail@ == output_detail(*output),
{
    let stderr = shown_output(&output.stderr);
    let stdout = shown_output(&output.stdout);
    if !stderr.as_str().is_empty() {
        stderr
    } else if !stdout.as_str().is_empty() {
        stdout
    } else {
        output.status.clone()
    }
}

/// What a program that failed has to say, after a prefix.
pub fn command_failure_detail(prefix: &str, output: &CommandOutput) -> (detail: String)
    ensures
        detail@ == prefix@ + ": "@ + output_detail(*output),
{
    prefix.to_string().concat(": ").concat(command_output_detail(output).as_str())
}

/// Whether a program ran to its end with success.
pub fn command_succeeded(outcome: &CommandOutcome) -> (r: bool)
    ensures
        r == succeeded(*outcome),
{
    match outcome {
        CommandOutcome::Finished(output) => output.success,
        CommandOutcome::Failed(_) => false,
    }
}

/// The failure of a program that had to succeed.
pub open spec fn run_failure(context: Seq<char>, outcome: CommandOutcome) -> Option<Seq<Seq<char>>> {
    match outcome {
        CommandOutcome::Failed(reason) => Some(seq![context, reason@]),
        CommandOutcome::Finished(output) => if output.success {
            None
        } else {
            Some(seq![context + "; command exited with "@ + output.status@])
        },
    }
}

/// What became of a program that had to succeed; `context` says what it was for.
pub fn run_command(context: &str, outcome: &CommandOutcome) -> (result: Result<(), Failure>)
    ensures
        match result {
            Ok(_) => run_failure(context@, *outcome) is None,
            Err(failure) => run_failure(context@, *outcome) == Some(failure@),
        },
{
    match outcome {
        CommandOutcome::Failed(reason) => Err(Failure::because(context.to_string(), reason.clone())),
        CommandOutcome::Finished(output) => {
            if output.success {
                Ok(())
            } else {
                let message = context.to_string().concat("; command exited with ").concat(
                    output.status.as_str(),
                );
                Err(Failure::new(message))
            }
        },
    }
}

/// The first line of an output.
pub open spec fn first_line(bytes: Seq<u8>) -> Option<Seq<char>> {
    let all = lines(utf8_lossy(bytes));
    if all.len() > 0 {
        Some(all[0])
    } else {
        None
    }
}

/// The first line of an output.
pub fn first_output_line(bytes: &[u8]) -> (line: Option<String>)
    ensures
        match line {
            Some(line) => first_line(bytes@) == Some(line@),
            None => first_line(bytes@) is None,
        },
{
    let text = text_from_utf8(bytes);
    let parts = split_lines(text.as_str());
    if parts.len() > 0 {
        proof {
            assert(views(parts@)[0] == parts@[0]@);
        }
        Some(parts[0].clone())
    } else {
        None
    }
}

} // verus!
