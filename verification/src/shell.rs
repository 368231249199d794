//! One turn of the loop that reads a line, carries it out and reports.
//!
//! Reading and printing are the caller's. What stands here is what lies
//! between: which command of a line is carried out, what is reported when it
//! is done, and whether the loop goes on.

use vstd::prelude::*;

use crate::builtin::{cd_reply, cd_target, possible_reply, CdOutcome, ReplyView, STOP};
use crate::error::ShellError;
use crate::execute::{dispatch_of, esh_execute, possible_execution, Dispatch, Execution};
use crate::launch::EXEC_FAILURE_CODE;
use crate::registry::{
    builtin_table, lemma_builtin_table_is_unique, lemma_find_in_builtin_table, names_of, Builtin,
    Registry,
};
use crate::token::{first_command, parse_line};

verus! {

/// The exit code of the shell itself, when `exit` ends it.
pub const EXIT_CODE: i32 = 0;

/// How the carrying out of a command ended.
#[derive(Clone, Copy, Debug, PartialEq, Eq)]
pub enum Finished {
    /// There was no command.
    Skipped,
    /// A builtin ran and answered with this status.
    Builtin(i32),
    /// A program was to be launched: its exit code, or why there is none.
    Launched(Result<i32, ShellError>),
}

/// What the shell prints when a command is done, after the command's own lines.
#[derive(Clone, Copy, Debug, PartialEq, Eq, Structural)]
pub enum Report {
    /// No line.
    Nothing,
    /// The status, as a number.
    Status(i32),
    /// The words of the error.
    Error(ShellError),
}

/// Whether the loop goes on.
#[derive(Clone, Copy, Debug, PartialEq, Eq, Structural)]
pub enum Control {
    /// Prompt again.
    Continue,
    /// End the shell with this exit code.
    Exit(i32),
}

/// What follows when a command is done.
#[derive(Clone, Copy, Debug, PartialEq, Eq, Structural)]
pub struct Conclusion {
    pub report: Report,
    pub control: Control,
}

/// What follows from each ending.
///
/// Only a builtin can end the shell, by answering [`STOP`]; the shell then ends
/// at once, with [`EXIT_CODE`]. The exit code of a program is reported and has
/// no say, whatever it is. A line without a command is passed over in silence.
pub open spec fn conclusion_of(finished: Finished) -> Conclusion {
    match finished {
        Finished::Skipped => Conclusion { report: Report::Nothing, control: Control::Continue },
        Finished::Builtin(status) => if status == STOP {
            Conclusion { report: Report::Nothing, control: Control::Exit(EXIT_CODE) }
        } else {
            Conclusion { report: Report::Status(status), control: Control::Continue }
        },
        Finished::Launched(Ok(code)) => Conclusion {
            report: Report::Status(code),
            control: Control::Continue,
        },
        Finished::Launched(Err(error)) => Conclusion {
            report: Report::Error(error),
            control: Control::Continue,
        },
    }
}

/// What the shell prints before it reads a line.
pub fn prompt_text() -> (text: &'static str)
    ensures
        text@ == "$ "@,
{
    "$ "
}

/// Carries out a line as far as the shell can by itself.
///
/// Of the commands of the line, only the first is carried out; what follows a
/// pipe sign is parsed and dropped.
pub fn esh_turn(registry: &Registry, line: &str) -> (execution: Execution)
    ensures
        possible_execution(registry@, first_command(line@), execution),
{
    let mut commands = parse_line(line);
    let command = commands.swap_remove(0);
    esh_execute(registry, command)
}

/// Decides what follows when a command is done.
pub fn conclude(finished: Finished) -> (conclusion: Conclusion)
    ensures
        conclusion == conclusion_of(finished),
{
    match finished {
        Finished::Skipped => Conclusion { report: Report::Nothing, control: Control::Continue },
        Finished::Builtin(status) => {
            if status == STOP {
                Conclusion { report: Report::Nothing, control: Control::Exit(EXIT_CODE) }
            } else {
                Conclusion { report: Report::Status(status), control: Control::Continue }
            }
        },
        Finished::Launched(Ok(code)) => Conclusion {
            report: Report::Status(code),
            control: Control::Continue,
        },
        Finished::Launched(Err(error)) => Conclusion {
            report: Report::Error(error),
            control: Control::Continue,
        },
    }
}

/// A line whose first command is `exit` ends the shell with exit code 0,
/// whatever else the command says: its other words are not looked at.
pub proof fn lemma_exit_ends_the_shell(line: Seq<char>, reply: ReplyView)
    requires
        first_command(line).len() > 0,
        first_command(line)[0] == "exit"@,
        possible_reply(builtin_table(), Builtin::Exit, first_command(line), reply),
    ensures
        dispatch_of(builtin_table(), first_command(line)) == Dispatch::Builtin(Builtin::Exit),
        reply.status == 0,
        conclusion_of(Finished::Builtin(reply.status)).control == Control::Exit(0),
{
    lemma_find_in_builtin_table("exit"@);
}

/// `cd` without a directory names no directory to change to, and its one
/// possible answer is the usage line with a status that is not zero: the
/// shell goes on.
pub proof fn lemma_cd_without_directory(command: Seq<Seq<char>>, reply: ReplyView)
    requires
        command.len() == 1,
        command[0] == "cd"@,
        possible_reply(builtin_table(), Builtin::Cd, command, reply),
    ensures
        dispatch_of(builtin_table(), command) == Dispatch::Builtin(Builtin::Cd),
        cd_target(command) is None,
        reply == cd_reply(CdOutcome::NoTarget),
        reply.status != 0,
        conclusion_of(Finished::Builtin(reply.status)).control == Control::Continue,
{
    lemma_find_in_builtin_table("cd"@);
}

/// `cd` with a directory names exactly that directory, its second word, and
/// the shell goes on whether the system agreed or not.
pub proof fn lemma_cd_with_directory(command: Seq<Seq<char>>, reply: ReplyView)
    requires
        command.len() >= 2,
        command[0] == "cd"@,
        possible_reply(builtin_table(), Builtin::Cd, command, reply),
    ensures
        dispatch_of(builtin_table(), command) == Dispatch::Builtin(Builtin::Cd),
        cd_target(command) == Some(command[1]),
        reply.status != 0,
        conclusion_of(Finished::Builtin(reply.status)).control == Control::Continue,
{
    lemma_find_in_builtin_table("cd"@);
}

/// Whatever else the command says, `help` prints the banner and then `cd`,
/// `help` and `exit`, each once and nothing else, and the shell goes on.
pub proof fn lemma_help_lists_each_builtin_once(command: Seq<Seq<char>>, reply: ReplyView)
    requires
        command.len() > 0,
        command[0] == "help"@,
        possible_reply(builtin_table(), Builtin::Help, command, reply),
    ensures
        dispatch_of(builtin_table(), command) == Dispatch::Builtin(Builtin::Help),
        reply.output == seq!["esh v0.01"@, "- "@ + "cd"@, "- "@ + "help"@, "- "@ + "exit"@],
        names_of(builtin_table()) == seq!["cd"@, "help"@, "exit"@],
        names_of(builtin_table()).no_duplicates(),
        conclusion_of(Finished::Builtin(reply.status)).control == Control::Continue,
{
    lemma_builtin_table_is_unique();
    lemma_find_in_builtin_table("help"@);
}

/// A line without a word before its first pipe sign runs nothing: no builtin,
/// no program. Nothing is reported and the shell goes on.
pub proof fn lemma_blank_line_is_skipped(line: Seq<char>, execution: Execution)
    requires
        first_command(line).len() == 0,
        possible_execution(builtin_table(), first_command(line), execution),
    ensures
        execution is Skipped,
        conclusion_of(Finished::Skipped) == (Conclusion {
            report: Report::Nothing,
            control: Control::Continue,
        }),
{
}

/// A command whose name is no builtin is handed back to be launched, with all
/// its words. The code with which a child ends that could not start its
/// program is not zero, and the shell reports it and goes on.
pub proof fn lemma_unknown_command_is_reported(command: Seq<Seq<char>>, execution: Execution)
    requires
        command.len() > 0,
        command[0] != "cd"@,
        command[0] != "help"@,
        command[0] != "exit"@,
        possible_execution(builtin_table(), command, execution),
    ensures
        execution matches Execution::Launch(argv) && argv.deep_view() == command,
        EXEC_FAILURE_CODE != 0,
        conclusion_of(Finished::Launched(Ok(EXEC_FAILURE_CODE))) == (Conclusion {
            report: Report::Status(EXEC_FAILURE_CODE),
            control: Control::Continue,
        }),
{
    lemma_find_in_builtin_table(command[0]);
}

/// Whatever a launched program comes to, the shell reports it and goes on: an
/// exit code is shown as it is, and so is an error.
pub proof fn lemma_launch_never_ends_the_shell(result: Result<i32, ShellError>)
    ensures
        conclusion_of(Finished::Launched(result)).control == Control::Continue,
        result matches Ok(code) ==> conclusion_of(Finished::Launched(result)).report
            == Report::Status(code),
        result matches Err(error) ==> conclusion_of(Finished::Launched(result)).report
            == Report::Error(error),
{
}

} // verus!
