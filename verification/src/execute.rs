//! Deciding how a command is carried out.
//!
//! A command without words is skipped. A command whose first word names a
//! builtin is run by the shell itself, so that a `cd` moves the shell and not
//! some short-lived child. Any other command is a program to launch.

use vstd::prelude::*;

use crate::builtin::{possible_reply, run_builtin, BuiltinReply};
use crate::registry::{find, Builtin, Registry, Table};

verus! {

/// How a command is to be carried out.
#[derive(Clone, Copy, Debug, PartialEq, Eq, Structural)]
pub enum Dispatch {
    /// Not at all: the command has no words.
    Nothing,
    /// By this builtin, inside the shell.
    Builtin(Builtin),
    /// By launching the program that its first word names.
    External,
}

/// What became of a command.
#[derive(Debug)]
pub enum Execution {
    /// Nothing: the command had no words.
    Skipped,
    /// A builtin ran inside the shell, and this is its answer.
    Ran(BuiltinReply),
    /// Nothing yet: the command is handed back, to be launched as a program.
    /// It has at least one word.
    Launch(Vec<String>),
}

/// How `command` is carried out by a shell with the builtins of `table`. The
/// table is asked first, and only for a command that has a name.
pub open spec fn dispatch_of(table: Table, command: Seq<Seq<char>>) -> Dispatch {
    if command.len() == 0 {
        Dispatch::Nothing
    } else {
        match find(table, command[0]) {
            Some(builtin) => Dispatch::Builtin(builtin),
            None => Dispatch::External,
        }
    }
}

/// Whether `execution` is what can become of `command` in a shell with the
/// builtins of `table`.
pub open spec fn possible_execution(
    table: Table,
    command: Seq<Seq<char>>,
    execution: Execution,
) -> bool {
    match dispatch_of(table, command) {
        Dispatch::Nothing => execution is Skipped,
        Dispatch::Builtin(builtin) => execution matches Execution::Ran(reply) && possible_reply(
            table,
            builtin,
            command,
            reply@,
        ),
        Dispatch::External => execution matches Execution::Launch(argv) && argv.deep_view()
            == command,
    }
}

/// Decides how `command` is to be carried out.
pub fn esh_dispatch(registry: &Registry, command: &Vec<String>) -> (dispatch: Dispatch)
    ensures
        dispatch == dispatch_of(registry@, command.deep_view()),
{
    if command.len() == 0 {
        Dispatch::Nothing
    } else {
        match registry.lookup(command[0].as_str()) {
            Some(builtin) => Dispatch::Builtin(builtin),
            None => Dispatch::External,
        }
    }
}

/// Carries `command` out as far as the shell can by itself: a builtin is run,
/// at once and in this process; a program is handed back to be launched.
pub fn esh_execute(registry: &Registry, command: Vec<String>) -> (execution: Execution)
    ensures
        possible_execution(registry@, command.deep_view(), execution),
{
    match esh_dispatch(registry, &command) {
        Dispatch::Nothing => Execution::Skipped,
        Dispatch::Builtin(builtin) => Execution::Ran(run_builtin(registry, builtin, &command)),
        Dispatch::External => Execution::Launch(command),
    }
}

} // verus!
