//! What the builtins do.
//!
//! A builtin runs inside the shell's own process, so that what it changes is
//! changed for the shell. It answers with the lines to print and with a status
//! that tells the shell whether to go on.

use vstd::prelude::*;

use crate::os::change_dir;
use crate::registry::{names_of, registered, unique_names, Builtin, Registry, Table};

verus! {

/// The status with which a builtin lets the shell go on.
pub const KEEP_GOING: i32 = 1;

/// The status with which a builtin asks the shell to end.
pub const STOP: i32 = 0;

/// The answer of a builtin.
#[derive(Debug)]
pub struct BuiltinReply {
    /// [`KEEP_GOING`] or [`STOP`].
    pub status: i32,
    /// The lines to print, in order.
    pub output: Vec<String>,
}

/// The answer of a builtin, as characters.
pub struct ReplyView {
    pub status: i32,
    pub output: Seq<Seq<char>>,
}

impl View for BuiltinReply {
    type V = ReplyView;

    open spec fn view(&self) -> ReplyView {
        ReplyView { status: self.status, output: self.output.deep_view() }
    }
}

/// How an attempt to change the working directory came out.
#[derive(Clone, Copy, Debug, PartialEq, Eq, Structural)]
pub enum CdOutcome {
    /// The command named no directory, and none was asked for.
    NoTarget,
    /// The system made the directory the working directory.
    Moved,
    /// The system refused, and the working directory is what it was.
    Refused,
}

/// The name of the shell and its version, the first line that `help` prints.
pub open spec fn banner() -> Seq<char> {
    "esh v0.01"@
}

/// The directory that a `cd` command names: its second word. The first is the
/// name of the command itself.
pub open spec fn cd_target(args: Seq<Seq<char>>) -> Option<Seq<char>> {
    if args.len() < 2 {
        None
    } else {
        Some(args[1])
    }
}

/// What `cd` answers to each outcome. It never asks the shell to end.
pub open spec fn cd_reply(outcome: CdOutcome) -> ReplyView {
    ReplyView {
        status: KEEP_GOING,
        output: seq![
            match outcome {
                CdOutcome::NoTarget => "lsh: expected argument to \"cd\""@,
                CdOutcome::Moved => "moved"@,
                CdOutcome::Refused => "move failed"@,
            },
        ],
    }
}

/// What `help` answers: the banner, then one line for each registered name,
/// in the order of the table.
pub open spec fn help_reply(table: Table) -> ReplyView {
    ReplyView {
        status: KEEP_GOING,
        output: seq![banner()] + Seq::new(table.len(), |i: int| "- "@ + table[i].0),
    }
}

/// What `exit` answers: nothing to print, and the request to end.
pub open spec fn exit_reply() -> ReplyView {
    ReplyView { status: STOP, output: Seq::empty() }
}

/// Whether `reply` is an answer that `cd` can give to the command `args`.
/// Without a directory there is one answer. With one there are two: whether
/// the system agrees is not for the shell to say.
pub open spec fn possible_cd_reply(args: Seq<Seq<char>>, reply: ReplyView) -> bool {
    if cd_target(args) is None {
        reply == cd_reply(CdOutcome::NoTarget)
    } else {
        reply == cd_reply(CdOutcome::Moved) || reply == cd_reply(CdOutcome::Refused)
    }
}

/// Whether `reply` is an answer that `builtin` can give to the command `args`
/// in a shell with the builtins of `table`.
pub open spec fn possible_reply(
    table: Table,
    builtin: Builtin,
    args: Seq<Seq<char>>,
    reply: ReplyView,
) -> bool {
    match builtin {
        Builtin::Cd => possible_cd_reply(args, reply),
        Builtin::Help => reply == help_reply(table),
        Builtin::Exit => reply == exit_reply(),
    }
}

/// The lines of `help` after the banner are the registered names, each once
/// and each behind a dash: there are as many lines as names, no line stands
/// twice, and a name has its line just when it is registered.
pub proof fn lemma_help_lists_each_name_once(table: Table)
    requires
        unique_names(table),
    ensures
        help_reply(table).output.first() == banner(),
        help_reply(table).output.drop_first().len() == table.len(),
        help_reply(table).output.drop_first().no_duplicates(),
        forall|name: Seq<char>|
            registered(table, name) <==> help_reply(table).output.drop_first().contains(
                #[trigger] ("- "@ + name),
            ),
{
    let dash = "- "@;
    let lines = help_reply(table).output.drop_first();
    assert(lines =~= Seq::new(table.len(), |i: int| dash + table[i].0));
    assert forall|a: Seq<char>, b: Seq<char>| dash + a == dash + b implies a == b by {
        assert((dash + a).subrange(dash.len() as int, (dash + a).len() as int) == a);
        assert((dash + b).subrange(dash.len() as int, (dash + b).len() as int) == b);
    }
    assert forall|name: Seq<char>| registered(table, name) implies lines.contains(
        #[trigger] (dash + name),
    ) by {
        let i = choose|i: int| 0 <= i < table.len() && (#[trigger] table[i]).0 == name;
        assert(lines[i] == dash + name);
    }
    assert forall|name: Seq<char>| lines.contains(#[trigger] (dash + name)) implies registered(
        table,
        name,
    ) by {
        let i = choose|i: int| 0 <= i < lines.len() && lines[i] == dash + name;
        assert(table[i].0 == name);
    }
}

/// The name of the shell and its version.
pub fn banner_text() -> (text: &'static str)
    ensures
        text@ == banner(),
{
    "esh v0.01"
}

/// The directory that a `cd` command names, if it names one.
pub fn cd_path(args: &Vec<String>) -> (target: Option<&String>)
    ensures
        match target {
            Some(path) => cd_target(args.deep_view()) == Some(path@),
            None => cd_target(args.deep_view()) is None,
        },
{
    if args.len() < 2 {
        None
    } else {
        Some(&args[1])
    }
}

/// The answer of `cd` to an outcome.
pub fn cd_report(outcome: CdOutcome) -> (reply: BuiltinReply)
    ensures
        reply@ == cd_reply(outcome),
{
    let line = match outcome {
        CdOutcome::NoTarget => "lsh: expected argument to \"cd\"",
        CdOutcome::Moved => "moved",
        CdOutcome::Refused => "move failed",
    };
    let mut output: Vec<String> = Vec::new();
    output.push(line.to_owned());
    assert(output.deep_view() =~= cd_reply(outcome).output);
    BuiltinReply { status: KEEP_GOING, output }
}

/// The answer of `cd` to what the system said when asked for a directory:
/// whether it made that directory the working directory.
pub fn cd_answer(changed: bool) -> (reply: BuiltinReply)
    ensures
        reply@ == cd_reply(
            if changed {
                CdOutcome::Moved
            } else {
                CdOutcome::Refused
            },
        ),
{
    if changed {
        cd_report(CdOutcome::Moved)
    } else {
        cd_report(CdOutcome::Refused)
    }
}

/// `cd`: makes the directory that the command names the working directory of
/// the shell.
///
/// Without a directory it asks the system for nothing and answers with a
/// usage line. With one it asks for exactly that directory and answers with
/// what the system did. Either way the shell goes on.
pub fn builtin_cd(args: &Vec<String>) -> (reply: BuiltinReply)
    ensures
        reply.status == KEEP_GOING,
        possible_cd_reply(args.deep_view(), reply@),
{
    match cd_path(args) {
        None => cd_report(CdOutcome::NoTarget),
        Some(path) => cd_answer(change_dir(path.as_str())),
    }
}

/// `help`: lists the builtins of `registry`.
pub fn builtin_help(registry: &Registry) -> (reply: BuiltinReply)
    ensures
        reply@ == help_reply(registry@),
{
    let names = registry.names();
    assert(names.deep_view().len() == names_of(registry@).len());
    let mut output: Vec<String> = Vec::new();
    output.push(banner_text().to_owned());
    let mut i: usize = 0;
    while i < names.len()
        invariant
            i <= names.len(),
            names.deep_view() == names_of(registry@),
            names.len() == registry@.len(),
            output.len() == i + 1,
            output[0]@ == banner(),
            forall|k: int| 1 <= k <= i ==> (#[trigger] output[k])@ == "- "@ + registry@[k - 1].0,
        decreases names.len() - i,
    {
        let mut line = "- ".to_owned();
        line.append(names[i].as_str());
        assert(names.deep_view()[i as int] == names[i as int]@);
        output.push(line);
        i += 1;
    }
    assert(output.deep_view() =~= help_reply(registry@).output);
    BuiltinReply { status: KEEP_GOING, output }
}

/// `exit`: asks the shell to end, whatever else the command says.
pub fn builtin_exit() -> (reply: BuiltinReply)
    ensures
        reply@ == exit_reply(),
{
    let output: Vec<String> = Vec::new();
    assert(output.deep_view() =~= exit_reply().output);
    BuiltinReply { status: STOP, output }
}

/// Runs `builtin` for the command `args`, whose first word is its name.
pub fn run_builtin(
    registry: &Registry,
    builtin: Builtin,
    args: &Vec<String>,
) -> (reply: BuiltinReply)
    ensures
        possible_reply(registry@, builtin, args.deep_view(), reply@),
{
    match builtin {
        Builtin::Cd => builtin_cd(args),
        Builtin::Help => builtin_help(registry),
        Builtin::Exit => builtin_exit(),
    }
}

} // verus!
