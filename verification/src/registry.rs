//! The builtins and the table that names them.
//!
//! A registry is built once, when the shell starts, and is never changed after
//! that. Its names are unique, so a name finds at most one builtin.

use vstd::prelude::*;

verus! {

/// A command that the shell carries out itself, inside its own process.
#[derive(Clone, Copy, Debug, PartialEq, Eq, Structural)]
pub enum Builtin {
    /// Change the working directory.
    Cd,
    /// List the builtins.
    Help,
    /// Leave the shell.
    Exit,
}

impl Builtin {
    /// The name under which the builtin is registered.
    pub open spec fn name(self) -> Seq<char> {
        match self {
            Builtin::Cd => "cd"@,
            Builtin::Help => "help"@,
            Builtin::Exit => "exit"@,
        }
    }

    /// The name under which the builtin is registered.
    pub fn as_str(self) -> (text: &'static str)
        ensures
            text@ == self.name(),
    {
        match self {
            Builtin::Cd => "cd",
            Builtin::Help => "help",
            Builtin::Exit => "exit",
        }
    }
}

/// A registry as a table: names paired with builtins, in the order of
/// registration.
pub type Table = Seq<(Seq<char>, Builtin)>;

/// The table of the shell: `cd`, `help` and `exit`, in this order.
pub open spec fn builtin_table() -> Table {
    seq![
        (Builtin::Cd.name(), Builtin::Cd),
        (Builtin::Help.name(), Builtin::Help),
        (Builtin::Exit.name(), Builtin::Exit),
    ]
}

/// No name stands twice in the table.
pub open spec fn unique_names(table: Table) -> bool {
    forall|i: int, j: int|
        0 <= i < j < table.len() ==> (#[trigger] table[i]).0 != (#[trigger] table[j]).0
}

/// The names of the table, in its order.
pub open spec fn names_of(table: Table) -> Seq<Seq<char>> {
    Seq::new(table.len(), |i: int| table[i].0)
}

/// Whether the table holds an entry under exactly this name.
pub open spec fn registered(table: Table, name: Seq<char>) -> bool {
    exists|i: int| 0 <= i < table.len() && (#[trigger] table[i]).0 == name
}

/// The builtin registered under exactly this name, if there is one. Names are
/// compared character by character: case matters and nothing is an alias.
pub open spec fn find(table: Table, name: Seq<char>) -> Option<Builtin> {
    if registered(table, name) {
        let i = choose|i: int| 0 <= i < table.len() && (#[trigger] table[i]).0 == name;
        Some(table[i].1)
    } else {
        None
    }
}

/// The three names differ, so the shell's table has unique names.
pub proof fn lemma_builtin_table_is_unique()
    ensures
        unique_names(builtin_table()),
        builtin_table().len() == 3,
{
    reveal_strlit("cd");
    reveal_strlit("help");
    reveal_strlit("exit");
    assert("help"@[0] != "exit"@[0]);
}

/// In a table with unique names, the entry at `i` is what its name finds.
pub proof fn lemma_find_entry(table: Table, i: int)
    requires
        unique_names(table),
        0 <= i < table.len(),
    ensures
        find(table, table[i].0) == Some(table[i].1),
{
    let k = choose|k: int| 0 <= k < table.len() && (#[trigger] table[k]).0 == table[i].0;
    assert(k == i);
}

/// What a name finds in the shell's table: a builtin under its own name, and
/// nothing under any other name.
pub proof fn lemma_find_in_builtin_table(name: Seq<char>)
    ensures
        forall|b: Builtin| find(builtin_table(), name) == Some(b) <==> name == b.name(),
{
    let table = builtin_table();
    lemma_builtin_table_is_unique();
    if registered(table, name) {
        let i = choose|i: int| 0 <= i < table.len() && (#[trigger] table[i]).0 == name;
        lemma_find_entry(table, i);
    }
}

struct Entry {
    name: String,
    builtin: Builtin,
}

/// The builtins of a shell, each under its name.
pub struct Registry {
    entries: Vec<Entry>,
}

impl View for Registry {
    type V = Table;

    closed spec fn view(&self) -> Table {
        Seq::new(self.entries@.len(), |i: int| (self.entries@[i].name@, self.entries@[i].builtin))
    }
}

impl Registry {
    #[verifier::type_invariant]
    spec fn well_formed(self) -> bool {
        unique_names(self@)
    }

    /// The registry of the shell: `cd`, `help` and `exit`.
    pub fn new() -> (registry: Registry)
        ensures
            registry@ == builtin_table(),
    {
        let mut entries: Vec<Entry> = Vec::new();
        entries.push(Entry { name: Builtin::Cd.as_str().to_owned(), builtin: Builtin::Cd });
        entries.push(Entry { name: Builtin::Help.as_str().to_owned(), builtin: Builtin::Help });
        entries.push(Entry { name: Builtin::Exit.as_str().to_owned(), builtin: Builtin::Exit });
        proof {
            lemma_builtin_table_is_unique();
        }
        Registry { entries }
    }

    /// How many builtins are registered.
    pub fn len(&self) -> (n: usize)
        ensures
            n == self@.len(),
    {
        self.entries.len()
    }

    /// Looks `name` up.
    pub fn lookup(&self, name: &str) -> (found: Option<Builtin>)
        ensures
            found == find(self@, name@),
    {
        proof {
            use_type_invariant(self);
        }
        let wanted = name.to_owned();
        let mut i: usize = 0;
        while i < self.entries.len()
            invariant
                i <= self.entries.len(),
                wanted@ == name@,
                unique_names(self@),
                forall|j: int| 0 <= j < i ==> (#[trigger] self@[j]).0 != name@,
            decreases self.entries.len() - i,
        {
            if self.entries[i].name == wanted {
                proof {
                    lemma_find_entry(self@, i as int);
                }
                return Some(self.entries[i].builtin);
            }
            i += 1;
        }
        None
    }

    /// The registered names, in the order of registration. None stands twice.
    pub fn names(&self) -> (names: Vec<String>)
        ensures
            names.deep_view() == names_of(self@),
            names.deep_view().no_duplicates(),
    {
        proof {
            use_type_invariant(self);
        }
        let mut names: Vec<String> = Vec::new();
        let mut i: usize = 0;
        while i < self.entries.len()
            invariant
                i <= self.entries.len(),
                names.len() == i,
                forall|j: int| 0 <= j < i ==> (#[trigger] names[j])@ == self@[j].0,
            decreases self.entries.len() - i,
        {
            names.push(self.entries[i].name.clone());
            i += 1;
        }
        names
    }
}

} // verus!
