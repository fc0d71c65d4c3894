//! The static command catalog: the subcommands the tool offers, the
//! capability flags of each, and lookup by a user selection.

use vstd::prelude::*;

verus! {

/// Which of the two catalog panes an entry belongs to.
#[derive(Clone, Copy, PartialEq, Eq, Structural, Debug)]
pub enum CommandGroup {
    Primary,
    Secondary,
}

/// One entry of the command catalog: the literal subcommand token handed to
/// the external tool, a display label, and what may be appended to the
/// invocation.
pub struct CommandSpec {
    pub label: String,
    pub subcommand: String,
    /// Whether a `--release` flag may be appended to this subcommand.
    pub supports_release: bool,
    /// Whether user-supplied program arguments may follow a `--` separator.
    pub allows_program_args: bool,
}

/// One catalog entry picked by the user: a pane and a row in it.
#[derive(Clone, Copy, PartialEq, Eq, Structural, Debug)]
pub struct SelectedCommand {
    pub group: CommandGroup,
    pub index: usize,
}

/// The catalog itself: two panes of entries, fixed once built.
pub struct Catalog {
    pub primary: Vec<CommandSpec>,
    pub secondary: Vec<CommandSpec>,
}

/// An entry has exactly these fields.
pub open spec fn entry_is(
    s: CommandSpec,
    label: Seq<char>,
    subcommand: Seq<char>,
    supports_release: bool,
    allows_program_args: bool,
) -> bool {
    &&& s.label@ == label
    &&& s.subcommand@ == subcommand
    &&& s.supports_release == supports_release
    &&& s.allows_program_args == allows_program_args
}

/// The catalog the application ships with.
pub open spec fn is_default_catalog(c: Catalog) -> bool {
    &&& c.primary@.len() == 2
    &&& entry_is(c.primary@[0], "Build"@, "build"@, true, false)
    &&& entry_is(c.primary@[1], "Run"@, "run"@, true, true)
    &&& c.secondary@.len() == 7
    &&& entry_is(c.secondary@[0], "Check"@, "check"@, true, false)
    &&& entry_is(c.secondary@[1], "Test"@, "test"@, true, true)
    &&& entry_is(c.secondary@[2], "Fmt"@, "fmt"@, false, false)
    &&& entry_is(c.secondary@[3], "Clean"@, "clean"@, false, false)
    &&& entry_is(c.secondary@[4], "Doc"@, "doc"@, true, false)
    &&& entry_is(c.secondary@[5], "Clippy"@, "clippy"@, true, false)
    &&& entry_is(c.secondary@[6], "Update"@, "update"@, false, false)
}

fn entry(label: &str, subcommand: &str, supports_release: bool, allows_program_args: bool) -> (r:
    CommandSpec)
    ensures
        entry_is(r, label@, subcommand@, supports_release, allows_program_args),
{
    CommandSpec {
        label: label.to_owned(),
        subcommand: subcommand.to_owned(),
        supports_release,
        allows_program_args,
    }
}

/// Builds the catalog the application ships with.
pub fn default_catalog() -> (r: Catalog)
    ensures
        is_default_catalog(r),
{
    let mut primary: Vec<CommandSpec> = Vec::new();
    primary.push(entry("Build", "build", true, false));
    primary.push(entry("Run", "run", true, true));
    let mut secondary: Vec<CommandSpec> = Vec::new();
    secondary.push(entry("Check", "check", true, false));
    secondary.push(entry("Test", "test", true, true));
    secondary.push(entry("Fmt", "fmt", false, false));
    secondary.push(entry("Clean", "clean", false, false));
    secondary.push(entry("Doc", "doc", true, false));
    secondary.push(entry("Clippy", "clippy", true, false));
    secondary.push(entry("Update", "update", false, false));
    Catalog { primary, secondary }
}

/// What a lookup of one selection yields: the entry at that row of the
/// chosen pane, or nothing when the row is out of range.
pub open spec fn spec_lookup(c: Catalog, group: CommandGroup, index: int) -> Option<CommandSpec> {
    let pane = match group {
        CommandGroup::Primary => c.primary@,
        CommandGroup::Secondary => c.secondary@,
    };
    if 0 <= index < pane.len() {
        Some(pane[index])
    } else {
        None
    }
}

impl Catalog {
    /// Finds the entry a selection points at; absent rows (a stale index
    /// from the observer) yield `None`, never an error.
    pub fn lookup(&self, group: CommandGroup, index: usize) -> (r: Option<&CommandSpec>)
        ensures
            match r {
                Some(s) => spec_lookup(*self, group, index as int) == Some(*s),
                None => spec_lookup(*self, group, index as int) is None,
            },
    {
        let pane = match group {
            CommandGroup::Primary => &self.primary,
            CommandGroup::Secondary => &self.secondary,
        };
        if index < pane.len() {
            Some(&pane[index])
        } else {
            None
        }
    }
}

/// The first entry of a pane whose subcommand is the default action `run`.
pub open spec fn spec_find_run(specs: Seq<CommandSpec>) -> Option<CommandSpec>
    decreases specs.len(),
{
    if specs.len() == 0 {
        None
    } else if specs[0].subcommand@ == "run"@ {
        Some(specs[0])
    } else {
        spec_find_run(specs.drop_first())
    }
}

proof fn lemma_find_run_skip(specs: Seq<CommandSpec>, i: int)
    requires
        0 <= i <= specs.len(),
        forall|j: int| 0 <= j < i ==> specs[j].subcommand@ != "run"@,
    ensures
        spec_find_run(specs) == spec_find_run(specs.skip(i)),
    decreases i,
{
    if i == 0 {
        assert(specs.skip(0) =~= specs);
    } else {
        lemma_find_run_skip(specs, i - 1);
        assert(specs.skip(i - 1).drop_first() =~= specs.skip(i));
    }
}

impl Catalog {
    /// The catalog's designated default action: the first primary entry for
    /// the `run` subcommand, if the catalog has one.
    pub fn find_default(&self) -> (r: Option<&CommandSpec>)
        ensures
            match r {
                Some(s) => spec_find_run(self.primary@) == Some(*s),
                None => spec_find_run(self.primary@) is None,
            },
    {
        let run_word: String = "run".to_owned();
        let mut i: usize = 0;
        while i < self.primary.len()
            invariant
                i <= self.primary@.len(),
                run_word@ == "run"@,
                forall|j: int| 0 <= j < i ==> self.primary@[j].subcommand@ != "run"@,
            decreases self.primary@.len() - i,
        {
            if self.primary[i].subcommand == run_word {
                proof {
                    lemma_find_run_skip(self.primary@, i as int);
                    assert(self.primary@.skip(i as int)[0] == self.primary@[i as int]);
                }
                return Some(&self.primary[i]);
            }
            i = i + 1;
        }
        proof {
            lemma_find_run_skip(self.primary@, i as int);
        }
        None
    }
}

} // verus!
