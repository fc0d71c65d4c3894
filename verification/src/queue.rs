//! Building the job queue for one run request, and assembling each job's
//! final argument vector.

use vstd::prelude::*;

use crate::args::blank;
use crate::args::shell_ok;
use crate::args::shell_tokens;
use crate::args::split_words;
use crate::args::is_blank;
use crate::catalog::Catalog;
use crate::catalog::CommandSpec;
use crate::catalog::SelectedCommand;
use crate::catalog::spec_find_run;
use crate::catalog::spec_lookup;

verus! {

/// One fully specified invocation of the external tool, fixed once built.
#[derive(Debug)]
pub struct QueuedCommand {
    /// The name used in status and output lines.
    pub display_name: String,
    /// The base argument words of the invocation.
    pub fragments: Vec<String>,
    /// Whether a `--release` flag may be appended at execution time.
    pub supports_release: bool,
    /// Whether program arguments may follow a `--` separator.
    pub allows_program_args: bool,
}

/// Why no queue could be built from a run request.
#[derive(Clone, Copy, PartialEq, Eq, Structural, Debug)]
pub enum QueueError {
    /// The custom command text holds an unmatched quote.
    InvalidCustomCommand,
    /// The custom command text has no words left once the tool's own name
    /// is stripped.
    EmptyCustomCommand,
    /// Nothing is selected, the custom text is blank, and the catalog has
    /// no default action.
    NoCommandSelected,
}

/// The job built from one catalog entry: the subcommand is both its display
/// name and its single fragment, and the capability flags are copied.
pub open spec fn job_matches_entry(j: QueuedCommand, s: CommandSpec) -> bool {
    &&& j.display_name@ == s.subcommand@
    &&& j.fragments.deep_view() == seq![s.subcommand@]
    &&& j.supports_release == s.supports_release
    &&& j.allows_program_args == s.allows_program_args
}

/// The job built from custom command text: the given words are its
/// fragments, its display name joins them with spaces, it never supports
/// the release flag and always accepts program arguments.
pub open spec fn job_matches_custom(j: QueuedCommand, frags: Seq<Seq<char>>) -> bool {
    &&& j.display_name@ == spec_join_spaces(frags)
    &&& j.fragments.deep_view() == frags
    &&& j.supports_release == false
    &&& j.allows_program_args == true
}

/// The catalog entries a selection resolves to, in selection order; rows
/// that resolve to nothing are skipped.
pub open spec fn resolved(c: Catalog, sels: Seq<SelectedCommand>) -> Seq<CommandSpec>
    decreases sels.len(),
{
    if sels.len() == 0 {
        Seq::empty()
    } else {
        let init = resolved(c, sels.drop_last());
        match spec_lookup(c, sels.last().group, sels.last().index as int) {
            Some(s) => init.push(s),
            None => init,
        }
    }
}

/// The queue holds exactly the jobs of these catalog entries, in order.
pub open spec fn jobs_match(q: Seq<QueuedCommand>, specs: Seq<CommandSpec>) -> bool {
    &&& q.len() == specs.len()
    &&& forall|i: int| 0 <= i < q.len() ==> job_matches_entry(#[trigger] q[i], specs[i])
}

/// The words joined by single spaces.
pub open spec fn spec_join_spaces(parts: Seq<Seq<char>>) -> Seq<char>
    decreases parts.len(),
{
    if parts.len() == 0 {
        Seq::empty()
    } else if parts.len() == 1 {
        parts[0]
    } else {
        spec_join_spaces(parts.drop_last()) + seq![' '] + parts.last()
    }
}

/// Joins argument words with single spaces, for display.
fn join_spaces(parts: &Vec<String>) -> (r: String)
    ensures
        r@ == spec_join_spaces(parts.deep_view()),
{
    let mut s = String::new();
    let mut i: usize = 0;
    while i < parts.len()
        invariant
            i <= parts@.len(),
            s@ == spec_join_spaces(parts.deep_view().take(i as int)),
        decreases parts@.len() - i,
    {
        if i > 0 {
            proof {
                reveal_strlit(" ");
            }
            s.append(" ");
        }
        s.append(parts[i].as_str());
        proof {
            let dv = parts.deep_view();
            assert(dv.take(i + 1).drop_last() =~= dv.take(i as int));
            assert(dv.take(i + 1).last() == dv[i as int]);
            if i > 0 {
                assert(s@ =~= spec_join_spaces(dv.take(i + 1)));
            } else {
                assert(s@ =~= spec_join_spaces(dv.take(1)));
            }
        }
        i = i + 1;
    }
    proof {
        assert(parts.deep_view().take(parts@.len() as int) =~= parts.deep_view());
    }
    s
}

/// Builds the job of one catalog entry.
fn job_from_entry(s: &CommandSpec) -> (r: QueuedCommand)
    ensures
        job_matches_entry(r, *s),
{
    let mut fragments: Vec<String> = Vec::new();
    fragments.push(s.subcommand.clone());
    let r = QueuedCommand {
        display_name: s.subcommand.clone(),
        fragments,
        supports_release: s.supports_release,
        allows_program_args: s.allows_program_args,
    };
    proof {
        assert(r.fragments.deep_view() =~= seq![s.subcommand@]);
    }
    r
}

/// Builds the ordered job queue for one run request.
///
/// A non-empty selection wins over the custom text, which is then ignored
/// entirely. Custom text is consulted only when the selection is empty and
/// the text is not blank; its words, with a leading `cargo` token stripped,
/// become one job. When neither yields a job, the catalog's default action
/// is used; without one the request is rejected.
pub fn build_queue(catalog: &Catalog, selection: &Vec<SelectedCommand>, custom_text: &str) -> (r:
    Result<Vec<QueuedCommand>, QueueError>)
    ensures
        ({
            let sels = resolved(*catalog, selection@);
            if selection@.len() == 0 && !blank(custom_text@) {
                if !shell_ok(custom_text@) {
                    r matches Err(e) && e == QueueError::InvalidCustomCommand
                } else {
                    let toks = shell_tokens(custom_text@);
                    let frags = if toks.len() > 0 && toks[0] == "cargo"@ {
                        toks.drop_first()
                    } else {
                        toks
                    };
                    if frags.len() == 0 {
                        r matches Err(e) && e == QueueError::EmptyCustomCommand
                    } else {
                        r matches Ok(q) && q@.len() == 1 && job_matches_custom(q@[0], frags)
                    }
                }
            } else if sels.len() > 0 {
                r matches Ok(q) && jobs_match(q@, sels)
            } else {
                match spec_find_run(catalog.primary@) {
                    Some(s) => r matches Ok(q) && q@.len() == 1 && job_matches_entry(q@[0], s),
                    None => r matches Err(e) && e == QueueError::NoCommandSelected,
                }
            }
        }),
{
    let mut queue: Vec<QueuedCommand> = Vec::new();
    if selection.len() == 0 && !is_blank(custom_text) {
        match split_words(custom_text) {
            Err(_) => {
                return Err(QueueError::InvalidCustomCommand);
            },
            Ok(mut tokens) => {
                let cargo_word: String = "cargo".to_owned();
                if tokens.len() > 0 && tokens[0] == cargo_word {
                    tokens.remove(0);
                    proof {
                        assert(tokens.deep_view() =~= shell_tokens(custom_text@).drop_first());
                    }
                }
                if tokens.len() == 0 {
                    return Err(QueueError::EmptyCustomCommand);
                }
                let display_name = join_spaces(&tokens);
                queue.push(
                    QueuedCommand {
                        display_name,
                        fragments: tokens,
                        supports_release: false,
                        allows_program_args: true,
                    },
                );
                return Ok(queue);
            },
        }
    }
    let mut i: usize = 0;
    while i < selection.len()
        invariant
            i <= selection@.len(),
            jobs_match(queue@, resolved(*catalog, selection@.take(i as int))),
        decreases selection@.len() - i,
    {
        let sel = selection[i];
        let ghost prefix = selection@.take(i as int);
        proof {
            assert(selection@.take(i + 1).drop_last() =~= prefix);
            assert(selection@.take(i + 1).last() == selection@[i as int]);
        }
        match catalog.lookup(sel.group, sel.index) {
            Some(entry) => {
                queue.push(job_from_entry(entry));
            },
            None => {},
        }
        i = i + 1;
    }
    proof {
        assert(selection@.take(selection@.len() as int) =~= selection@);
    }
    if queue.len() == 0 {
        match catalog.find_default() {
            Some(run_entry) => {
                queue.push(job_from_entry(run_entry));
            },
            None => {
                return Err(QueueError::NoCommandSelected);
            },
        }
    }
    Ok(queue)
}

/// What may follow the tool-level arguments: a `--` separator and the
/// program arguments, appended exactly when the job allows them and there
/// is at least one.
pub open spec fn spec_trailing(job: QueuedCommand, program: Seq<Seq<char>>) -> Seq<Seq<char>> {
    if job.allows_program_args && program.len() > 0 {
        seq!["--"@] + program
    } else {
        Seq::empty()
    }
}

/// The final argument vector of one job at execution time: its fragments,
/// then the release flag exactly when requested and supported, then the
/// tool-level arguments verbatim, then the trailing program arguments.
pub open spec fn spec_full_command(
    job: QueuedCommand,
    release_selected: bool,
    cargo: Seq<Seq<char>>,
    program: Seq<Seq<char>>,
) -> Seq<Seq<char>> {
    job.fragments.deep_view() + (if release_selected && job.supports_release {
        seq!["--release"@]
    } else {
        Seq::<Seq<char>>::empty()
    }) + cargo + spec_trailing(job, program)
}

/// Appends clones of all of `src` to `dst`.
fn push_all(dst: &mut Vec<String>, src: &Vec<String>)
    ensures
        final(dst).deep_view() == old(dst).deep_view() + src.deep_view(),
{
    let mut i: usize = 0;
    while i < src.len()
        invariant
            i <= src@.len(),
            dst.deep_view() == old(dst).deep_view() + src.deep_view().take(i as int),
        decreases src@.len() - i,
    {
        let ghost pre = dst.deep_view();
        let item = src[i].clone();
        assert(item@ == src.deep_view()[i as int]);
        dst.push(item);
        proof {
            assert(forall|j: int| 0 <= j < pre.len() ==> dst.deep_view()[j] == pre[j]);
            assert(dst.deep_view()[pre.len() as int] == src.deep_view()[i as int]);
            assert(dst.deep_view() =~= pre.push(src.deep_view()[i as int]));
            assert(dst.deep_view() =~= old(dst).deep_view() + src.deep_view().take(i + 1));
        }
        i = i + 1;
    }
    proof {
        assert(src.deep_view().take(src@.len() as int) =~= src.deep_view());
    }
}

/// Assembles the final argument vector of one job, reflecting the global
/// flags as they stand at the moment the run starts.
pub fn build_full_command(
    command: &QueuedCommand,
    release_selected: bool,
    cargo_args: &Vec<String>,
    program_args: &Vec<String>,
) -> (r: Vec<String>)
    ensures
        r.deep_view() == spec_full_command(
            *command,
            release_selected,
            cargo_args.deep_view(),
            program_args.deep_view(),
        ),
{
    let mut args: Vec<String> = Vec::new();
    push_all(&mut args, &command.fragments);
    if release_selected && command.supports_release {
        args.push("--release".to_owned());
        proof {
            assert(args.deep_view() =~= command.fragments.deep_view() + seq!["--release"@]);
        }
    }
    let ghost head = args.deep_view();
    push_all(&mut args, cargo_args);
    if command.allows_program_args && program_args.len() > 0 {
        args.push("--".to_owned());
        proof {
            assert(args.deep_view() =~= head + cargo_args.deep_view() + seq!["--"@]);
        }
        push_all(&mut args, program_args);
    }
    proof {
        assert(args.deep_view() =~= spec_full_command(
            *command,
            release_selected,
            cargo_args.deep_view(),
            program_args.deep_view(),
        ));
    }
    args
}

/// The release flag stands in the assembled command line, directly after
/// the job's own fragments, exactly when release mode is selected and the
/// job supports it; in every other case the line goes straight from the
/// fragments to the tool-level arguments.
pub proof fn lemma_release_flag_iff(
    job: QueuedCommand,
    release_selected: bool,
    cargo: Seq<Seq<char>>,
    program: Seq<Seq<char>>,
)
    ensures
        release_selected && job.supports_release ==> spec_full_command(
            job,
            release_selected,
            cargo,
            program,
        ) == job.fragments.deep_view() + seq!["--release"@] + cargo + spec_trailing(job, program),
        !(release_selected && job.supports_release) ==> spec_full_command(
            job,
            release_selected,
            cargo,
            program,
        ) == job.fragments.deep_view() + cargo + spec_trailing(job, program),
{
    if release_selected && job.supports_release {
        assert(spec_full_command(job, release_selected, cargo, program) =~= job.fragments.deep_view()
            + seq!["--release"@] + cargo + spec_trailing(job, program));
    } else {
        assert(spec_full_command(job, release_selected, cargo, program) =~= job.fragments.deep_view()
            + cargo + spec_trailing(job, program));
    }
}

/// The `--` separator and the program arguments close the assembled command
/// line exactly when the job allows trailing arguments and at least one was
/// given; in every other case the line ends with the tool-level arguments.
pub proof fn lemma_trailing_args_iff(
    job: QueuedCommand,
    release_selected: bool,
    cargo: Seq<Seq<char>>,
    program: Seq<Seq<char>>,
)
    ensures
        job.allows_program_args && program.len() > 0 ==> spec_full_command(
            job,
            release_selected,
            cargo,
            program,
        ) == spec_full_command(job, release_selected, cargo, Seq::empty()) + seq!["--"@] + program,
        !(job.allows_program_args && program.len() > 0) ==> spec_full_command(
            job,
            release_selected,
            cargo,
            program,
        ) == spec_full_command(job, release_selected, cargo, Seq::empty()),
{
    if job.allows_program_args && program.len() > 0 {
        assert(spec_full_command(job, release_selected, cargo, program) =~= spec_full_command(
            job,
            release_selected,
            cargo,
            Seq::empty(),
        ) + seq!["--"@] + program);
    } else {
        assert(spec_full_command(job, release_selected, cargo, program) =~= spec_full_command(
            job,
            release_selected,
            cargo,
            Seq::empty(),
        ));
    }
}

} // verus!
