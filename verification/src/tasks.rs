//! Command routing.
//!
//! The tool is invoked through a launcher, so the argument list may open
//! with launcher entries before the subcommand's own name. Entries are
//! dropped from the front as long as the entry after them names a
//! subcommand of this tool; the first entry of what remains then selects
//! the task.

use vstd::prelude::*;
use vstd::string::StringExecFns;

use crate::text::contains_seq;
use crate::text::is_suffix;
use crate::text::str_contains;
use crate::text::str_ends_with;

verus! {

/// The marker every subcommand name of this tool carries.
pub open spec fn subcommand_marker() -> Seq<char> {
    "duckdb-ext-"@
}

/// The argument list with leading launcher entries dropped: entries are
/// removed from the front while the entry after them holds the
/// subcommand marker.
pub open spec fn trimmed_arguments(arguments: Seq<Seq<char>>) -> Seq<Seq<char>>
    decreases arguments.len(),
{
    if arguments.len() >= 2 && contains_seq(arguments[1], subcommand_marker()) {
        trimmed_arguments(arguments.drop_first())
    } else {
        arguments
    }
}

/// Drops leading launcher entries from the argument list.
pub fn select_arguments(arguments: &Vec<String>) -> (r: Vec<String>)
    ensures
        r.deep_view() == trimmed_arguments(arguments.deep_view()),
{
    let ghost all = arguments.deep_view();
    let mut i: usize = 0;
    proof {
        assert(all.skip(0) =~= all);
    }
    while arguments.len() - i > 1 && str_contains(arguments[i + 1].as_str(), "duckdb-ext-")
        invariant
            i <= all.len(),
            all == arguments.deep_view(),
            all.len() == arguments@.len(),
            trimmed_arguments(all) == trimmed_arguments(all.skip(i as int)),
        decreases all.len() - i,
    {
        proof {
            assert(all.skip(i as int)[1] == all[i as int + 1]);
            assert(all.skip(i as int).drop_first() =~= all.skip(i as int + 1));
        }
        i = i + 1;
    }
    let mut r: Vec<String> = Vec::new();
    let mut j: usize = i;
    while j < arguments.len()
        invariant
            i <= j <= all.len(),
            all == arguments.deep_view(),
            all.len() == arguments@.len(),
            r.deep_view() == all.subrange(i as int, j as int),
        decreases all.len() - j,
    {
        let entry = arguments[j].clone();
        proof {
            assert(entry@ == all[j as int]);
        }
        let ghost prior = r@;
        let ghost prior_model = r.deep_view();
        r.push(entry);
        j = j + 1;
        proof {
            let target = all.subrange(i as int, j as int);
            assert(r@.len() == prior.len() + 1);
            assert(prior_model == all.subrange(i as int, j as int - 1));
            assert(prior_model.len() == prior.len());
            assert(r.deep_view().len() == target.len());
            assert forall|k: int| 0 <= k < r.deep_view().len() implies r.deep_view()[k]
                == target[k] by {
                if k < prior.len() {
                    assert(r@[k] == prior[k]);
                    assert(prior_model[k] == target[k]);
                } else {
                    assert(r@[k] == r@.last());
                }
            }
            assert(r.deep_view() =~= target);
        }
    }
    proof {
        assert(all.subrange(i as int, j as int) =~= all.skip(i as int));
        if i < all.len() {
            assert(all.skip(i as int).len() >= 1);
        }
        assert(trimmed_arguments(all.skip(i as int)) == all.skip(i as int));
    }
    r
}

/// The task an argument list selects.
#[derive(Clone, Copy, Debug, PartialEq, Eq, Structural)]
pub enum TaskKind {
    /// Build the workspace, then package every resolved artifact.
    Build,
    /// Package one caller-specified library.
    Pack,
    /// No subcommand of this tool: a fatal condition for the caller.
    Unsupported,
}

/// Which task the first remaining argument selects, by the subcommand
/// name it ends with.
pub open spec fn routed_task(arguments: Seq<Seq<char>>) -> TaskKind {
    if arguments.len() > 0 && is_suffix(arguments[0], "duckdb-ext-build"@) {
        TaskKind::Build
    } else if arguments.len() > 0 && is_suffix(arguments[0], "duckdb-ext-pack"@) {
        TaskKind::Pack
    } else {
        TaskKind::Unsupported
    }
}

/// Selects the task from an already-trimmed argument list.
pub fn route_task(arguments: &Vec<String>) -> (r: TaskKind)
    ensures
        r == routed_task(arguments.deep_view()),
{
    if arguments.len() == 0 {
        return TaskKind::Unsupported;
    }
    if str_ends_with(arguments[0].as_str(), "duckdb-ext-build") {
        return TaskKind::Build;
    }
    if str_ends_with(arguments[0].as_str(), "duckdb-ext-pack") {
        return TaskKind::Pack;
    }
    TaskKind::Unsupported
}

/// The argument list handed to the external build invocation: the build
/// subcommand, the machine-readable output switch, then the caller's
/// pass-through arguments.
pub open spec fn build_invocation(extra: Seq<Seq<char>>) -> Seq<Seq<char>> {
    seq!["build"@, "--message-format=json"@] + extra
}

/// Assembles the arguments for the external build invocation.
pub fn build_arguments(extra: &Vec<String>) -> (r: Vec<String>)
    ensures
        r.deep_view() == build_invocation(extra.deep_view()),
{
    let mut r: Vec<String> = Vec::new();
    r.push(String::from_str("build"));
    r.push(String::from_str("--message-format=json"));
    let mut i: usize = 0;
    proof {
        assert(r.deep_view() =~~= build_invocation(extra.deep_view().take(0)));
    }
    while i < extra.len()
        invariant
            i <= extra@.len(),
            r.deep_view() == build_invocation(extra.deep_view().take(i as int)),
        decreases extra@.len() - i,
    {
        let entry = extra[i].clone();
        proof {
            assert(entry@ == extra.deep_view()[i as int]);
        }
        let ghost prior = r@;
        let ghost prior_model = r.deep_view();
        r.push(entry);
        i = i + 1;
        proof {
            let target = build_invocation(extra.deep_view().take(i as int));
            assert(r@.len() == prior.len() + 1);
            assert(prior_model == build_invocation(extra.deep_view().take(i as int - 1)));
            assert(prior_model.len() == prior.len());
            assert(r.deep_view().len() == target.len());
            assert forall|k: int| 0 <= k < r.deep_view().len() implies r.deep_view()[k]
                == target[k] by {
                if k < prior.len() {
                    assert(r@[k] == prior[k]);
                    assert(prior_model[k] == target[k]);
                } else {
                    assert(r@[k] == r@.last());
                }
            }
            assert(r.deep_view() =~= target);
        }
    }
    proof {
        assert(extra.deep_view().take(i as int) =~= extra.deep_view());
    }
    r
}

} // verus!
