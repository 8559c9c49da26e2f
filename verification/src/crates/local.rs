//! Local package sources: nothing is fetched or cached; copying the source
//! walks the tree, skips a top-level `target/` directory, and reproduces
//! the relative structure at the destination.

use vstd::prelude::*;
use vstd::string::*;
use crate::text;

verus! {

/// A crate in a local directory.
pub struct Local {
    /// The directory holding the crate.
    pub path: String,
}

impl Local {
    /// A local source for the given directory.
    pub fn new(path: &str) -> (r: Self)
        ensures
            r.path@ == path@,
    {
        Local { path: path.to_owned() }
    }
}

/// One entry of a source tree walk, relative to the tree's root.
#[derive(Debug, PartialEq, Clone)]
pub struct WalkEntry {
    /// The entry's path relative to the root, with `/` separators.
    pub rel_path: String,
    /// Whether the entry is a directory.
    pub is_dir: bool,
}

/// One action of a copy plan.
#[derive(Debug, PartialEq)]
pub enum CopyAction {
    /// Create this directory under the destination.
    CreateDir(String),
    /// Copy this file from the source to the destination.
    CopyFile(String),
}

/// The relative path and kind an action concerns.
pub open spec fn action_view(a: CopyAction) -> (Seq<char>, bool) {
    match a {
        CopyAction::CreateDir(p) => (p@, true),
        CopyAction::CopyFile(p) => (p@, false),
    }
}

/// The views of a list of actions.
pub open spec fn actions_view(v: Seq<CopyAction>) -> Seq<(Seq<char>, bool)> {
    v.map_values(|a: CopyAction| action_view(a))
}

/// Whether a relative path lies in the top-level `target/` tree, which is
/// not copied.
pub open spec fn under_top_target(p: Seq<char>) -> bool {
    p == "target"@ || text::starts_with_spec(p, "target/"@)
}

/// The entries that are copied, in walk order: everything outside the
/// top-level `target/` tree.
pub open spec fn copy_plan_rep(entries: Seq<WalkEntry>) -> Seq<(Seq<char>, bool)>
    decreases entries.len(),
{
    if entries.len() == 0 {
        Seq::empty()
    } else if under_top_target(entries[0].rel_path@) {
        copy_plan_rep(entries.subrange(1, entries.len() as int))
    } else {
        seq![(entries[0].rel_path@, entries[0].is_dir)] + copy_plan_rep(
            entries.subrange(1, entries.len() as int),
        )
    }
}

/// Plan the copy of a walked source tree: a directory creation for every
/// directory and a file copy for every file, in walk order, skipping the
/// top-level `target/` tree.
pub fn copy_plan(entries: &Vec<WalkEntry>) -> (r: Vec<CopyAction>)
    ensures
        actions_view(r@) == copy_plan_rep(entries@),
{
    let mut out: Vec<CopyAction> = Vec::new();
    proof {
        assert(entries@.subrange(0, entries@.len() as int) =~= entries@);
        assert(actions_view(out@) =~= Seq::<(Seq<char>, bool)>::empty());
        if copy_plan_rep(entries@).len() >= 0 {
            assert(Seq::<(Seq<char>, bool)>::empty() + copy_plan_rep(entries@) =~= copy_plan_rep(
                entries@,
            ));
        }
    }
    let mut i: usize = 0;
    while i < entries.len()
        invariant
            0 <= i <= entries@.len(),
            actions_view(out@) + copy_plan_rep(entries@.subrange(i as int, entries@.len() as int))
                == copy_plan_rep(entries@),
        decreases entries@.len() - i,
    {
        let e = vstd::std_specs::vec::vec_index(entries, i);
        let ghost rest = entries@.subrange(i as int, entries@.len() as int);
        proof {
            assert(rest[0] == entries@[i as int]);
            assert(rest.subrange(1, rest.len() as int) =~= entries@.subrange(
                i + 1,
                entries@.len() as int,
            ));
        }
        let skip = text::str_eq(e.rel_path.as_str(), "target") || text::starts_with(
            e.rel_path.as_str(),
            "target/",
        );
        if !skip {
            let ghost before = out@;
            if e.is_dir {
                out.push(CopyAction::CreateDir(e.rel_path.clone()));
            } else {
                out.push(CopyAction::CopyFile(e.rel_path.clone()));
            }
            proof {
                assert(actions_view(out@) =~= actions_view(before).push(
                    (entries@[i as int].rel_path@, entries@[i as int].is_dir),
                ));
                assert(actions_view(before) + (seq![
                    (entries@[i as int].rel_path@, entries@[i as int].is_dir),
                ] + copy_plan_rep(rest.subrange(1, rest.len() as int))) =~= actions_view(out@)
                    + copy_plan_rep(rest.subrange(1, rest.len() as int)));
            }
        }
        i += 1;
    }
    proof {
        assert(entries@.subrange(entries@.len() as int, entries@.len() as int)
            =~= Seq::<WalkEntry>::empty());
        assert(actions_view(out@) + copy_plan_rep(Seq::<WalkEntry>::empty()) =~= actions_view(
            out@,
        ));
    }
    out
}

/// Every entry outside the top-level `target/` tree is in the plan.
pub proof fn lemma_copy_plan_complete(entries: Seq<WalkEntry>, i: int)
    requires
        0 <= i < entries.len(),
        !under_top_target(entries[i].rel_path@),
    ensures
        copy_plan_rep(entries).contains((entries[i].rel_path@, entries[i].is_dir)),
    decreases entries.len(),
{
    let tail = entries.subrange(1, entries.len() as int);
    if i == 0 {
        let plan = copy_plan_rep(entries);
        assert(plan[0] == (entries[0].rel_path@, entries[0].is_dir));
    } else {
        assert(tail[i - 1] == entries[i]);
        lemma_copy_plan_complete(tail, i - 1);
        let k = choose|k: int|
            0 <= k < copy_plan_rep(tail).len() && copy_plan_rep(tail)[k] == (
                entries[i].rel_path@,
                entries[i].is_dir,
            );
        if under_top_target(entries[0].rel_path@) {
            assert(copy_plan_rep(entries)[k] == copy_plan_rep(tail)[k]);
        } else {
            assert(copy_plan_rep(entries)[k + 1] == copy_plan_rep(tail)[k]);
        }
    }
}

/// Everything in the plan is an entry outside the top-level `target/`
/// tree.
pub proof fn lemma_copy_plan_sound(entries: Seq<WalkEntry>, j: int)
    requires
        0 <= j < copy_plan_rep(entries).len(),
    ensures
        !under_top_target(copy_plan_rep(entries)[j].0),
        exists|i: int|
            0 <= i < entries.len() && (#[trigger] entries[i]).rel_path@ == copy_plan_rep(
                entries,
            )[j].0 && entries[i].is_dir == copy_plan_rep(entries)[j].1,
    decreases entries.len(),
{
    let tail = entries.subrange(1, entries.len() as int);
    if entries.len() == 0 {
    } else if under_top_target(entries[0].rel_path@) {
        lemma_copy_plan_sound(tail, j);
        let i = choose|i: int|
            0 <= i < tail.len() && (#[trigger] tail[i]).rel_path@ == copy_plan_rep(tail)[j].0
                && tail[i].is_dir == copy_plan_rep(tail)[j].1;
        assert(entries[i + 1] == tail[i]);
    } else {
        if j == 0 {
            assert(copy_plan_rep(entries)[0] == (entries[0].rel_path@, entries[0].is_dir));
        } else {
            assert(copy_plan_rep(entries)[j] == copy_plan_rep(tail)[j - 1]);
            lemma_copy_plan_sound(tail, j - 1);
            let i = choose|i: int|
                0 <= i < tail.len() && (#[trigger] tail[i]).rel_path@ == copy_plan_rep(
                    tail,
                )[j - 1].0 && tail[i].is_dir == copy_plan_rep(tail)[j - 1].1;
            assert(entries[i + 1] == tail[i]);
        }
    }
}

} // verus!
