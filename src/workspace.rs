//! Locating the configuration directory and the workspace root.
//!
//! Probing the disk is left to the caller: these functions decide which paths
//! to probe and what the answers mean.
use vstd::prelude::*;
use crate::paths::{join_path, join_spec, parent_dir, parent_spec};

verus! {

/// The name of the directory, under the package root, that holds configuration
/// files when no override is given.
pub const CONFIGS_SUBDIR: &'static str = "configs";

/// The file whose presence marks a directory as a workspace root.
pub const WORKSPACE_MARKER: &'static str = "Cargo.toml";

/// How many ancestor levels the workspace search probes.
pub const WORKSPACE_SEARCH_LEVELS: usize = 3;

/// The configuration directory: the override verbatim when there is one, else
/// the `configs` directory under the package root.
pub open spec fn configs_dir_spec(override_dir: Option<Seq<char>>, package_root: Seq<char>) -> Seq<
    char,
> {
    match override_dir {
        Some(d) => d,
        None => join_spec(package_root, CONFIGS_SUBDIR@),
    }
}

/// Resolves the configuration directory from an optional override and the
/// package root. Creating the directory is the caller's part.
pub fn get_configs_dir(override_dir: Option<String>, package_root: &str) -> (r: String)
    ensures
        r@ == configs_dir_spec(
            match override_dir {
                Some(d) => Some(d@),
                None => None,
            },
            package_root@,
        ),
{
    match override_dir {
        Some(d) => d,
        None => join_path(package_root, CONFIGS_SUBDIR),
    }
}

/// The directories probed for the marker, nearest first: up to `levels`
/// ancestors of `dir`, stopping early at the top.
pub open spec fn probe_dirs(dir: Seq<char>, levels: nat) -> Seq<Seq<char>>
    decreases levels,
{
    if levels == 0 {
        Seq::empty()
    } else {
        match parent_spec(dir) {
            None => Seq::empty(),
            Some(p) => seq![p] + probe_dirs(p, (levels - 1) as nat),
        }
    }
}

/// The outcome of the search from `dir`, where `marks[i]` tells whether the
/// `i`-th probed directory holds the marker: the first ancestor (within
/// `levels`) whose mark is set, else `fallback`.
pub open spec fn search_up(
    dir: Seq<char>,
    levels: nat,
    marks: Seq<bool>,
    i: int,
    fallback: Seq<char>,
) -> Seq<char>
    decreases levels,
{
    if levels == 0 {
        fallback
    } else {
        match parent_spec(dir) {
            None => fallback,
            Some(p) => if 0 <= i < marks.len() && marks[i] {
                p
            } else {
                search_up(p, (levels - 1) as nat, marks, i + 1, fallback)
            },
        }
    }
}

/// The workspace root found from `package_dir`: the nearest of its three
/// closest ancestors that holds the marker, or `package_dir` itself.
pub open spec fn workspace_root_spec(package_dir: Seq<char>, marks: Seq<bool>) -> Seq<char> {
    search_up(package_dir, WORKSPACE_SEARCH_LEVELS as nat, marks, 0, package_dir)
}

/// The path of the marker file inside a directory.
pub fn marker_path(dir: &str) -> (r: String)
    ensures
        r@ == join_spec(dir@, WORKSPACE_MARKER@),
{
    join_path(dir, WORKSPACE_MARKER)
}

/// The directories to probe for the marker, nearest first.
pub fn workspace_candidates(package_dir: &str) -> (r: Vec<String>)
    ensures
        r@.map_values(|s: String| s@) == probe_dirs(package_dir@, WORKSPACE_SEARCH_LEVELS as nat),
{
    let mut out: Vec<String> = Vec::new();
    let mut dir = String::from_str(package_dir);
    let mut i: usize = 0;
    while i < WORKSPACE_SEARCH_LEVELS
        invariant
            i <= WORKSPACE_SEARCH_LEVELS,
            probe_dirs(package_dir@, WORKSPACE_SEARCH_LEVELS as nat) == out@.map_values(
                |s: String| s@,
            ) + probe_dirs(dir@, (WORKSPACE_SEARCH_LEVELS - i) as nat),
        decreases WORKSPACE_SEARCH_LEVELS - i,
    {
        match parent_dir(dir.as_str()) {
            None => {
                assert(out@.map_values(|s: String| s@) + probe_dirs(
                    dir@,
                    (WORKSPACE_SEARCH_LEVELS - i) as nat,
                ) =~= out@.map_values(|s: String| s@));
                return out;
            },
            Some(p) => {
                let ghost old_out = out@;
                out.push(p.clone());
                assert(out@.map_values(|s: String| s@) =~= old_out.map_values(|s: String| s@)
                    + seq![p@]);
                assert(out@.map_values(|s: String| s@) + probe_dirs(
                    p@,
                    (WORKSPACE_SEARCH_LEVELS - (i + 1)) as nat,
                ) =~= old_out.map_values(|s: String| s@) + probe_dirs(
                    dir@,
                    (WORKSPACE_SEARCH_LEVELS - i) as nat,
                ));
                dir = p;
                i = i + 1;
            },
        }
    }
    assert(out@.map_values(|s: String| s@) + probe_dirs(dir@, 0) =~= out@.map_values(
        |s: String| s@,
    ));
    out
}

/// One level of the search: the parent of `package_dir` when it has one and
/// the marker was found in it.
pub fn get_workspace_root_one_lv_up(package_dir: &str, marker_in_parent: bool) -> (r: Option<
    String,
>)
    ensures
        r matches Some(s) ==> marker_in_parent && parent_spec(package_dir@) == Some(s@),
        r is None ==> !marker_in_parent || parent_spec(package_dir@) is None,
{
    match parent_dir(package_dir) {
        Some(p) => if marker_in_parent {
            Some(p)
        } else {
            None
        },
        None => None,
    }
}

/// The workspace root, given for each directory of `workspace_candidates`
/// (by position) whether the marker file is present in it; a missing entry
/// counts as absent.
pub fn get_workspace_root(package_dir: &str, has_marker: &Vec<bool>) -> (r: String)
    ensures
        r@ == workspace_root_spec(package_dir@, has_marker@),
{
    let mut dir = String::from_str(package_dir);
    let mut i: usize = 0;
    while i < WORKSPACE_SEARCH_LEVELS
        invariant
            i <= WORKSPACE_SEARCH_LEVELS,
            workspace_root_spec(package_dir@, has_marker@) == search_up(
                dir@,
                (WORKSPACE_SEARCH_LEVELS - i) as nat,
                has_marker@,
                i as int,
                package_dir@,
            ),
        decreases WORKSPACE_SEARCH_LEVELS - i,
    {
        let marked = i < has_marker.len() && has_marker[i];
        if let Some(root) = get_workspace_root_one_lv_up(dir.as_str(), marked) {
            return root;
        }
        match parent_dir(dir.as_str()) {
            None => {
                return String::from_str(package_dir);
            },
            Some(p) => {
                dir = p;
                i = i + 1;
            },
        }
    }
    String::from_str(package_dir)
}

/// Whether the `n`-th probed directory was reported to hold the marker.
pub open spec fn marked(marks: Seq<bool>, n: int) -> bool {
    0 <= n < marks.len() && marks[n]
}

/// Whether none of the `count` probed directories from the `from`-th on was
/// reported to hold the marker.
pub open spec fn none_marked(marks: Seq<bool>, from: int, count: int) -> bool {
    forall|n: int| from <= n < from + count ==> !#[trigger] marked(marks, n)
}

proof fn lemma_search_up(dir: Seq<char>, levels: nat, marks: Seq<bool>, i: int, fallback: Seq<char>)
    ensures
        ({
            let c = probe_dirs(dir, levels);
            let r = search_up(dir, levels, marks, i, fallback);
            (exists|k: int|
                0 <= k < c.len() && marked(marks, i + k) && r == #[trigger] c[k] && none_marked(
                    marks,
                    i,
                    k,
                )) || (r == fallback && none_marked(marks, i, c.len() as int))
        }),
    decreases levels,
{
    if levels > 0 {
        if let Some(p) = parent_spec(dir) {
            let c = probe_dirs(dir, levels);
            let rest = probe_dirs(p, (levels - 1) as nat);
            let r = search_up(dir, levels, marks, i, fallback);
            assert(c == seq![p] + rest);
            if marked(marks, i) {
                assert(c[0] == p);
                assert(none_marked(marks, i, 0));
            } else {
                lemma_search_up(p, (levels - 1) as nat, marks, i + 1, fallback);
                if exists|k: int|
                    0 <= k < rest.len() && marked(marks, i + 1 + k) && r == #[trigger] rest[k]
                        && none_marked(marks, i + 1, k) {
                    let k = choose|k: int|
                        0 <= k < rest.len() && marked(marks, i + 1 + k) && r == #[trigger] rest[k]
                            && none_marked(marks, i + 1, k);
                    assert(c[k + 1] == rest[k]);
                    assert(i + (k + 1) == i + 1 + k);
                    assert(none_marked(marks, i, k + 1));
                } else {
                    assert(none_marked(marks, i, c.len() as int));
                }
            }
        }
    }
}

/// The workspace search is bounded and takes the nearest hit: its result is
/// either the first of the probed directories (`workspace_candidates`) whose
/// marker was found, or, when none was, the package directory itself.
pub proof fn workspace_root_is_first_marked_candidate(package_dir: Seq<char>, marks: Seq<bool>)
    ensures
        ({
            let c = probe_dirs(package_dir, WORKSPACE_SEARCH_LEVELS as nat);
            let r = workspace_root_spec(package_dir, marks);
            &&& c.len() <= WORKSPACE_SEARCH_LEVELS
            &&& (exists|k: int|
                0 <= k < c.len() && marked(marks, k) && r == #[trigger] c[k] && none_marked(
                    marks,
                    0,
                    k,
                )) || (r == package_dir && none_marked(marks, 0, c.len() as int))
        }),
{
    lemma_search_up(package_dir, WORKSPACE_SEARCH_LEVELS as nat, marks, 0, package_dir);
    lemma_probe_dirs_len(package_dir, WORKSPACE_SEARCH_LEVELS as nat);
}

proof fn lemma_probe_dirs_len(dir: Seq<char>, levels: nat)
    ensures
        probe_dirs(dir, levels).len() <= levels,
    decreases levels,
{
    if levels > 0 {
        if let Some(p) = parent_spec(dir) {
            lemma_probe_dirs_len(p, (levels - 1) as nat);
        }
    }
}

} // verus!
