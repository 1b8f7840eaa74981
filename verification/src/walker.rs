//! The file filter of the tree walk: out of the entries found under the
//! working copy, keep exactly the regular files whose path matches neither
//! exclusion pattern.
//!
//! Walking the directory tree is filesystem work and happens outside the
//! library; the walk hands its entries here as plain values, and the
//! decision which of them become rewrite candidates is verified.

use crate::rewrite::regex_is_match;
use crate::rewrite::regex_matches;
use crate::rewrite::regex_valid;
use vstd::prelude::*;

verus! {

/// One entry the directory walk found: its full path and whether it is a
/// regular file.
#[derive(Clone, Debug)]
pub struct WalkEntry {
    /// The entry's full path, as the walk renders it.
    pub path: String,
    /// Whether the entry is a regular file (not a directory or a link).
    pub is_file: bool,
}

/// Whether an entry becomes a rewrite candidate: it must be a regular file
/// and its whole path must match neither the directory-exclusion pattern
/// nor the file-exclusion pattern.
pub open spec fn kept_entry(dir_pat: Seq<char>, file_pat: Seq<char>, e: WalkEntry) -> bool {
    e.is_file && !regex_matches(dir_pat, e.path@) && !regex_matches(file_pat, e.path@)
}

/// Selects the rewrite candidates among the walked entries, in the walk's
/// order. Returns `None` exactly when one of the exclusion patterns does
/// not compile; otherwise the result holds exactly the paths of the kept
/// entries, and in particular never a path that matches either exclusion
/// pattern.
#[verifier::loop_isolation(false)]
pub fn filter_candidates(entries: &Vec<WalkEntry>, dir_pat: &str, file_pat: &str) -> (r:
    Option<Vec<String>>)
    ensures
        r is Some <==> (regex_valid(dir_pat@) && regex_valid(file_pat@)),
        r matches Some(v) ==> v@.map_values(|s: String| s@) == entries@.filter(
            |e: WalkEntry| kept_entry(dir_pat@, file_pat@, e),
        ).map_values(|e: WalkEntry| e.path@),
        r matches Some(v) ==> forall|i: int|
            0 <= i < v@.len() ==> !regex_matches(dir_pat@, (#[trigger] v@[i])@)
                && !regex_matches(file_pat@, v@[i]@),
{
    if regex_is_match(dir_pat, "").is_none() {
        return Option::None;
    }
    if regex_is_match(file_pat, "").is_none() {
        return Option::None;
    }
    let ghost pred = |e: WalkEntry| kept_entry(dir_pat@, file_pat@, e);
    let mut out: Vec<String> = Vec::new();
    let mut i: usize = 0;
    while i < entries.len()
        invariant
            regex_valid(dir_pat@),
            regex_valid(file_pat@),
            i <= entries@.len(),
            out@.map_values(|s: String| s@) == entries@.subrange(0, i as int).filter(
                pred,
            ).map_values(|e: WalkEntry| e.path@),
            forall|k: int|
                0 <= k < out@.len() ==> !regex_matches(dir_pat@, (#[trigger] out@[k])@)
                    && !regex_matches(file_pat@, out@[k]@),
        decreases entries@.len() - i,
    {
        let entry = &entries[i];
        let keep: bool = if !entry.is_file {
            false
        } else {
            let in_excluded_dir = regex_is_match(dir_pat, entry.path.as_str()).unwrap();
            if in_excluded_dir {
                false
            } else {
                let excluded_file = regex_is_match(file_pat, entry.path.as_str()).unwrap();
                !excluded_file
            }
        };
        proof {
            assert(keep == pred(entries@[i as int]));
        }
        let ghost old_out = out@;
        if keep {
            out.push(entry.path.clone());
        }
        proof {
            broadcast use vstd::seq_lib::group_seq_lib_default;

            let pre = entries@.subrange(0, i as int);
            let post = entries@.subrange(0, i as int + 1);
            assert(post =~= pre.push(entries@[i as int]));
            Seq::lemma_filter_push(pre, entries@[i as int], pred);
            if keep {
                assert(out@.map_values(|s: String| s@) =~= old_out.map_values(
                    |s: String| s@,
                ).push(entries@[i as int].path@));
                assert(post.filter(pred).map_values(|e: WalkEntry| e.path@) =~= pre.filter(
                    pred,
                ).map_values(|e: WalkEntry| e.path@).push(entries@[i as int].path@));
            } else {
                assert(post.filter(pred).map_values(|e: WalkEntry| e.path@) =~= pre.filter(
                    pred,
                ).map_values(|e: WalkEntry| e.path@));
            }
        }
        i += 1;
    }
    proof {
        assert(entries@.subrange(0, entries@.len() as int) =~= entries@);
    }
    Option::Some(out)
}

} // verus!
