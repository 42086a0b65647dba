//! The worker-script locator.
//!
//! The worker program has no guaranteed install location. The locator builds
//! an ordered candidate list by walking upward from the working directory
//! (the directory itself, its parent, its grandparent, and the ancestor four
//! levels up, each only where it exists) plus one fixed absolute fallback,
//! and selects the first candidate that exists on disk. Existence is supplied
//! by the caller as one flag per candidate, probed at call time.

use vstd::prelude::*;
use crate::host::Platform;
use crate::paths::{join, join_path, parent_dir, parent_of, views_of};

verus! {

/// The file name of the external worker program.
pub open spec fn worker_file_name() -> Seq<char> {
    "main.py"@
}

/// The fixed absolute fallback location of the worker program.
pub open spec fn fallback_path() -> Seq<char> {
    "D:/projects/youtube_download/main.py"@
}

/// The ancestor of `p` that lies `k` parent steps up, where every step exists.
pub open spec fn ancestor(platform: Platform, p: Seq<char>, k: nat) -> Option<Seq<char>>
    decreases k,
{
    if k == 0 {
        Some(p)
    } else {
        match ancestor(platform, p, (k - 1) as nat) {
            Some(a) => parent_of(platform, a),
            None => None,
        }
    }
}

/// The ordered candidate locations of the worker file for working directory
/// `cwd`: the ancestors at depth 0, 1, 2 and 4 (each only where that deep a
/// parent chain exists), each joined with the worker file name, then the
/// fixed fallback.
pub open spec fn candidate_paths(platform: Platform, cwd: Seq<char>) -> Seq<Seq<char>> {
    let c0 = seq![join_path(platform, cwd, worker_file_name())];
    let c1 = match ancestor(platform, cwd, 1) {
        Some(a) => c0.push(join_path(platform, a, worker_file_name())),
        None => c0,
    };
    let c2 = match ancestor(platform, cwd, 2) {
        Some(a) => c1.push(join_path(platform, a, worker_file_name())),
        None => c1,
    };
    let c4 = match ancestor(platform, cwd, 4) {
        Some(a) => c2.push(join_path(platform, a, worker_file_name())),
        None => c2,
    };
    c4.push(fallback_path())
}

/// The ordered candidate locations of the worker file, freshly computed from
/// the working directory `cwd`.
pub fn build_candidates(platform: Platform, cwd: &str) -> (r: Vec<String>)
    ensures
        views_of(r@) == candidate_paths(platform, cwd@),
{
    proof {
        assert(ancestor(platform, cwd@, 0) == Some(cwd@));
    }
    let mut v: Vec<String> = Vec::new();
    v.push(join(platform, cwd, "main.py"));
    if let Some(d1) = parent_dir(platform, cwd) {
        proof {
            assert(ancestor(platform, cwd@, 1) == Some(d1@));
        }
        v.push(join(platform, d1.as_str(), "main.py"));
        if let Some(d2) = parent_dir(platform, d1.as_str()) {
            proof {
                assert(ancestor(platform, cwd@, 2) == Some(d2@));
            }
            v.push(join(platform, d2.as_str(), "main.py"));
            if let Some(d3) = parent_dir(platform, d2.as_str()) {
                proof {
                    assert(ancestor(platform, cwd@, 3) == Some(d3@));
                }
                if let Some(d4) = parent_dir(platform, d3.as_str()) {
                    proof {
                        assert(ancestor(platform, cwd@, 4) == Some(d4@));
                    }
                    v.push(join(platform, d4.as_str(), "main.py"));
                } else {
                    proof {
                        assert(ancestor(platform, cwd@, 4) is None);
                    }
                }
            } else {
                proof {
                    assert(ancestor(platform, cwd@, 3) is None);
                    assert(ancestor(platform, cwd@, 4) is None);
                }
            }
        } else {
            proof {
                assert(ancestor(platform, cwd@, 2) is None);
                assert(ancestor(platform, cwd@, 3) is None);
                assert(ancestor(platform, cwd@, 4) is None);
            }
        }
    } else {
        proof {
            assert(ancestor(platform, cwd@, 1) is None);
            assert(ancestor(platform, cwd@, 2) is None);
            assert(ancestor(platform, cwd@, 3) is None);
            assert(ancestor(platform, cwd@, 4) is None);
        }
    }
    v.push(String::from_str("D:/projects/youtube_download/main.py"));
    proof {
        assert(views_of(v@) =~= candidate_paths(platform, cwd@));
    }
    v
}

/// The candidate list is bounded: probing it costs at least two and at most
/// five existence checks, whatever the working directory.
pub proof fn lemma_candidates_bounded(platform: Platform, cwd: Seq<char>)
    ensures
        2 <= candidate_paths(platform, cwd).len() <= 5,
{
}

/// Index of the first `true` in `present`, or `None` if all are `false`.
pub open spec fn first_existing(present: Seq<bool>) -> Option<int>
    decreases present.len(),
{
    if present.len() == 0 {
        None
    } else if present[0] {
        Some(0int)
    } else {
        match first_existing(present.drop_first()) {
            Some(i) => Some(i + 1),
            None => None,
        }
    }
}

/// What `first_existing` selects: the smallest index that holds `true`,
/// or nothing when no index does.
pub proof fn lemma_first_existing_characterization(present: Seq<bool>)
    ensures
        match first_existing(present) {
            Some(i) => 0 <= i < present.len() && present[i] && forall|j: int|
                0 <= j < i ==> !present[j],
            None => forall|j: int| 0 <= j < present.len() ==> !present[j],
        },
    decreases present.len(),
{
    if present.len() == 0 {
    } else if present[0] {
    } else {
        lemma_first_existing_characterization(present.drop_first());
        assert(forall|j: int|
            1 <= j < present.len() ==> present[j] == present.drop_first()[j - 1]);
    }
}

/// If the worker file exists at exactly one candidate, the locator selects
/// that candidate and no other.
pub proof fn lemma_locator_unique_candidate(present: Seq<bool>, i: int)
    requires
        0 <= i < present.len(),
        present[i],
        forall|j: int| 0 <= j < present.len() && j != i ==> !present[j],
    ensures
        first_existing(present) == Some(i),
{
    lemma_first_existing_characterization(present);
}

/// If the worker file exists at no candidate, the locator selects nothing.
pub proof fn lemma_locator_all_absent(present: Seq<bool>)
    requires
        forall|j: int| 0 <= j < present.len() ==> !present[j],
    ensures
        first_existing(present) is None,
{
    lemma_first_existing_characterization(present);
}

/// When several candidates exist at once, the locator selects the
/// first-probed (shallowest) of them, never a deeper one.
pub proof fn lemma_locator_shallowest(present: Seq<bool>, i: int, j: int)
    requires
        0 <= i < j < present.len(),
        present[i],
    ensures
        first_existing(present) is Some,
        first_existing(present)->Some_0 <= i,
        first_existing(present) != Some(j),
{
    lemma_first_existing_characterization(present);
}

/// `p` wrapped in double quotes.
pub open spec fn quoted(p: Seq<char>) -> Seq<char> {
    "\""@ + p + "\""@
}

/// The elements of `ps`, each double-quoted, separated by commas.
pub open spec fn rendered_paths(ps: Seq<Seq<char>>) -> Seq<char>
    decreases ps.len(),
{
    if ps.len() == 0 {
        Seq::empty()
    } else if ps.len() == 1 {
        quoted(ps[0])
    } else {
        rendered_paths(ps.drop_last()) + ", "@ + quoted(ps.last())
    }
}

/// The diagnostic produced when the worker file exists at no candidate:
/// it lists exactly the probed candidates, in probe order.
pub open spec fn not_found_message(ps: Seq<Seq<char>>) -> Seq<char> {
    "Could not find main.py. Searched in: ["@ + rendered_paths(ps) + "]"@
}

/// Renders the candidate list as a bracketed, comma-separated list of
/// quoted paths.
fn render_paths(ps: &Vec<String>) -> (r: String)
    ensures
        r@ == rendered_paths(views_of(ps@)),
{
    let ghost vs = views_of(ps@);
    let mut s = String::new();
    let n = ps.len();
    let mut i: usize = 0;
    while i < n
        invariant
            i <= n,
            n == ps@.len(),
            vs == views_of(ps@),
            vs.len() == n,
            s@ == rendered_paths(vs.take(i as int)),
        decreases n - i,
    {
        if i > 0 {
            s.append(", ");
        }
        s.append("\"");
        s.append(ps[i].as_str());
        s.append("\"");
        proof {
            assert(vs.take(i + 1).drop_last() =~= vs.take(i as int));
            assert(vs.take(i + 1).last() == vs[i as int]);
            assert(vs[i as int] == ps@[i as int]@);
        }
        i = i + 1;
    }
    proof {
        assert(vs.take(n as int) =~= vs);
    }
    s
}

/// Selects the worker path: the first candidate whose presence flag is set.
/// When none is set, fails with a diagnostic that lists exactly the probed
/// candidates.
pub fn locate_worker(candidates: &Vec<String>, present: &Vec<bool>) -> (r: Result<String, String>)
    requires
        candidates@.len() == present@.len(),
    ensures
        match first_existing(present@) {
            Some(i) => r is Ok && r->Ok_0@ == candidates@[i]@,
            None => r is Err && r->Err_0@ == not_found_message(views_of(candidates@)),
        },
{
    let n = present.len();
    let mut i: usize = 0;
    while i < n
        invariant
            i <= n,
            n == present@.len(),
            candidates@.len() == n,
            forall|j: int| 0 <= j < i ==> !present@[j],
        decreases n - i,
    {
        if present[i] {
            proof {
                lemma_first_existing_characterization(present@);
            }
            return Ok(candidates[i].clone());
        }
        i = i + 1;
    }
    proof {
        lemma_first_existing_characterization(present@);
    }
    let mut msg = String::from_str("Could not find main.py. Searched in: [");
    let rendered = render_paths(candidates);
    msg.append(rendered.as_str());
    msg.append("]");
    Err(msg)
}

} // verus!
