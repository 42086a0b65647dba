//! Path strings and the parent-directory operation.
//!
//! Paths are plain strings whose syntax depends on the host platform: `/`
//! separates components everywhere, and `\` separates only on Windows. The
//! parent operation agrees with the standard library's `Path::parent` on
//! paths free of Windows drive prefixes and of `.` components: trailing
//! separators are ignored, an empty path or one of separators alone has no
//! parent, the parent of a single component is the empty path, and a
//! top-level absolute path keeps its root separators. Joining likewise
//! inserts the platform's separator only where one is needed.

use vstd::prelude::*;
use crate::host::Platform;

verus! {

/// The views of a sequence of owned strings.
pub open spec fn views_of(ss: Seq<String>) -> Seq<Seq<char>> {
    ss.map_values(|s: String| s@)
}

/// A path-separator character on `platform`.
pub open spec fn is_separator(platform: Platform, c: char) -> bool {
    c == '/' || (c == '\\' && platform is Windows)
}

/// The separator `platform` inserts when joining.
pub open spec fn main_separator(platform: Platform) -> char {
    match platform {
        Platform::Windows => '\\',
        Platform::MacOs => '/',
        Platform::Linux => '/',
    }
}

/// `s` with its trailing separators removed.
pub open spec fn strip_trailing_seps(platform: Platform, s: Seq<char>) -> Seq<char>
    decreases s.len(),
{
    if s.len() > 0 && is_separator(platform, s.last()) {
        strip_trailing_seps(platform, s.drop_last())
    } else {
        s
    }
}

/// Index of the last separator in `s`, or -1 if `s` has none.
pub open spec fn last_sep(platform: Platform, s: Seq<char>) -> int
    decreases s.len(),
{
    if s.len() == 0 {
        -1
    } else if is_separator(platform, s[s.len() - 1]) {
        s.len() - 1
    } else {
        last_sep(platform, s.drop_last())
    }
}

/// The parent directory of `s`: the path without its final component and
/// the separators before it.
/// An empty path, or one of separators alone, has no parent; a single
/// component's parent is the empty path; a top-level absolute path's parent
/// is its root separators.
pub open spec fn parent_of(platform: Platform, s: Seq<char>) -> Option<Seq<char>> {
    let t = strip_trailing_seps(platform, s);
    if t.len() == 0 {
        None
    } else if last_sep(platform, t) < 0 {
        Some(Seq::empty())
    } else {
        let k = last_sep(platform, t);
        let q = strip_trailing_seps(platform, t.subrange(0, k));
        if q.len() == 0 {
            Some(t.subrange(0, k + 1))
        } else {
            Some(q)
        }
    }
}

/// `dir` and `name` joined: the platform's separator is inserted only when
/// `dir` is nonempty and does not already end in a separator.
pub open spec fn join_path(platform: Platform, dir: Seq<char>, name: Seq<char>) -> Seq<char> {
    if dir.len() == 0 {
        name
    } else if is_separator(platform, dir.last()) {
        dir + name
    } else {
        dir + seq![main_separator(platform)] + name
    }
}

/// Whether `c` separates path components on `platform`.
fn is_sep_char(platform: Platform, c: char) -> (r: bool)
    ensures
        r == is_separator(platform, c),
{
    match platform {
        Platform::Windows => c == '/' || c == '\\',
        Platform::MacOs => c == '/',
        Platform::Linux => c == '/',
    }
}

/// Stripping separators from the end of `s` keeps exactly its first `e`
/// characters, where `e` bounds the separator-only suffix.
proof fn lemma_strip_trailing_seps(platform: Platform, s: Seq<char>, e: int)
    requires
        0 <= e <= s.len(),
        forall|j: int| e <= j < s.len() ==> is_separator(platform, s[j]),
        e > 0 ==> !is_separator(platform, s[e - 1]),
    ensures
        strip_trailing_seps(platform, s) == s.subrange(0, e),
    decreases s.len(),
{
    if s.len() == 0 {
        assert(s.subrange(0, 0) =~= s);
    } else if is_separator(platform, s.last()) {
        assert(e < s.len());
        assert(s.drop_last() =~= s.subrange(0, s.len() - 1));
        lemma_strip_trailing_seps(platform, s.drop_last(), e);
        assert(s.drop_last().subrange(0, e) =~= s.subrange(0, e));
    } else {
        assert(e == s.len());
        assert(s.subrange(0, e) =~= s);
    }
}

/// If `k` is a separator position and no later position is one, it is the last.
proof fn lemma_last_sep_found(platform: Platform, s: Seq<char>, k: int)
    requires
        0 <= k < s.len(),
        is_separator(platform, s[k]),
        forall|j: int| k < j < s.len() ==> !is_separator(platform, s[j]),
    ensures
        last_sep(platform, s) == k,
    decreases s.len(),
{
    if k == s.len() - 1 {
    } else {
        assert(!is_separator(platform, s[s.len() - 1]));
        assert(s.drop_last() =~= s.subrange(0, s.len() - 1));
        lemma_last_sep_found(platform, s.drop_last(), k);
    }
}

/// A string with no separator has no last separator.
proof fn lemma_last_sep_none(platform: Platform, s: Seq<char>)
    requires
        forall|j: int| 0 <= j < s.len() ==> !is_separator(platform, s[j]),
    ensures
        last_sep(platform, s) == -1,
    decreases s.len(),
{
    if s.len() > 0 {
        assert(s.drop_last() =~= s.subrange(0, s.len() - 1));
        lemma_last_sep_none(platform, s.drop_last());
    }
}

/// The length of `p`'s first `m` characters once trailing separators are
/// stripped from them.
fn strip_suffix_seps(platform: Platform, p: &str, m: usize) -> (e: usize)
    requires
        m <= p@.len(),
    ensures
        e <= m,
        strip_trailing_seps(platform, p@.subrange(0, m as int)) == p@.subrange(0, e as int),
{
    let mut e = m;
    while e > 0
        invariant
            e <= m,
            m <= p@.len(),
            forall|j: int| e <= j < m ==> is_separator(platform, p@[j]),
        decreases e,
    {
        if !is_sep_char(platform, p.get_char(e - 1)) {
            proof {
                lemma_strip_trailing_seps(platform, p@.subrange(0, m as int), e as int);
            }
            return e;
        }
        e = e - 1;
    }
    proof {
        lemma_strip_trailing_seps(platform, p@.subrange(0, m as int), 0);
    }
    0
}

/// Index of the last separator among `p`'s first `e` characters.
fn last_sep_index(platform: Platform, p: &str, e: usize) -> (r: Option<usize>)
    requires
        e <= p@.len(),
    ensures
        match r {
            Some(k) => k < e && last_sep(platform, p@.subrange(0, e as int)) == k as int,
            None => last_sep(platform, p@.subrange(0, e as int)) == -1,
        },
{
    let mut i = e;
    while i > 0
        invariant
            i <= e,
            e <= p@.len(),
            forall|j: int| i <= j < e ==> !is_separator(platform, p@[j]),
        decreases i,
    {
        if is_sep_char(platform, p.get_char(i - 1)) {
            proof {
                lemma_last_sep_found(platform, p@.subrange(0, e as int), i - 1);
            }
            return Some(i - 1);
        }
        i = i - 1;
    }
    proof {
        lemma_last_sep_none(platform, p@.subrange(0, e as int));
    }
    None
}

/// The parent directory of `p`, or `None` when `p` is empty or holds
/// separators alone.
pub fn parent_dir(platform: Platform, p: &str) -> (r: Option<String>)
    ensures
        match r {
            Some(d) => parent_of(platform, p@) == Some(d@),
            None => parent_of(platform, p@) is None,
        },
{
    let n = p.unicode_len();
    proof {
        assert(p@.subrange(0, n as int) =~= p@);
    }
    let e = strip_suffix_seps(platform, p, n);
    if e == 0 {
        return None;
    }
    let ghost t = strip_trailing_seps(platform, p@);
    match last_sep_index(platform, p, e) {
        None => Some(String::new()),
        Some(k) => {
            proof {
                assert(t.subrange(0, k as int) =~= p@.subrange(0, k as int));
            }
            let q = strip_suffix_seps(platform, p, k);
            if q == 0 {
                proof {
                    assert(t.subrange(0, k + 1) =~= p@.subrange(0, k + 1));
                }
                Some(String::from_str(p.substring_char(0, k + 1)))
            } else {
                Some(String::from_str(p.substring_char(0, q)))
            }
        },
    }
}

/// `dir` and `name` joined, inserting the platform's separator only where
/// one is needed.
pub fn join(platform: Platform, dir: &str, name: &str) -> (r: String)
    ensures
        r@ == join_path(platform, dir@, name@),
{
    let n = dir.unicode_len();
    if n == 0 {
        return String::from_str(name);
    }
    let mut s = String::from_str(dir);
    if !is_sep_char(platform, dir.get_char(n - 1)) {
        match platform {
            Platform::Windows => {
                s.append("\\");
                proof {
                    reveal_strlit("\\");
                    assert("\\"@ =~= seq![main_separator(platform)]);
                }
            },
            Platform::MacOs => {
                s.append("/");
                proof {
                    reveal_strlit("/");
                    assert("/"@ =~= seq![main_separator(platform)]);
                }
            },
            Platform::Linux => {
                s.append("/");
                proof {
                    reveal_strlit("/");
                    assert("/"@ =~= seq![main_separator(platform)]);
                }
            },
        }
    }
    s.append(name);
    s
}

} // verus!
