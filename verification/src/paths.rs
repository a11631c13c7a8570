//! Paths as text, with `/` as the separator.

use vstd::prelude::*;

verus! {

/// The length of `s` without what names nothing at its end: the slashes
/// there, and the components `.` there, which stand for the directory before
/// them. A `.` that is all of the path stays.
pub open spec fn trimmed_len(s: Seq<char>) -> nat
    decreases s.len(),
{
    if s.len() > 0 && s.last() == '/' {
        trimmed_len(s.drop_last())
    } else if s.len() >= 2 && s.last() == '.' && s[s.len() - 2] == '/' {
        trimmed_len(s.drop_last())
    } else {
        s.len()
    }
}

/// Where the last segment of `s` begins: behind the last slash, or at 0 where
/// `s` has none.
pub open spec fn leaf_start(s: Seq<char>) -> nat
    decreases s.len(),
{
    if s.len() == 0 {
        0
    } else if s.last() == '/' {
        s.len()
    } else {
        leaf_start(s.drop_last())
    }
}

/// What stands behind the last slash of `s`; all of `s` where it has none.
pub open spec fn last_segment(s: Seq<char>) -> Seq<char> {
    s.subrange(leaf_start(s) as int, s.len() as int)
}

/// `path` with `leaf` below it: a `leaf` that begins with a slash stands for
/// itself, and a slash is put between the two unless `path` is empty or ends
/// with one.
pub open spec fn joined(path: Seq<char>, leaf: Seq<char>) -> Seq<char> {
    if leaf.len() > 0 && leaf[0] == '/' {
        leaf
    } else if path.len() == 0 || path.last() == '/' {
        path + leaf
    } else {
        path + seq!['/'] + leaf
    }
}

/// The directory that holds `path`, with the slash it ends in: what stands
/// before the last segment once trailing slashes and trailing `.` components
/// are dropped. Empty for a bare name; none for the root and for the empty
/// path.
pub open spec fn parent(path: Seq<char>) -> Option<Seq<char>> {
    let t = path.subrange(0, trimmed_len(path) as int);
    if t.len() == 0 {
        None
    } else {
        Some(t.subrange(0, leaf_start(t) as int))
    }
}

/// A position with a slash before it and none from it on is where the last
/// segment begins.
proof fn lemma_leaf_start_is(s: Seq<char>, k: int)
    requires
        0 <= k <= s.len(),
        k > 0 ==> s[k - 1] == '/',
        forall|j: int| k <= j < s.len() ==> s[j] != '/',
    ensures
        leaf_start(s) == k,
    decreases s.len(),
{
    if s.len() == 0 {
    } else if s.last() == '/' {
    } else {
        lemma_leaf_start_is(s.drop_last(), k);
    }
}

fn trimmed_length(s: &str) -> (k: usize)
    ensures
        k == trimmed_len(s@),
        k <= s@.len(),
{
    let mut k: usize = s.unicode_len();
    assert(s@.subrange(0, k as int) =~= s@);
    loop
        invariant
            k <= s@.len(),
            trimmed_len(s@.subrange(0, k as int)) == trimmed_len(s@),
        ensures
            k == trimmed_len(s@),
        decreases k,
    {
        let ghost now = s@.subrange(0, k as int);
        if k > 0 && s.get_char(k - 1) == '/' {
            assert(now.drop_last() =~= s@.subrange(0, k - 1));
            k -= 1;
        } else if k >= 2 && s.get_char(k - 1) == '.' && s.get_char(k - 2) == '/' {
            assert(now.drop_last() =~= s@.subrange(0, k - 1));
            k -= 1;
        } else {
            assert(trimmed_len(now) == k);
            break;
        }
    }
    k
}

fn leaf_position(s: &str) -> (k: usize)
    ensures
        k == leaf_start(s@),
        k <= s@.len(),
{
    let mut k: usize = s.unicode_len();
    while k > 0 && s.get_char(k - 1) != '/'
        invariant
            k <= s@.len(),
            forall|j: int| k <= j < s@.len() ==> s@[j] != '/',
        decreases k,
    {
        k -= 1;
    }
    proof {
        lemma_leaf_start_is(s@, k as int);
    }
    k
}

/// The text behind the last slash of `s`.
pub fn file_name(s: &str) -> (r: String)
    ensures
        r@ == last_segment(s@),
{
    let k: usize = leaf_position(s);
    let n: usize = s.unicode_len();
    String::from_str(s.substring_char(k, n))
}

/// Puts `leaf` below `path`.
pub fn join(path: &str, leaf: &str) -> (r: String)
    ensures
        r@ == joined(path@, leaf@),
{
    let n: usize = path.unicode_len();
    if leaf.unicode_len() > 0 && leaf.get_char(0) == '/' {
        String::from_str(leaf)
    } else if n == 0 || path.get_char(n - 1) == '/' {
        let mut r = String::from_str(path);
        r.append(leaf);
        r
    } else {
        let mut r = String::from_str(path);
        r.append("/");
        r.append(leaf);
        proof {
            reveal_strlit("/");
            assert("/"@ =~= seq!['/']);
        }
        r
    }
}

/// The directory that holds `path`, or nothing where `path` names the root
/// or is empty.
pub fn parent_dir(path: &str) -> (r: Option<String>)
    ensures
        match r {
            Some(p) => parent(path@) == Some(p@),
            None => parent(path@) is None,
        },
{
    let k: usize = trimmed_length(path);
    if k == 0 {
        None
    } else {
        let t = path.substring_char(0, k);
        let m: usize = leaf_position(t);
        Some(String::from_str(t.substring_char(0, m)))
    }
}

} // verus!
