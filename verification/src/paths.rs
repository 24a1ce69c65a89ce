//! Directory-path arithmetic.
//!
//! A browsed path is a string that always ends with the separator `/`.
//! Going up removes the final segment together with its trailing
//! separator, keeping the separator that closed the segment before it.

use vstd::prelude::*;
use vstd::string::StrSliceExecFns;
use vstd::pervasive::unreached;

verus! {

/// The index of the last separator in `s`, or -1 if `s` has none.
pub open spec fn last_slash(s: Seq<char>) -> int
    decreases s.len(),
{
    if s.len() == 0 {
        -1
    } else if s.last() == '/' {
        s.len() - 1
    } else {
        last_slash(s.drop_last())
    }
}

/// The parent of a directory path that ends with a separator: the final
/// segment and its trailing separator are removed, and the separator
/// before it is kept, so the result ends with a separator again.
pub open spec fn parent_of(p: Seq<char>) -> Seq<char> {
    let q = p.drop_last();
    q.subrange(0, last_slash(q) + 1)
}

/// `last_slash` stays inside the string, points at a separator, and no
/// separator follows it.
pub proof fn lemma_last_slash_bounds(s: Seq<char>)
    ensures
        -1 <= last_slash(s) < s.len(),
        last_slash(s) >= 0 ==> s[last_slash(s)] == '/',
        forall|j: int| last_slash(s) < j < s.len() ==> s[j] != '/',
    decreases s.len(),
{
    if s.len() == 0 {
    } else if s.last() == '/' {
    } else {
        lemma_last_slash_bounds(s.drop_last());
        assert forall|j: int| last_slash(s) < j < s.len() implies s[j] != '/' by {
            if j < s.len() - 1 {
                assert(s.drop_last()[j] == s[j]);
            }
        }
    }
}

/// A separator with no separator after it is the last one.
pub proof fn lemma_last_slash_at(s: Seq<char>, i: int)
    requires
        0 <= i < s.len(),
        s[i] == '/',
        forall|k: int| i < k < s.len() ==> s[k] != '/',
    ensures
        last_slash(s) == i,
    decreases s.len(),
{
    if s.last() == '/' {
        assert(i == s.len() - 1);
    } else {
        assert(s.drop_last()[i] == s[i]);
        assert forall|k: int| i < k < s.drop_last().len() implies s.drop_last()[k] != '/' by {
            assert(s.drop_last()[k] == s[k]);
        }
        lemma_last_slash_at(s.drop_last(), i);
    }
}

/// Going up from a freshly entered child directory restores the path:
/// for a directory path `p` that ends with a separator and a child base
/// name that is nonempty and separator-free, the parent of
/// `p + base + "/"` is `p` again.
pub proof fn lemma_enter_then_up(p: Seq<char>, base: Seq<char>)
    requires
        p.len() > 0,
        p.last() == '/',
        base.len() > 0,
        forall|i: int| 0 <= i < base.len() ==> base[i] != '/',
    ensures
        parent_of(p + base + seq!['/']) == p,
{
    let full = (p + base) + seq!['/'];
    assert(full.drop_last() =~= p + base);
    let q = full.drop_last();
    assert(q[p.len() - 1] == '/');
    assert forall|k: int| p.len() - 1 < k < q.len() implies q[k] != '/' by {
        assert(q[k] == base[k - p.len()]);
    }
    lemma_last_slash_at(q, p.len() - 1);
    assert(q.subrange(0, p.len() as int) =~= p);
}

/// Going up never leaves the configured root: if `root` is a proper
/// prefix of `p` and both end with a separator, the parent of `p` is a
/// shorter path that still has `root` as a prefix and still ends with a
/// separator.
pub proof fn lemma_parent_keeps_root(root: Seq<char>, p: Seq<char>)
    requires
        root.len() > 0,
        root.last() == '/',
        p.len() > root.len(),
        p.subrange(0, root.len() as int) == root,
        p.last() == '/',
    ensures
        root.len() <= parent_of(p).len() < p.len(),
        parent_of(p).last() == '/',
        parent_of(p).subrange(0, root.len() as int) == root,
{
    let q = p.drop_last();
    lemma_last_slash_bounds(q);
    assert(q[root.len() - 1] == p[root.len() - 1]);
    assert(p[root.len() - 1] == root.last());
    assert(last_slash(q) >= root.len() - 1);
    let par = parent_of(p);
    assert(par.last() == q[last_slash(q)]);
    assert(par.subrange(0, root.len() as int) =~= p.subrange(0, root.len() as int));
}

/// Removes the final path segment: for a path that ends with a
/// separator and has at least one separator before the final one, the
/// result is the prefix up to and including that earlier separator.
pub(crate) fn parent_path(path: &String) -> (parent: String)
    requires
        path@.len() >= 2,
        path@.last() == '/',
        exists|k: int| 0 <= k < path@.len() - 1 && path@[k] == '/',
    ensures
        parent@ == parent_of(path@),
{
    let s = path.as_str();
    let n: usize = s.unicode_len();
    let ghost q = path@.drop_last();
    let mut j: usize = n - 1;
    while j > 0
        invariant
            s@ == path@,
            q == path@.drop_last(),
            path@.len() == n,
            n >= 2,
            j <= n - 1,
            forall|k: int| j <= k < n - 1 ==> path@[k] != '/',
        decreases j,
    {
        if s.get_char(j - 1) == '/' {
            proof {
                assert(q[j - 1] == path@[j - 1]);
                assert forall|k: int| j - 1 < k < q.len() implies q[k] != '/' by {
                    assert(q[k] == path@[k]);
                }
                lemma_last_slash_at(q, j - 1);
            }
            let p = s.substring_char(0, j);
            let parent = p.to_owned();
            proof {
                assert(parent@ =~= q.subrange(0, last_slash(q) + 1));
            }
            return parent;
        }
        j -= 1;
    }
    proof {
        let k = choose|k: int| 0 <= k < path@.len() - 1 && path@[k] == '/';
        assert(path@[k] != '/');
    }
    unreached()
}

} // verus!
