//! Rebasing references under the working root.
//!
//! A reference inside a build script uses the root-relative absolute
//! convention: it begins with the path separator but is addressed from the
//! package's working root, not from the host filesystem's root. Rebasing
//! strips every leading separator and joins the remainder onto the working
//! root, which makes the root a textual prefix of every rebased path. The
//! join alone does not keep a path from resolving above the root on disk —
//! an embedded parent-directory segment still could — so the containment
//! validator rejects any reference holding one; for a reference free of
//! them, `lemma_admissible_rebase_no_traversal` proves the rebased path
//! cannot name anything above the root.

use vstd::prelude::*;

verus! {

/// The reference with every leading path separator removed.
pub open spec fn strip_leading_separators(s: Seq<char>) -> Seq<char>
    decreases s.len(),
{
    if s.len() > 0 && s[0] == '/' {
        strip_leading_separators(s.drop_first())
    } else {
        s
    }
}

/// Joining a relative remainder onto a root, the way a path join does: the
/// two are concatenated with exactly one separator between them, and an
/// empty root leaves the remainder as it is.
pub open spec fn join_under(root: Seq<char>, rel: Seq<char>) -> Seq<char> {
    if root.len() == 0 {
        rel
    } else if root.last() == '/' {
        root + rel
    } else {
        root + seq!['/'] + rel
    }
}

/// What rebasing a reference under a working root produces.
pub open spec fn adjoin_absolute_spec(root: Seq<char>, reference: Seq<char>) -> Seq<char> {
    join_under(root, strip_leading_separators(reference))
}

/// Stripping leaves a sequence that no longer starts with a separator.
pub proof fn lemma_strip_leading_separators_stripped(s: Seq<char>)
    ensures
        strip_leading_separators(s).len() == 0 || strip_leading_separators(s)[0] != '/',
    decreases s.len(),
{
    if s.len() > 0 && s[0] == '/' {
        lemma_strip_leading_separators_stripped(s.drop_first());
    }
}

/// A sequence that does not start with a separator is left unchanged.
pub proof fn lemma_strip_leading_separators_noop(s: Seq<char>)
    requires
        s.len() == 0 || s[0] != '/',
    ensures
        strip_leading_separators(s) == s,
{
}

/// Rebasing is deterministic: it is a pure function of the working root and
/// the reference, so rebasing the same reference twice yields the same
/// resolved path.
pub proof fn lemma_rebase_deterministic(
    root: Seq<char>,
    reference: Seq<char>,
    first: Seq<char>,
    second: Seq<char>,
)
    requires
        first == adjoin_absolute_spec(root, reference),
        second == adjoin_absolute_spec(root, reference),
    ensures
        first == second,
{
}

/// Whatever the reference holds, the rebased path begins with the working
/// root as a textual prefix. This alone is not the containment guarantee:
/// a parent-directory segment after the prefix could still resolve above
/// the root on disk, which is why the validator rejects such segments and
/// `lemma_admissible_rebase_no_traversal` rules them out of the remainder.
pub proof fn lemma_rebase_under_root(root: Seq<char>, reference: Seq<char>)
    requires
        root.len() > 0,
    ensures
        adjoin_absolute_spec(root, reference).len() >= root.len(),
        adjoin_absolute_spec(root, reference).take(root.len() as int) == root,
{
    let rel = strip_leading_separators(reference);
    if root.last() == '/' {
        assert((root + rel).take(root.len() as int) =~= root);
    } else {
        assert((root + seq!['/'] + rel).take(root.len() as int) =~= root);
    }
}

/// A parent-directory segment stands at position `i` of the path: two dots
/// bounded on each side by the path's ends or separators.
pub open spec fn is_parent_segment_at(p: Seq<char>, i: int) -> bool {
    &&& 0 <= i
    &&& i + 2 <= p.len()
    &&& p[i] == '.'
    &&& p[i + 1] == '.'
    &&& (i == 0 || p[i - 1] == '/')
    &&& (i + 2 == p.len() || p[i + 2] == '/')
}

/// The path contains a parent-directory segment somewhere.
pub open spec fn has_parent_segment(p: Seq<char>) -> bool {
    exists|i: int| is_parent_segment_at(p, i)
}

/// Stripping leading separators introduces no parent-directory segment.
pub proof fn lemma_strip_preserves_no_parent_segment(s: Seq<char>)
    requires
        !has_parent_segment(s),
    ensures
        !has_parent_segment(strip_leading_separators(s)),
    decreases s.len(),
{
    if s.len() > 0 && s[0] == '/' {
        let t = s.drop_first();
        if has_parent_segment(t) {
            let i = choose|i: int| is_parent_segment_at(t, i);
            assert(is_parent_segment_at(s, i + 1));
        }
        lemma_strip_preserves_no_parent_segment(t);
    }
}

/// The containment guarantee of the rebase: a reference free of
/// parent-directory segments rebases to a path that begins with the
/// working root and holds no parent-directory segment after it, so
/// textually it cannot name anything above the root.
pub proof fn lemma_admissible_rebase_no_traversal(root: Seq<char>, reference: Seq<char>)
    requires
        root.len() > 0,
        !has_parent_segment(reference),
    ensures
        adjoin_absolute_spec(root, reference).take(root.len() as int) == root,
        !has_parent_segment(adjoin_absolute_spec(root, reference).skip(root.len() as int)),
{
    lemma_rebase_under_root(root, reference);
    lemma_strip_preserves_no_parent_segment(reference);
    let rel = strip_leading_separators(reference);
    let tail = adjoin_absolute_spec(root, reference).skip(root.len() as int);
    if root.last() == '/' {
        assert(tail =~= rel);
    } else {
        assert(tail =~= seq!['/'] + rel);
        if has_parent_segment(tail) {
            let i = choose|i: int| is_parent_segment_at(tail, i);
            // the first position holds the separator, so the segment lies
            // wholly inside the stripped remainder
            assert(i >= 1);
            assert(is_parent_segment_at(rel, i - 1));
        }
    }
}

/// Rebasing a reference under a working root.
pub trait AdjoinAbsolute: View<V = Seq<char>> {
    /// Strip the reference's leading separators and join the remainder onto
    /// this root.
    fn adjoin_absolute(&self, other: &str) -> (r: String)
        ensures
            r@ == adjoin_absolute_spec(self.view(), other@),
    ;
}

impl AdjoinAbsolute for String {
    fn adjoin_absolute(&self, other: &str) -> (r: String) {
        let n: usize = other.unicode_len();
        proof {
            assert(other@.subrange(0, n as int) =~= other@);
        }
        let mut i: usize = 0;
        while i < n && other.get_char(i) == '/'
            invariant
                i <= n,
                n == other@.len(),
                strip_leading_separators(other@)
                    == strip_leading_separators(other@.subrange(i as int, n as int)),
            decreases n - i,
        {
            proof {
                let cur = other@.subrange(i as int, n as int);
                assert(cur.drop_first() =~= other@.subrange(i as int + 1, n as int));
            }
            i = i + 1;
        }
        let rel: &str = other.substring_char(i, n);
        proof {
            let cur = other@.subrange(i as int, n as int);
            lemma_strip_leading_separators_noop(cur);
            assert(rel@ == strip_leading_separators(other@));
        }
        let root_len: usize = self.as_str().unicode_len();
        if root_len == 0 {
            String::from_str(rel)
        } else if self.as_str().get_char(root_len - 1) == '/' {
            let mut out: String = self.clone();
            out.append(rel);
            out
        } else {
            let mut out: String = self.clone();
            out.append("/");
            out.append(rel);
            proof {
                reveal_strlit("/");
                assert(self@ + "/"@ + rel@ =~= self@ + seq!['/'] + rel@);
            }
            out
        }
    }
}

} // verus!
