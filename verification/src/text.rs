//! String utilities shared by the lookup and insert paths: detection of
//! embedded NUL characters (which must be rejected before anything reaches
//! the native layer) and space-separated joining of option strings.

use vstd::prelude::*;
use vstd::string::*;

verus! {

/// True when the character sequence contains an embedded NUL.
pub open spec fn has_nul(s: Seq<char>) -> bool {
    exists|i: int| 0 <= i < s.len() && s[i] == '\0'
}

/// Space-separated join of the given parts; an empty collection joins to
/// the empty sequence, and a single part joins to itself.
pub open spec fn spec_join(parts: Seq<Seq<char>>) -> Seq<char>
    decreases parts.len(),
{
    if parts.len() == 0 {
        Seq::empty()
    } else if parts.len() == 1 {
        parts[0]
    } else {
        spec_join(parts.drop_last()) + seq![' '] + parts.last()
    }
}

/// Character-for-character equality of two string slices.
pub fn str_eq(a: &str, b: &str) -> (r: bool)
    ensures
        r == (a@ == b@),
{
    let a_len = a.unicode_len();
    let b_len = b.unicode_len();
    if a_len != b_len {
        return false;
    }
    let mut i: usize = 0;
    while i < a_len
        invariant
            a_len == a@.len(),
            b_len == b@.len(),
            a_len == b_len,
            i <= a_len,
            forall|j: int| 0 <= j < i ==> a@[j] == b@[j],
        decreases a_len - i,
    {
        if a.get_char(i) != b.get_char(i) {
            return false;
        }
        i += 1;
    }
    proof {
        assert(a@ =~= b@);
    }
    true
}

/// Scan a string for an embedded NUL character.
pub fn contains_nul(s: &str) -> (r: bool)
    ensures
        r == has_nul(s@),
{
    let len = s.unicode_len();
    let mut i: usize = 0;
    while i < len
        invariant
            len == s@.len(),
            i <= len,
            forall|j: int| 0 <= j < i ==> s@[j] != '\0',
        decreases len - i,
    {
        if s.get_char(i) == '\0' {
            return true;
        }
        i += 1;
    }
    false
}

/// Join option strings with single spaces, exactly as the native insert
/// call expects its argument; an empty collection yields the empty string,
/// with no leading or trailing separator.
pub fn join_options(opts: &Vec<String>) -> (r: String)
    ensures
        r@ == spec_join(opts.deep_view()),
        opts.len() == 0 ==> r@ == Seq::<char>::empty(),
{
    let mut out = String::new();
    let mut i: usize = 0;
    while i < opts.len()
        invariant
            i <= opts.len(),
            out@ == spec_join(opts.deep_view().take(i as int)),
        decreases opts.len() - i,
    {
        if i > 0 {
            out.append(" ");
        }
        out.append(opts[i].as_str());
        proof {
            let parts = opts.deep_view();
            assert(parts.take(i + 1).drop_last() =~= parts.take(i as int));
            assert(parts.take(i + 1).last() == parts[i as int]);
            reveal_strlit(" ");
            assert(" "@ =~= seq![' ']);
            if i > 0 {
                assert(out@ == spec_join(parts.take(i + 1)));
            } else {
                assert(parts.take(1).len() == 1);
                assert(out@ == spec_join(parts.take(i + 1)));
            }
        }
        i += 1;
    }
    proof {
        assert(opts.deep_view().take(opts.len() as int) =~= opts.deep_view());
    }
    out
}

/// The join of an empty collection of options is the empty string: the
/// insert path hands the native layer an empty, never a padded, argument.
pub proof fn lemma_join_empty()
    ensures
        spec_join(Seq::<Seq<char>>::empty()) == Seq::<char>::empty(),
{
}

/// The join of a single option is that option itself, with no separator
/// added before or after it.
pub proof fn lemma_join_single(part: Seq<char>)
    ensures
        spec_join(seq![part]) == part,
{
}

/// An embedded NUL in any single part survives into the join: rejecting
/// the joined string rejects a NUL wherever it stood among the options.
pub proof fn lemma_join_preserves_nul(parts: Seq<Seq<char>>, k: int)
    requires
        0 <= k < parts.len(),
        has_nul(parts[k]),
    ensures
        has_nul(spec_join(parts)),
    decreases parts.len(),
{
    if parts.len() == 1 {
    } else if k == parts.len() - 1 {
        let i = choose|i: int| 0 <= i < parts[k].len() && parts[k][i] == '\0';
        let pre = spec_join(parts.drop_last()) + seq![' '];
        assert(spec_join(parts)[pre.len() + i] == '\0');
    } else {
        assert(parts.drop_last()[k] == parts[k]);
        lemma_join_preserves_nul(parts.drop_last(), k);
        let a = spec_join(parts.drop_last());
        let i = choose|i: int| 0 <= i < a.len() && a[i] == '\0';
        assert(spec_join(parts)[i] == '\0');
    }
}

} // verus!
