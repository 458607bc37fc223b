//! Facts about filtering sequences.

use vstd::prelude::*;

verus! {

/// Filtering a sequence extended by one element filters the prefix and keeps
/// the element exactly when the predicate holds of it.
pub proof fn lemma_filter_push<A>(s: Seq<A>, pred: spec_fn(A) -> bool, e: A)
    ensures
        s.push(e).filter(pred) == (if pred(e) { s.filter(pred).push(e) } else { s.filter(pred) }),
{
    reveal(Seq::filter);
    assert(s.push(e).drop_last() =~= s);
}

/// A filtered sequence is never longer than the sequence.
pub proof fn lemma_filter_len_le<A>(s: Seq<A>, pred: spec_fn(A) -> bool)
    ensures
        s.filter(pred).len() <= s.len(),
{
    s.lemma_filter_len(pred);
}

/// Filtering twice by the same predicate is filtering once.
pub proof fn lemma_filter_twice<A>(s: Seq<A>, pred: spec_fn(A) -> bool)
    ensures
        s.filter(pred).filter(pred) == s.filter(pred),
    decreases s.len(),
{
    reveal(Seq::filter);
    if s.len() > 0 {
        lemma_filter_twice(s.drop_last(), pred);
        lemma_filter_push(s.drop_last().filter(pred), pred, s.last());
    }
}

/// An element of a filtered sequence satisfies the predicate and is an
/// element of the sequence; an element of the sequence that satisfies the
/// predicate is kept.
pub proof fn lemma_filter_membership<A>(s: Seq<A>, pred: spec_fn(A) -> bool, e: A)
    ensures
        s.filter(pred).contains(e) <==> (s.contains(e) && pred(e)),
    decreases s.len(),
{
    reveal(Seq::filter);
    if s.len() > 0 {
        let rest = s.drop_last();
        lemma_filter_membership(rest, pred, e);
        assert(s =~= rest.push(s.last()));
        if s.contains(e) && pred(e) && !rest.contains(e) {
            let k = choose|k: int| 0 <= k < s.len() && s[k] == e;
            if k < rest.len() {
                assert(rest[k] == e);
            }
            assert(s.filter(pred) =~= rest.filter(pred).push(s.last()));
            assert(s.filter(pred)[rest.filter(pred).len() as int] == e);
        }
        if s.filter(pred).contains(e) {
            let k = choose|k: int| 0 <= k < s.filter(pred).len() && s.filter(pred)[k] == e;
            if pred(s.last()) && k == rest.filter(pred).len() {
                assert(s[s.len() - 1] == e);
            } else {
                assert(rest.filter(pred)[k] == e);
                assert(rest.filter(pred).contains(e));
                let m = choose|m: int| 0 <= m < rest.len() && rest[m] == e;
                assert(s[m] == e);
            }
        }
        if rest.contains(e) && pred(e) {
            assert(rest.filter(pred).contains(e));
            let m = choose|m: int| 0 <= m < rest.filter(pred).len() && rest.filter(pred)[m] == e;
            if pred(s.last()) {
                assert(s.filter(pred)[m] == e);
            } else {
                assert(s.filter(pred)[m] == e);
            }
        }
    }
}

} // verus!
