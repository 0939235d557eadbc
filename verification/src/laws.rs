//! The algebraic laws of chain evaluation, stated over the same view
//! (`Seq<S>`) and spec function ([`eval`]) that the chain operations'
//! contracts use, and proved for every payload value.

use crate::chain::eval;
use crate::chain::Step;
use vstd::prelude::*;

verus! {

/// Identity law: the empty chain returns its input unchanged.
pub proof fn lemma_identity<V, S: Step<V>>(x: V)
    ensures
        eval(Seq::<S>::empty(), x) == x,
{
}

/// Evaluating a concatenation runs the left chain's steps in full, then the
/// right chain's, feeding the left result into the right chain.
pub proof fn lemma_eval_concat<V, S: Step<V>>(a: Seq<S>, b: Seq<S>, x: V)
    ensures
        eval(a + b, x) == eval(b, eval(a, x)),
    decreases a.len(),
{
    if a.len() == 0 {
        assert(a + b =~= b);
    } else {
        let rest = a.subrange(1, a.len() as int);
        assert((a + b).subrange(1, (a + b).len() as int) =~= rest + b);
        lemma_eval_concat(rest, b, a[0].sem(x));
    }
}

/// A one-step chain computes exactly its step's meaning.
pub proof fn lemma_eval_singleton<V, S: Step<V>>(f: S, x: V)
    ensures
        eval(seq![f], x) == f.sem(x),
{
    assert(seq![f].subrange(1, 1) =~= Seq::<S>::empty());
    assert(eval(Seq::<S>::empty(), f.sem(x)) == f.sem(x));
}

/// Evaluating a chain extended at the back runs the old steps first and the
/// new step last.
pub proof fn lemma_eval_push<V, S: Step<V>>(s: Seq<S>, f: S, x: V)
    ensures
        eval(s.push(f), x) == f.sem(eval(s, x)),
{
    assert(s.push(f) =~= s + seq![f]);
    lemma_eval_concat(s, seq![f], x);
    lemma_eval_singleton(f, eval(s, x));
}

/// Prepend ordering: after prepending `f` and then `g` to a chain with steps
/// `c`, the most recently prepended step runs first — evaluation applies `g`,
/// then `f`, then the prior steps of the chain.
pub proof fn lemma_prepend_order<V, S: Step<V>>(c: Seq<S>, f: S, g: S, x: V)
    ensures
        eval(seq![g] + (seq![f] + c), x) == eval(c, f.sem(g.sem(x))),
{
    lemma_eval_concat(seq![g], seq![f] + c, x);
    lemma_eval_concat(seq![f], c, eval(seq![g], x));
    lemma_eval_singleton(g, x);
    lemma_eval_singleton(f, g.sem(x));
}

/// Append ordering: after appending `f` and then `g` to a chain with steps
/// `c`, the most recently appended step runs last — evaluation runs the prior
/// steps, then `f`, then `g`.
pub proof fn lemma_append_order<V, S: Step<V>>(c: Seq<S>, f: S, g: S, x: V)
    ensures
        eval(c.push(f).push(g), x) == g.sem(f.sem(eval(c, x))),
{
    lemma_eval_push(c.push(f), g, x);
    lemma_eval_push(c, f, x);
}

/// Concatenation is associative under evaluation: merging in either grouping
/// yields the same result, equal to running the three chains' steps in
/// sequence.
pub proof fn lemma_then_assoc<V, S: Step<V>>(a: Seq<S>, b: Seq<S>, c: Seq<S>, x: V)
    ensures
        eval((a + b) + c, x) == eval(a + (b + c), x),
        eval((a + b) + c, x) == eval(c, eval(b, eval(a, x))),
{
    lemma_eval_concat(a + b, c, x);
    lemma_eval_concat(a, b, x);
    lemma_eval_concat(a, b + c, x);
    lemma_eval_concat(b, c, eval(a, x));
}

} // verus!
