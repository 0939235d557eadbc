//! The chain itself: an ordered sequence of steps, extended at either end,
//! concatenated, and drained once by an iterative evaluation loop.

use std::collections::VecDeque;
use vstd::prelude::*;

verus! {

/// One single-use transformation over the payload type `V`.
///
/// A step is invoked exactly once: [`Step::apply`] consumes the step together
/// with its input and produces one owned output. The `sem` spec function is
/// the step's mathematical meaning, and `apply` is proved to return exactly
/// that value.
pub trait Step<V>: Sized {
    /// What the step computes, as a total mathematical function.
    spec fn sem(self, x: V) -> V;

    /// Invoke the step on an owned input, consuming the step.
    fn apply(self, x: V) -> (r: V)
        ensures
            r == self.sem(x),
    ;
}

/// The value obtained by feeding `x` through every step of `steps`, first to
/// last, each step's output becoming the next step's input.
pub open spec fn eval<V, S: Step<V>>(steps: Seq<S>, x: V) -> V
    decreases steps.len(),
{
    if steps.len() == 0 {
        x
    } else {
        eval(steps.subrange(1, steps.len() as int), steps[0].sem(x))
    }
}

/// A suspended chain of single-use steps that behaves as one transformation
/// of the payload type.
///
/// The chain is built by value: every operation consumes its operands and
/// returns the new chain, so no alias of a superseded chain survives.
/// Evaluation ([`Morphism::run`]) also consumes the chain — the destructive
/// drain discipline — so a spent chain cannot be evaluated twice; reuse is
/// rejected by the compiler, not detected at run time.
pub struct Morphism<S> {
    steps: VecDeque<S>,
}

impl<S> View for Morphism<S> {
    type V = Seq<S>;

    closed spec fn view(&self) -> Seq<S> {
        self.steps@
    }
}

impl<S> Morphism<S> {
    /// Create the identity chain: no steps, so evaluation returns its input.
    pub fn new() -> (r: Morphism<S>)
        ensures
            r@ == Seq::<S>::empty(),
    {
        Morphism { steps: VecDeque::new() }
    }

    /// Attach a step at the front of the chain (pre-composition at the
    /// domain): `f` runs first, before every previously attached step, whose
    /// relative order is unchanged.
    pub fn head(self, f: S) -> (r: Morphism<S>)
        ensures
            r@ == seq![f] + self@,
    {
        let mut steps = self.steps;
        steps.push_front(f);
        Morphism { steps }
    }

    /// Attach a step at the back of the chain (post-composition at the
    /// codomain): `f` runs last, after every previously attached step, whose
    /// relative order is unchanged.
    pub fn tail(self, f: S) -> (r: Morphism<S>)
        ensures
            r@ == self@.push(f),
    {
        let mut steps = self.steps;
        steps.push_back(f);
        Morphism { steps }
    }

    /// Concatenate two chains: the result runs every step of `self`, then
    /// every step of `other`. Both operands are consumed.
    ///
    /// The steps of the shorter side are migrated into the longer side, so
    /// the cost is bounded by the length of the shorter chain.
    pub fn then(self, other: Morphism<S>) -> (r: Morphism<S>)
        ensures
            r@ == self@ + other@,
    {
        let mut lhs = self.steps;
        let mut rhs = other.steps;
        let ghost lhs0 = lhs@;
        let ghost rhs0 = rhs@;
        if rhs.len() <= lhs.len() {
            while rhs.len() > 0
                invariant
                    lhs@ + rhs@ == lhs0 + rhs0,
                decreases rhs@.len(),
            {
                let ghost pl = lhs@;
                let ghost pr = rhs@;
                let f = rhs.pop_front().unwrap();
                lhs.push_back(f);
                proof {
                    assert(lhs@ + rhs@ =~= pl + pr);
                }
            }
            proof {
                assert(lhs@ =~= lhs@ + rhs@);
            }
            Morphism { steps: lhs }
        } else {
            while lhs.len() > 0
                invariant
                    lhs@ + rhs@ == lhs0 + rhs0,
                decreases lhs@.len(),
            {
                let ghost pl = lhs@;
                let ghost pr = rhs@;
                let f = lhs.pop_back().unwrap();
                rhs.push_front(f);
                proof {
                    assert(lhs@ + rhs@ =~= pl + pr);
                }
            }
            proof {
                assert(rhs@ =~= lhs@ + rhs@);
            }
            Morphism { steps: rhs }
        }
    }

    /// Evaluate the chain on `x`: every step runs exactly once, first to
    /// last, in one iterative loop whose stack use does not grow with the
    /// number of steps.
    ///
    /// The chain and each of its steps are consumed (destructive drain):
    /// evaluating the same chain value a second time is statically
    /// impossible.
    pub fn run<V>(self, x: V) -> (r: V) where S: Step<V>
        ensures
            r == eval(self@, x),
    {
        let mut steps = self.steps;
        let ghost whole = steps@;
        let mut acc = x;
        while steps.len() > 0
            invariant
                eval(whole, x) == eval(steps@, acc),
            decreases steps@.len(),
        {
            let f = steps.pop_front().unwrap();
            acc = f.apply(acc);
        }
        acc
    }
}

} // verus!
