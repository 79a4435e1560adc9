//! Pull-based producers of values, consumed by the memoizing cache.
use vstd::prelude::*;

verus! {

/// A stateful producer that hands out one value per call of `advance`.
///
/// Its behaviour is described by `upcoming`: the value that the `k`-th call from
/// now returns, where `None` stands for exhaustion.
pub trait Source {
    type Item;

    /// What the `k`-th call of `advance` from the current state returns.
    spec fn upcoming(&self, k: nat) -> Option<Self::Item>;

    /// Produce the next value, or `None` when the producer is exhausted.
    fn advance(&mut self) -> (r: Option<Self::Item>)
        ensures
            r == old(self).upcoming(0),
            forall|k: nat| #[trigger] final(self).upcoming(k) == old(self).upcoming(k + 1),
    ;
}

/// The source yields a value on each of its first `n` calls.
pub open spec fn yields<S: Source>(s: S, n: nat) -> bool {
    forall|j: nat| j < n ==> (#[trigger] s.upcoming(j)) is Some
}

/// The `k`-th value that the source yields, when it yields at least `k + 1` values.
pub open spec fn nth<S: Source>(s: S, k: nat) -> S::Item
    recommends
        s.upcoming(k) is Some,
{
    s.upcoming(k)->0
}

/// A source that yields the elements of a vector, front to back, then nothing.
pub struct Items<T> {
    /// The elements still to be produced, in reverse order: the next one is last.
    rest: Vec<T>,
}

impl<T> View for Items<T> {
    type V = Seq<T>;

    /// The elements still to be produced, in order.
    closed spec fn view(&self) -> Seq<T> {
        Seq::new(self.rest@.len(), |i: int| self.rest@[self.rest@.len() - 1 - i])
    }
}

impl<T> Items<T> {
    /// A source over the elements of `v`, in order.
    pub fn new(v: Vec<T>) -> (r: Self)
        ensures
            r@ == v@,
    {
        let ghost orig = v@;
        let mut v = v;
        let mut rest: Vec<T> = Vec::new();
        while v.len() > 0
            invariant
                v@.len() + rest@.len() == orig.len(),
                v@ == orig.subrange(0, v@.len() as int),
                forall|j: int|
                    0 <= j < rest@.len() ==> #[trigger] rest@[j] == orig[orig.len() - 1 - j],
            decreases v@.len(),
        {
            let x = v.pop().unwrap();
            rest.push(x);
        }
        let r = Items { rest };
        assert(r@ =~= orig);
        r
    }
}

impl<T> Source for Items<T> {
    type Item = T;

    open spec fn upcoming(&self, k: nat) -> Option<T> {
        if k < self@.len() {
            Some(self@[k as int])
        } else {
            None
        }
    }

    fn advance(&mut self) -> (r: Option<T>) {
        let ghost before = self@;
        let r = self.rest.pop();
        if r.is_some() {
            assert(self@ =~= before.drop_first());
        }
        r
    }
}

} // verus!
