//! Memoizing cache over a source: each value is produced at most once and stays put.
use vstd::math::max;
use vstd::prelude::*;

use crate::source::{nth, yields, Source};
use crate::store::Store;

verus! {

/// Caches what a source produces, pulling from it lazily and in order.
///
/// A value, once produced, is kept for the life of the cache in storage of its
/// own: later growth never moves it. A reference that `get` hands out borrows the
/// cache exclusively, so it lasts until the next lookup; the value itself stays at
/// the same address, and later lookups of its index hand out references to it again.
pub struct Cache<S: Source> {
    /// The producer being cached, advanced past every stored value.
    source: S,
    /// Every value produced so far, in production order.
    store: Store<S::Item>,
    /// The source has reported exhaustion and is never called again.
    exhausted: bool,
    /// The source as it was when the cache was built.
    origin: Ghost<S>,
    /// How many times the source has been advanced.
    pulls: Ghost<nat>,
}

impl<S: Source> Cache<S> {
    /// The source as it was when the cache was built: it fixes every value the cache can hold.
    pub closed spec fn origin(&self) -> S {
        self.origin@
    }

    /// The values produced so far, in production order.
    pub closed spec fn stored(&self) -> Seq<S::Item> {
        self.store@
    }

    /// Whether the source has reported exhaustion.
    pub closed spec fn exhausted(&self) -> bool {
        self.exhausted
    }

    /// How many times the source has been advanced.
    pub closed spec fn pulls(&self) -> nat {
        self.pulls@
    }

    /// The stored values are the first values of the origin, the source stands
    /// just past them, and each call of the source has been counted.
    pub closed spec fn wf(&self) -> bool {
        &&& forall|k: int|
            0 <= k < self.store@.len() ==> self.origin@.upcoming(k as nat) == Some(
                #[trigger] self.store@[k],
            )
        &&& !self.exhausted ==> forall|k: nat| #[trigger]
            self.source.upcoming(k) == self.origin@.upcoming(self.store@.len() + k)
        &&& self.exhausted ==> self.origin@.upcoming(self.store@.len()) is None
        &&& self.pulls@ == self.store@.len() + if self.exhausted {
            1nat
        } else {
            0nat
        }
    }

    /// A cache over `source`, with nothing produced yet.
    pub fn new(source: S) -> (r: Self)
        ensures
            r.wf(),
            r.origin() == source,
            r.stored() == Seq::<S::Item>::empty(),
            !r.exhausted(),
            r.pulls() == 0,
    {
        let ghost origin = source;
        let r = Cache {
            source,
            store: Store::new(),
            exhausted: false,
            origin: Ghost(origin),
            pulls: Ghost(0),
        };
        assert forall|k: nat| #[trigger] r.source.upcoming(k) == r.origin@.upcoming(
            r.store@.len() + k,
        ) by {
            assert(r.store@.len() + k == k);
        }
        r
    }

    /// Whether nothing has been produced yet.
    pub fn is_empty(&self) -> (r: bool)
        ensures
            r == (self.stored().len() == 0),
    {
        self.store.count() == 0
    }

    /// The value at `index` if it has already been produced; never calls the source.
    pub fn peek(&self, index: usize) -> (r: Option<&S::Item>)
        ensures
            r == (if (index as int) < self.stored().len() {
                Some(&self.stored()[index as int])
            } else {
                None
            }),
    {
        self.store.get(index)
    }

    /// The value at `index`, producing values from the source up to it when needed.
    ///
    /// Returns `None` exactly when the source is exhausted before `index`. Values
    /// already produced are never produced again, and the source is never called
    /// once it has reported exhaustion.
    pub fn get(&mut self, index: usize) -> (r: Option<&S::Item>)
        requires
            old(self).wf(),
        ensures
            final(self).wf(),
            final(self).origin() == old(self).origin(),
            old(self).stored().is_prefix_of(final(self).stored()),
            old(self).exhausted() ==> final(self).exhausted(),
            r == (if yields(old(self).origin(), index as nat + 1) {
                Some(&nth(old(self).origin(), index as nat))
            } else {
                None
            }),
            r is Some ==> *r->0 == final(self).stored()[index as int],
            r is Some ==> final(self).stored().len() == max(
                old(self).stored().len() as int,
                index as int + 1,
            ),
            r is Some ==> final(self).exhausted() == old(self).exhausted(),
            r is None ==> final(self).exhausted(),
            final(self).exhausted() ==> final(self).origin().upcoming(final(self).stored().len())
                is None,
            forall|k: int|
                0 <= k < final(self).stored().len() ==> final(self).origin().upcoming(k as nat)
                    == Some(#[trigger] final(self).stored()[k]),
            old(self).exhausted() || (index as int) < old(self).stored().len() ==> *final(self)
                == *old(self),
    {
        let ghost start = *self;
        assert forall|k: nat| k < self.store@.len() implies (#[trigger] self.origin@.upcoming(
            k,
        )) is Some by {
            assert(self.origin@.upcoming(k as int as nat) == Some(self.store@[k as int]));
        }
        while self.store.count() <= index && !self.exhausted
            invariant
                self.wf(),
                self.origin@ == start.origin@,
                start.store@.is_prefix_of(self.store@),
                start.exhausted ==> *self == start,
                start.store@.len() > index ==> *self == start,
                self.store@.len() <= max(start.store@.len() as int, index as int + 1),
                self.exhausted && !start.exhausted ==> self.store@.len() <= index,
                forall|k: nat|
                    k < self.store@.len() ==> (#[trigger] self.origin@.upcoming(k)) is Some,
            decreases index as int + 1 - self.store@.len() + if self.exhausted {
                0int
            } else {
                1int
            },
        {
            let ghost before = self.store@;
            match self.source.advance() {
                Some(item) => {
                    self.store.append(item);
                    proof {
                        self.pulls@ = self.pulls@ + 1;
                        assert(self.origin@.upcoming(before.len() + 0) == Some(item));
                        assert forall|k: int| 0 <= k < self.store@.len() implies
                            self.origin@.upcoming(k as nat) == Some(#[trigger] self.store@[k]) by {
                            if k < before.len() {
                                assert(self.store@[k] == before[k]);
                            }
                        }
                        assert forall|k: nat| #[trigger]
                            self.source.upcoming(k) == self.origin@.upcoming(
                                self.store@.len() + k,
                            ) by {
                            assert(self.store@.len() + k == before.len() + (k + 1));
                        }
                    }
                },
                None => {
                    self.exhausted = true;
                    proof {
                        self.pulls@ = self.pulls@ + 1;
                        assert(self.origin@.upcoming(before.len() + 0) is None);
                    }
                },
            }
        }
        proof {
            if !yields(self.origin@, index as nat + 1) {
                let j = choose|j: nat|
                    j < index as nat + 1 && (#[trigger] self.origin@.upcoming(j)) is None;
                assert(self.store@.len() <= index);
            } else if (index as int) >= self.store@.len() {
                assert(self.origin@.upcoming(self.store@.len()) is Some);
            }
        }
        self.store.get(index)
    }
}

/// Values stay put: two states of a cache over the same source hold the same
/// value at every index that both have produced. Lookups keep the source, so
/// every later lookup of an index finds the value the first one found.
pub proof fn lemma_values_stay<S: Source>(earlier: Cache<S>, later: Cache<S>, k: int)
    requires
        earlier.wf(),
        later.wf(),
        later.origin() == earlier.origin(),
        0 <= k < earlier.stored().len(),
        earlier.stored().len() <= later.stored().len(),
    ensures
        later.stored()[k] == earlier.stored()[k],
{
    assert(earlier.origin().upcoming(k as nat) == Some(earlier.stored()[k]));
    assert(later.origin().upcoming(k as nat) == Some(later.stored()[k]));
}

/// The source is advanced once for each value produced, plus once for the call
/// that reported exhaustion, if there was one; lookups add no other call.
pub proof fn lemma_pulls_once<S: Source>(c: Cache<S>)
    requires
        c.wf(),
    ensures
        c.pulls() == c.stored().len() + if c.exhausted() {
            1nat
        } else {
            0nat
        },
{
}

/// The value stored at `k` is the `k`-th value the source yields from the state
/// the cache was built with.
pub proof fn lemma_stored_prefix<S: Source>(c: Cache<S>, k: int)
    requires
        c.wf(),
        0 <= k < c.stored().len(),
    ensures
        c.origin().upcoming(k as nat) == Some(c.stored()[k]),
        yields(c.origin(), k as nat + 1),
        nth(c.origin(), k as nat) == c.stored()[k],
{
    assert forall|j: nat| j < k as nat + 1 implies (#[trigger] c.origin().upcoming(j)) is Some by {
        assert(c.origin().upcoming(j as int as nat) == Some(c.stored()[j as int]));
    }
}

/// Exhaustion is final: when a lookup at `i` finds nothing, so does a lookup at
/// any `j >= i`, from then on.
pub proof fn lemma_exhaustion_final<S: Source>(origin: S, i: nat, j: nat)
    requires
        i <= j,
        !yields(origin, i + 1),
    ensures
        !yields(origin, j + 1),
{
    let k = choose|k: nat| k < i + 1 && (#[trigger] origin.upcoming(k)) is None;
}

/// A cache over `source`, with nothing produced yet.
pub fn cached<S: Source>(source: S) -> (r: Cache<S>)
    ensures
        r.wf(),
        r.origin() == source,
        r.stored() == Seq::<S::Item>::empty(),
        !r.exhausted(),
        r.pulls() == 0,
{
    Cache::new(source)
}

/// Turn a source into a cache by method call.
pub trait Cached: Source + Sized {
    /// A cache over this source, with nothing produced yet.
    fn cached(self) -> (r: Cache<Self>)
        ensures
            r.wf(),
            r.origin() == self,
            r.stored() == Seq::<Self::Item>::empty(),
            !r.exhausted(),
            r.pulls() == 0,
    ;
}

impl<S: Source> Cached for S {
    fn cached(self) -> (r: Cache<Self>) {
        cached(self)
    }
}

} // verus!
