//! An eager cursor: values are kept inline in a vector and produced as soon as the
//! cursor moves, so only values already produced can be read, through `&self`.
use vstd::math::max;
use vstd::prelude::*;

use crate::source::{nth, yields, Source};

pub use crate::indexed::{index, value, Indexed};

verus! {

/// A cursor that produces every value up to its position as soon as it moves there.
pub struct Reiterator<S: Source> {
    /// The producer, advanced past every stored value.
    iter: S,
    /// Every value produced so far, in production order.
    cache: Vec<S::Item>,
    /// The position that `read` looks at.
    index: usize,
    /// The source has reported exhaustion and is never called again.
    exhausted: bool,
    /// The source as it was when the cursor was built.
    origin: Ghost<S>,
    /// How many times the source has been advanced.
    pulls: Ghost<nat>,
}

impl<S: Source> Reiterator<S> {
    /// The source as it was when the cursor was built.
    pub closed spec fn origin(&self) -> S {
        self.origin@
    }

    /// The values produced so far, in production order.
    pub closed spec fn stored(&self) -> Seq<S::Item> {
        self.cache@
    }

    /// The position that `read` looks at.
    pub closed spec fn position(&self) -> usize {
        self.index
    }

    /// Whether the source has reported exhaustion.
    pub closed spec fn exhausted(&self) -> bool {
        self.exhausted
    }

    /// How many times the source has been advanced.
    pub closed spec fn pulls(&self) -> nat {
        self.pulls@
    }

    /// What the cursor holds is what the source yields: the stored values are its
    /// first values, exhaustion is recorded only once it has yielded nothing, and
    /// it has been advanced once per stored value, plus once for the call that
    /// reported exhaustion, if there was one.
    pub open spec fn faithful(&self) -> bool {
        &&& forall|k: int|
            0 <= k < self.stored().len() ==> self.origin().upcoming(k as nat) == Some(
                #[trigger] self.stored()[k],
            )
        &&& self.exhausted() ==> self.origin().upcoming(self.stored().len()) is None
        &&& self.pulls() == self.stored().len() + if self.exhausted() {
            1nat
        } else {
            0nat
        }
    }

    /// The cursor is faithful to its source, and the source stands just past the
    /// stored values.
    pub closed spec fn wf(&self) -> bool {
        &&& self.faithful()
        &&& !self.exhausted ==> forall|k: nat| #[trigger]
            self.iter.upcoming(k) == self.origin@.upcoming(self.cache@.len() + k)
    }

    /// A cursor at position zero over `source`, with its first value produced;
    /// `None` when the source yields nothing at all.
    pub fn new(source: S) -> (r: Option<Self>)
        ensures
            r is None <==> source.upcoming(0) is None,
            r matches Some(c) ==> {
                &&& c.wf()
                &&& c.origin() == source
                &&& c.faithful()
                &&& c.position() == 0
                &&& c.stored() == seq![nth(source, 0)]
                &&& !c.exhausted()
                &&& c.pulls() == 1
            },
    {
        let ghost origin = source;
        let mut iter = source;
        match iter.advance() {
            Some(first) => {
                let mut cache: Vec<S::Item> = Vec::new();
                cache.push(first);
                let r = Reiterator {
                    iter,
                    cache,
                    index: 0,
                    exhausted: false,
                    origin: Ghost(origin),
                    pulls: Ghost(1),
                };
                assert(r.cache@ =~= seq![nth(origin, 0)]);
                assert forall|k: nat| #[trigger]
                    r.iter.upcoming(k) == r.origin@.upcoming(r.cache@.len() + k) by {
                    assert(r.cache@.len() + k == k + 1);
                }
                Some(r)
            },
            None => None,
        }
    }

    /// The position that `read` looks at.
    pub fn index(&self) -> (r: usize)
        ensures
            r == self.position(),
    {
        self.index
    }

    /// Move to `index` and produce every value up to it that the source has.
    pub fn get(&mut self, index: usize)
        requires
            old(self).wf(),
        ensures
            final(self).wf(),
            final(self).faithful(),
            final(self).position() == index,
            final(self).origin() == old(self).origin(),
            old(self).stored().is_prefix_of(final(self).stored()),
            yields(old(self).origin(), index as nat + 1) ==> final(self).stored().len()
                == max(old(self).stored().len() as int, index as int + 1)
                && final(self).exhausted() == old(self).exhausted(),
            !yields(old(self).origin(), index as nat + 1) ==> final(self).exhausted(),
            old(self).exhausted() || (index as int) < old(self).stored().len()
                ==> final(self).stored() == old(self).stored(),
    {
        self.index = index;
        self.populate();
    }

    /// Move back to position zero.
    pub fn restart(&mut self)
        requires
            old(self).wf(),
        ensures
            final(self).wf(),
            final(self).faithful(),
            final(self).position() == 0,
            final(self).origin() == old(self).origin(),
            old(self).stored().is_prefix_of(final(self).stored()),
            old(self).stored().len() > 0 ==> final(self).stored() == old(self).stored(),
    {
        self.get(0);
    }

    /// The pair at `index` if its value has been produced; `None` says only that
    /// it has not been produced yet.
    pub fn read_index(&self, index: usize) -> (r: Option<Indexed<'_, S::Item>>)
        ensures
            r == (if (index as int) < self.stored().len() {
                Some(Indexed { index, value: &self.stored()[index as int] })
            } else {
                None
            }),
    {
        if index < self.cache.len() {
            Some(Indexed { index, value: &self.cache[index] })
        } else {
            None
        }
    }

    /// The pair at the current position if its value has been produced.
    pub fn read(&self) -> (r: Option<Indexed<'_, S::Item>>)
        ensures
            r == (if (self.position() as int) < self.stored().len() {
                Some(
                    Indexed {
                        index: self.position(),
                        value: &self.stored()[self.position() as int],
                    },
                )
            } else {
                None
            }),
    {
        self.read_index(self.index)
    }

    /// Produce every value up to the current position that the source has.
    pub fn populate(&mut self)
        requires
            old(self).wf(),
        ensures
            final(self).wf(),
            final(self).faithful(),
            final(self).position() == old(self).position(),
            final(self).origin() == old(self).origin(),
            old(self).stored().is_prefix_of(final(self).stored()),
            yields(old(self).origin(), old(self).position() as nat + 1)
                ==> final(self).stored().len() == max(
                old(self).stored().len() as int,
                old(self).position() as int + 1,
            ) && final(self).exhausted() == old(self).exhausted(),
            !yields(old(self).origin(), old(self).position() as nat + 1)
                ==> final(self).exhausted(),
            old(self).exhausted() || (old(self).position() as int) < old(self).stored().len()
                ==> *final(self) == *old(self),
    {
        let ghost start = *self;
        assert forall|k: nat| k < self.cache@.len() implies (#[trigger] self.origin@.upcoming(
            k,
        )) is Some by {
            assert(self.origin@.upcoming(k as int as nat) == Some(self.cache@[k as int]));
        }
        while self.cache.len() <= self.index && !self.exhausted
            invariant
                self.wf(),
                self.origin@ == start.origin@,
                self.index == start.index,
                start.cache@.is_prefix_of(self.cache@),
                start.exhausted ==> *self == start,
                start.cache@.len() > start.index ==> *self == start,
                self.cache@.len() <= max(start.cache@.len() as int, start.index as int + 1),
                self.exhausted && !start.exhausted ==> self.cache@.len() <= start.index,
                forall|k: nat|
                    k < self.cache@.len() ==> (#[trigger] self.origin@.upcoming(k)) is Some,
            decreases self.index as int + 1 - self.cache@.len() + if self.exhausted {
                0int
            } else {
                1int
            },
        {
            let ghost before = self.cache@;
            match self.iter.advance() {
                Some(item) => {
                    self.cache.push(item);
                    proof {
                        self.pulls@ = self.pulls@ + 1;
                        assert(self.origin@.upcoming(before.len() + 0) == Some(item));
                        assert forall|k: int| 0 <= k < self.cache@.len() implies
                            self.origin@.upcoming(k as nat) == Some(#[trigger] self.cache@[k]) by {
                            if k < before.len() {
                                assert(self.cache@[k] == before[k]);
                            }
                        }
                        assert forall|k: nat| #[trigger]
                            self.iter.upcoming(k) == self.origin@.upcoming(
                                self.cache@.len() + k,
                            ) by {
                            assert(self.cache@.len() + k == before.len() + (k + 1));
                        }
                    }
                },
                None => {
                    self.exhausted = true;
                    proof {
                        self.pulls@ = self.pulls@ + 1;
                        assert(self.origin@.upcoming(before.len() + 0) is None);
                    }
                },
            }
        }
        proof {
            let index = self.index;
            if !yields(self.origin@, index as nat + 1) {
                let j = choose|j: nat|
                    j < index as nat + 1 && (#[trigger] self.origin@.upcoming(j)) is None;
                assert(self.cache@.len() <= index);
            } else if (index as int) >= self.cache@.len() {
                assert(self.origin@.upcoming(self.cache@.len()) is Some);
            }
        }
    }

    /// Move one position on and produce the value there if the source has it.
    /// At the largest position there is no further one: nothing changes.
    pub fn next(&mut self)
        requires
            old(self).wf(),
        ensures
            final(self).wf(),
            final(self).faithful(),
            final(self).origin() == old(self).origin(),
            old(self).stored().is_prefix_of(final(self).stored()),
            old(self).position() == usize::MAX ==> *final(self) == *old(self),
            old(self).position() < usize::MAX ==> {
                &&& final(self).position() == old(self).position() + 1
                &&& yields(old(self).origin(), old(self).position() as nat + 2)
                    ==> final(self).stored().len() == max(
                    old(self).stored().len() as int,
                    old(self).position() as int + 2,
                ) && final(self).exhausted() == old(self).exhausted()
                &&& !yields(old(self).origin(), old(self).position() as nat + 2)
                    ==> final(self).exhausted()
            },
    {
        if self.index < usize::MAX {
            self.get(self.index + 1);
        }
    }
}

/// A cursor at position zero over `source`, with its first value produced;
/// `None` when the source yields nothing at all.
pub fn reiterate<S: Source>(source: S) -> (r: Option<Reiterator<S>>)
    ensures
        r is None <==> source.upcoming(0) is None,
        r matches Some(c) ==> {
            &&& c.wf()
            &&& c.origin() == source
            &&& c.faithful()
            &&& c.position() == 0
            &&& c.stored() == seq![nth(source, 0)]
            &&& !c.exhausted()
            &&& c.pulls() == 1
        },
{
    Reiterator::new(source)
}

/// Turn a source into an eager cursor by method call.
pub trait Reiterate: Source + Sized {
    /// A cursor at position zero over this source, with its first value produced;
    /// `None` when the source yields nothing at all.
    fn reiterate(self) -> (r: Option<Reiterator<Self>>)
        ensures
            r is None <==> self.upcoming(0) is None,
            r matches Some(c) ==> {
                &&& c.wf()
                &&& c.origin() == self
                &&& c.faithful()
                &&& c.position() == 0
                &&& c.stored() == seq![nth(self, 0)]
                &&& !c.exhausted()
                &&& c.pulls() == 1
            },
    ;
}

impl<S: Source> Reiterate for S {
    fn reiterate(self) -> (r: Option<Reiterator<Self>>) {
        reiterate(self)
    }
}

} // verus!
