//! Memoizing cache over a pull-based source, with stable references to produced values,
//! and a cursor over it that can be moved, advanced and restarted at will.
use vstd::prelude::*;

pub mod cache;
pub mod indexed;
pub mod source;
pub mod split;
pub mod store;

use crate::cache::Cache;
use crate::indexed::Indexed;
use crate::source::{nth, yields, Source};

verus! {

/// A cursor over a memoizing cache: values are produced once, on first lookup,
/// and any position can be visited again at no further cost.
pub struct Reiterator<S: Source> {
    /// The source together with everything produced from it so far. It is public
    /// so that the position, beside it, can be spoken of in contracts; the cache
    /// guards its own invariant.
    pub cache: Cache<S>,
    /// The position the cursor acts on next. Any value may be assigned: it is pure
    /// bookkeeping, and a lookup there produces what is needed, or finds nothing.
    pub index: usize,
}

impl<S: Source> Reiterator<S> {
    /// The cache under the cursor.
    pub open spec fn cache(&self) -> Cache<S> {
        self.cache
    }

    /// The position the cursor acts on next.
    pub open spec fn position(&self) -> usize {
        self.index
    }

    /// The source as it was when the cursor was built.
    pub open spec fn origin(&self) -> S {
        self.cache().origin()
    }

    /// A lookup at `index` finds a value: the source yields more than `index` values.
    pub open spec fn finds(&self, index: nat) -> bool {
        yields(self.origin(), index + 1)
    }

    /// The value a lookup at `index` finds, when it finds one.
    pub open spec fn value_at(&self, index: nat) -> S::Item {
        nth(self.origin(), index)
    }

    /// A lookup at `index` needs no call of the source: the value there is stored,
    /// or the source is known to be exhausted.
    pub open spec fn settled(&self, index: int) -> bool {
        self.cache().exhausted() || index < self.cache().stored().len()
    }

    /// The cache under the cursor is well formed.
    pub open spec fn wf(&self) -> bool {
        self.cache().wf()
    }

    /// A cursor at position zero over `source`, with nothing produced yet.
    pub fn new(source: S) -> (r: Self)
        ensures
            r.wf(),
            r.origin() == source,
            r.position() == 0,
            r.cache().stored() == Seq::<S::Item>::empty(),
            r.cache().pulls() == 0,
    {
        Reiterator { cache: Cache::new(source), index: 0 }
    }

    /// Move the cursor back to position zero; what was produced stays.
    pub fn restart(&mut self)
        ensures
            final(self).position() == 0,
            final(self).cache() == old(self).cache(),
    {
        self.index = 0;
    }

    /// The value at `index`, produced if not yet produced; the position is left alone.
    pub fn at(&mut self, index: usize) -> (r: Option<&S::Item>)
        requires
            old(self).wf(),
        ensures
            final(self).wf(),
            final(self).position() == old(self).position(),
            final(self).origin() == old(self).origin(),
            old(self).cache().stored().is_prefix_of(final(self).cache().stored()),
            r == (if old(self).finds(index as nat) {
                Some(&old(self).value_at(index as nat))
            } else {
                None
            }),
            old(self).settled(index as int) ==> final(self).cache() == old(self).cache(),
            r is Some ==> (index as int) < final(self).cache().stored().len(),
            r is None ==> final(self).cache().exhausted(),
    {
        self.cache.get(index)
    }

    /// The value at the current position with its index; the position is left alone.
    pub fn get(&mut self) -> (r: Option<Indexed<'_, S::Item>>)
        requires
            old(self).wf(),
        ensures
            final(self).wf(),
            final(self).position() == old(self).position(),
            final(self).origin() == old(self).origin(),
            old(self).cache().stored().is_prefix_of(final(self).cache().stored()),
            r == (if old(self).finds(old(self).position() as nat) {
                Some(
                    Indexed {
                        index: old(self).position(),
                        value: &old(self).value_at(old(self).position() as nat),
                    },
                )
            } else {
                None
            }),
            old(self).settled(old(self).position() as int) ==> final(self).cache() == old(
                self,
            ).cache(),
            r is Some ==> (old(self).position() as int) < final(self).cache().stored().len(),
            r is None ==> final(self).cache().exhausted(),
    {
        let index = self.index;
        match self.cache.get(index) {
            Some(value) => Some(Indexed { index, value }),
            None => None,
        }
    }

    /// Move the cursor one position on without producing anything; `None`, with
    /// the position unchanged, when the position cannot grow.
    pub fn lazy_next(&mut self) -> (r: Option<usize>)
        ensures
            final(self).cache() == old(self).cache(),
            old(self).position() < usize::MAX ==> final(self).position() == old(self).position() + 1
                && r == Some(final(self).position()),
            old(self).position() == usize::MAX ==> final(self).position() == old(self).position()
                && r is None,
    {
        if self.index < usize::MAX {
            self.index = self.index + 1;
            Some(self.index)
        } else {
            None
        }
    }

    /// The value at the current position with its index, after which the cursor
    /// stands one position on. `None`, with nothing changed, when the position
    /// cannot grow.
    pub fn next(&mut self) -> (r: Option<Indexed<'_, S::Item>>)
        requires
            old(self).wf(),
        ensures
            final(self).wf(),
            final(self).origin() == old(self).origin(),
            old(self).cache().stored().is_prefix_of(final(self).cache().stored()),
            old(self).position() == usize::MAX ==> r is None && *final(self) == *old(self),
            old(self).position() < usize::MAX ==> final(self).position() == old(self).position()
                + 1,
            old(self).position() < usize::MAX ==> r == (if old(self).finds(
                old(self).position() as nat,
            ) {
                Some(
                    Indexed {
                        index: old(self).position(),
                        value: &old(self).value_at(old(self).position() as nat),
                    },
                )
            } else {
                None
            }),
            old(self).settled(old(self).position() as int) ==> final(self).cache() == old(
                self,
            ).cache(),
            old(self).position() < usize::MAX && r is Some ==> (old(self).position() as int)
                < final(self).cache().stored().len(),
            old(self).position() < usize::MAX && r is None ==> final(self).cache().exhausted(),
    {
        let index = self.index;
        if self.lazy_next().is_none() {
            return None;
        }
        match self.cache.get(index) {
            Some(value) => Some(Indexed { index, value }),
            None => None,
        }
    }

    /// A cursor that passes each fetched pair through `un_reference_inator`.
    pub fn map<UnReferenceInator: FnMut(Indexed<'_, S::Item>) -> Output, Output>(
        self,
        un_reference_inator: UnReferenceInator,
    ) -> (r: MapIndexed<S, UnReferenceInator, Output>)
        ensures
            r.cursor() == self,
            r.function() == un_reference_inator,
    {
        MapIndexed { iter: self, un_reference_inator }
    }

    /// A cursor that passes the index of each fetched pair through `un_reference_inator`.
    pub fn map_indices<UnReferenceInator: FnMut(usize) -> Output, Output>(
        self,
        un_reference_inator: UnReferenceInator,
    ) -> (r: MapIndices<S, UnReferenceInator, Output>)
        ensures
            r.cursor() == self,
            r.function() == un_reference_inator,
    {
        MapIndices { iter: self, un_reference_inator }
    }

    /// A cursor that passes the value of each fetched pair through `un_reference_inator`.
    pub fn map_values<UnReferenceInator: FnMut(&S::Item) -> Output, Output>(
        self,
        un_reference_inator: UnReferenceInator,
    ) -> (r: MapValues<S, UnReferenceInator, Output>)
        ensures
            r.cursor() == self,
            r.function() == un_reference_inator,
    {
        MapValues { iter: self, un_reference_inator }
    }

    /// A cursor that hands out each fetched pair as its index and a clone of its value.
    pub fn cloned(self) -> (r: MapIndexed<
        S,
        impl FnMut(Indexed<'_, S::Item>) -> (usize, S::Item),
        (usize, S::Item),
    >) where S::Item: Clone
        ensures
            r.cursor() == self,
            forall|i: Indexed<'_, S::Item>| #[trigger] r.function().requires((i,)),
            forall|i: Indexed<'_, S::Item>, pair: (usize, S::Item)|
                #[trigger] r.function().ensures((i,), pair) ==> pair.0 == i.index && cloned(
                    *i.value,
                    pair.1,
                ),
    {
        let clone_pair = |indexed: Indexed<'_, S::Item>| -> (pair: (usize, S::Item))
            ensures
                pair.0 == indexed.index,
                cloned(*indexed.value, pair.1),
        {
            let value = indexed.value.clone();
            (indexed.index, value)
        };
        MapIndexed { iter: self, un_reference_inator: clone_pair }
    }
}

/// Over a source of exactly `n` values, lookups at positions `0, 1, ..., n - 1`
/// find the source's values there, and lookups at `n` or later find nothing. As
/// `next` fetches at the position it starts from and moves one on, `n` calls on a
/// fresh cursor give the pairs at `0, 1, ..., n - 1` in order, and the next call
/// gives nothing.
pub proof fn lemma_traversal<S: Source>(cursor: Reiterator<S>, n: nat)
    requires
        yields(cursor.origin(), n),
        cursor.origin().upcoming(n) is None,
    ensures
        forall|k: nat| k < n ==> #[trigger] cursor.finds(k),
        forall|k: nat| k < n ==> cursor.origin().upcoming(k) == Some(#[trigger] cursor.value_at(k)),
        forall|k: nat| k >= n ==> !#[trigger] cursor.finds(k),
{
    assert forall|k: nat| k >= n implies !#[trigger] cursor.finds(k) by {
        assert(cursor.origin().upcoming(n) is None);
    }
}

/// Replaying is exact: what a cursor fetches depends only on the source it was
/// built over and its position, and a position already fetched finds the value
/// stored the first time. `restart` keeps the cache and returns to position zero,
/// so the same calls after it fetch the same pairs as before it.
pub proof fn lemma_replay<S: Source>(first: Reiterator<S>, again: Reiterator<S>)
    requires
        first.wf(),
        again.wf(),
        again.origin() == first.origin(),
        again.position() == first.position(),
        first.cache().stored().is_prefix_of(again.cache().stored()),
    ensures
        again.finds(again.position() as nat) == first.finds(first.position() as nat),
        again.value_at(again.position() as nat) == first.value_at(first.position() as nat),
        ({
            let k = first.position() as int;
            k < first.cache().stored().len() ==> {
                &&& again.cache().stored()[k] == first.cache().stored()[k]
                &&& first.value_at(k as nat) == first.cache().stored()[k]
            }
        }),
{
    let k = first.position() as int;
    if k < first.cache().stored().len() {
        crate::cache::lemma_stored_prefix(first.cache(), k);
    }
}

/// A cursor whose pairs are passed through a function as they are fetched.
#[verifier::reject_recursive_types(Output)]
pub struct MapIndexed<S: Source, UnReferenceInator: FnMut(Indexed<'_, S::Item>) -> Output, Output> {
    iter: Reiterator<S>,
    un_reference_inator: UnReferenceInator,
}

impl<S: Source, UnReferenceInator: FnMut(Indexed<'_, S::Item>) -> Output, Output> MapIndexed<
    S,
    UnReferenceInator,
    Output,
> {
    /// The cursor underneath.
    pub closed spec fn cursor(&self) -> Reiterator<S> {
        self.iter
    }

    /// The function applied to each pair.
    pub closed spec fn function(&self) -> UnReferenceInator {
        self.un_reference_inator
    }

    /// The function's result on the pair that the cursor's `next` fetches.
    pub fn next(&mut self) -> (r: Option<Output>)
        requires
            old(self).cursor().wf(),
            forall|i: Indexed<'_, S::Item>| #[trigger] old(self).function().requires((i,)),
        ensures
            final(self).cursor().wf(),
            final(self).cursor().origin() == old(self).cursor().origin(),
            old(self).cursor().position() == usize::MAX ==> r is None && final(self).cursor()
                == old(self).cursor(),
            old(self).cursor().cache().stored().is_prefix_of(final(self).cursor().cache().stored()),
            old(self).cursor().settled(old(self).cursor().position() as int)
                ==> final(self).cursor().cache() == old(self).cursor().cache(),
            old(self).cursor().position() < usize::MAX ==> final(self).cursor().position()
                == old(self).cursor().position() + 1,
            old(self).cursor().position() < usize::MAX ==> (r is Some <==> old(self).cursor().finds(
                old(self).cursor().position() as nat,
            )),
            r is Some ==> old(self).function().ensures(
                (Indexed {
                    index: old(self).cursor().position(),
                    value: &old(self).cursor().value_at(old(self).cursor().position() as nat),
                },),
                r->0,
            ),
    {
        let ghost f = self.un_reference_inator;
        assert(f == old(self).function());
        match self.iter.next() {
            Some(indexed) => {
                Some((self.un_reference_inator)(indexed))
            },
            None => None,
        }
    }
}

/// A cursor whose indices are passed through a function as they are fetched.
#[verifier::reject_recursive_types(Output)]
pub struct MapIndices<S: Source, UnReferenceInator: FnMut(usize) -> Output, Output> {
    iter: Reiterator<S>,
    un_reference_inator: UnReferenceInator,
}

impl<S: Source, UnReferenceInator: FnMut(usize) -> Output, Output> MapIndices<
    S,
    UnReferenceInator,
    Output,
> {
    /// The cursor underneath.
    pub closed spec fn cursor(&self) -> Reiterator<S> {
        self.iter
    }

    /// The function applied to each fetched index.
    pub closed spec fn function(&self) -> UnReferenceInator {
        self.un_reference_inator
    }

    /// The function's result on the index of the pair that the cursor's `next` fetches.
    pub fn next(&mut self) -> (r: Option<Output>)
        requires
            old(self).cursor().wf(),
            forall|i: usize| #[trigger] old(self).function().requires((i,)),
        ensures
            final(self).cursor().wf(),
            final(self).cursor().origin() == old(self).cursor().origin(),
            old(self).cursor().position() == usize::MAX ==> r is None && final(self).cursor()
                == old(self).cursor(),
            old(self).cursor().cache().stored().is_prefix_of(final(self).cursor().cache().stored()),
            old(self).cursor().settled(old(self).cursor().position() as int)
                ==> final(self).cursor().cache() == old(self).cursor().cache(),
            old(self).cursor().position() < usize::MAX ==> final(self).cursor().position()
                == old(self).cursor().position() + 1,
            old(self).cursor().position() < usize::MAX ==> (r is Some <==> old(self).cursor().finds(
                old(self).cursor().position() as nat,
            )),
            r is Some ==> old(self).function().ensures(
                (old(self).cursor().position(),),
                r->0,
            ),
    {
        let ghost f = self.un_reference_inator;
        assert(f == old(self).function());
        match self.iter.next() {
            Some(indexed) => Some((self.un_reference_inator)(indexed.index)),
            None => None,
        }
    }
}

/// A cursor whose values are passed through a function as they are fetched.
#[verifier::reject_recursive_types(Output)]
pub struct MapValues<S: Source, UnReferenceInator: FnMut(&S::Item) -> Output, Output> {
    iter: Reiterator<S>,
    un_reference_inator: UnReferenceInator,
}

impl<S: Source, UnReferenceInator: FnMut(&S::Item) -> Output, Output> MapValues<
    S,
    UnReferenceInator,
    Output,
> {
    /// The cursor underneath.
    pub closed spec fn cursor(&self) -> Reiterator<S> {
        self.iter
    }

    /// The function applied to each fetched value.
    pub closed spec fn function(&self) -> UnReferenceInator {
        self.un_reference_inator
    }

    /// The function's result on the value of the pair that the cursor's `next` fetches.
    pub fn next(&mut self) -> (r: Option<Output>)
        requires
            old(self).cursor().wf(),
            forall|i: &S::Item| #[trigger] old(self).function().requires((i,)),
        ensures
            final(self).cursor().wf(),
            final(self).cursor().origin() == old(self).cursor().origin(),
            old(self).cursor().position() == usize::MAX ==> r is None && final(self).cursor()
                == old(self).cursor(),
            old(self).cursor().cache().stored().is_prefix_of(final(self).cursor().cache().stored()),
            old(self).cursor().settled(old(self).cursor().position() as int)
                ==> final(self).cursor().cache() == old(self).cursor().cache(),
            old(self).cursor().position() < usize::MAX ==> final(self).cursor().position()
                == old(self).cursor().position() + 1,
            old(self).cursor().position() < usize::MAX ==> (r is Some <==> old(self).cursor().finds(
                old(self).cursor().position() as nat,
            )),
            r is Some ==> old(self).function().ensures(
                (&old(self).cursor().value_at(old(self).cursor().position() as nat),),
                r->0,
            ),
    {
        let ghost f = self.un_reference_inator;
        assert(f == old(self).function());
        match self.iter.next() {
            Some(indexed) => Some((self.un_reference_inator)(indexed.value)),
            None => None,
        }
    }
}

/// A cursor at position zero over `source`, with nothing produced yet.
pub fn reiterate<S: Source>(source: S) -> (r: Reiterator<S>)
    ensures
        r.wf(),
        r.origin() == source,
        r.position() == 0,
        r.cache().stored() == Seq::<S::Item>::empty(),
        r.cache().pulls() == 0,
{
    Reiterator::new(source)
}

/// Turn a source into a cursor by method call.
pub trait Reiterate: Source + Sized {
    /// A cursor at position zero over this source, with nothing produced yet.
    fn reiterate(self) -> (r: Reiterator<Self>)
        ensures
            r.wf(),
            r.origin() == self,
            r.position() == 0,
            r.cache().stored() == Seq::<Self::Item>::empty(),
            r.cache().pulls() == 0,
    ;
}

impl<S: Source> Reiterate for S {
    fn reiterate(self) -> (r: Reiterator<Self>) {
        reiterate(self)
    }
}

} // verus!
