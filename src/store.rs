//! Append-only storage whose elements never move once stored.
use vstd::prelude::*;

verus! {

/// An append-only sequence of values, each in an allocation of its own.
///
/// The growable index holds only the boxes; growing it moves the boxes, never
/// the values they own, so a value keeps its address for the life of the store.
pub struct Store<T> {
    slots: Vec<Box<T>>,
}

impl<T> View for Store<T> {
    type V = Seq<T>;

    /// The stored values, in the order in which they were appended.
    closed spec fn view(&self) -> Seq<T> {
        Seq::new(self.slots@.len(), |i: int| *self.slots@[i])
    }
}

impl<T> Store<T> {
    /// An empty store.
    pub fn new() -> (r: Self)
        ensures
            r@ == Seq::<T>::empty(),
    {
        let r = Store { slots: Vec::new() };
        assert(r@ =~= Seq::<T>::empty());
        r
    }

    /// Number of stored values.
    pub fn count(&self) -> (n: usize)
        ensures
            n == self@.len(),
    {
        self.slots.len()
    }

    /// Take ownership of `item`, place it in storage of its own and return a reference to it.
    pub fn append(&mut self, item: T) -> (r: &T)
        ensures
            final(self)@ == old(self)@.push(item),
            *r == item,
    {
        let ghost before = self@;
        self.slots.push(Box::new(item));
        assert(self@ =~= before.push(item));
        let last = self.slots.len() - 1;
        &*self.slots[last]
    }

    /// The value stored at `index`, or `None` when nothing is stored there.
    pub fn get(&self, index: usize) -> (r: Option<&T>)
        ensures
            r is Some <==> index < self@.len(),
            r is Some ==> *r->0 == self@[index as int],
    {
        if index < self.slots.len() {
            Some(&*self.slots[index])
        } else {
            None
        }
    }
}

} // verus!
