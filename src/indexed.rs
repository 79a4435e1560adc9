//! A produced value paired with its position in the production order.
use vstd::prelude::*;

verus! {

/// A value, together with how many values were produced before it.
#[derive(Clone, Copy, Debug, Eq, Hash, Ord, PartialEq, PartialOrd)]
pub struct Indexed<'value, Value> {
    /// Number of values produced before this one.
    pub index: usize,
    /// The produced value.
    pub value: &'value Value,
}

/// The index of an `Indexed` pair.
pub fn index<Value>(indexed: Indexed<'_, Value>) -> (r: usize)
    ensures
        r == indexed.index,
{
    indexed.index
}

/// The value of an `Indexed` pair.
pub fn value<Value>(indexed: Indexed<'_, Value>) -> (r: &Value)
    ensures
        *r == *indexed.value,
{
    indexed.value
}

/// A clone of the value of an `Indexed` pair.
pub fn clone_value<Value: Clone>(indexed: Indexed<'_, Value>) -> (r: Value)
    ensures
        cloned(*indexed.value, r),
{
    indexed.value.clone()
}

/// A copy of the value of an `Indexed` pair.
pub fn copy_value<Value: Copy>(indexed: Indexed<'_, Value>) -> (r: Value)
    ensures
        r == *indexed.value,
{
    *indexed.value
}

/// Projections of an optional `Indexed` pair onto its index or its value.
pub trait OptionIndexed<'value> {
    /// The type of the value in the pair.
    type Value;

    /// The index in the pair, if there is a pair.
    fn index(&self) -> Option<usize>;

    /// The value in the pair, if there is a pair.
    fn value(&self) -> Option<&'value Self::Value>;
}

impl<'value, Value> OptionIndexed<'value> for Option<Indexed<'value, Value>> {
    type Value = Value;

    fn index(&self) -> (r: Option<usize>)
        ensures
            r == (match *self {
                Some(i) => Some(i.index),
                None => None,
            }),
    {
        match self {
            Some(i) => Some(i.index),
            None => None,
        }
    }

    fn value(&self) -> (r: Option<&'value Value>)
        ensures
            r == (match *self {
                Some(i) => Some(i.value),
                None => None,
            }),
    {
        match self {
            Some(i) => Some(i.value),
            None => None,
        }
    }
}

} // verus!
