//! An ordered row of proxies, and the iterators that walk it.

use crate::traits::proxy::Proxy;
use vstd::prelude::*;

verus! {

/// A common interface for immutable array proxies.
pub trait Array: Sized {
    /// The proxy stored in the array.
    type Value: Proxy;

    /// The proxies of the array, in order.
    spec fn slots(&self) -> Seq<Self::Value>;

    /// Returns the number of values in the array.
    fn len(&self) -> (count: usize)
        ensures
            count == self.slots().len(),
    ;

    /// Returns the proxy object at the given `index`.
    fn proxy(&self, index: usize) -> (slot: Self::Value)
        requires
            index < self.slots().len(),
        ensures
            slot.present() == self.slots()[index as int].present(),
            slot.held() == self.slots()[index as int].held(),
    ;

    /// Returns `true` if the array contains no values.
    fn is_empty(&self) -> (empty: bool)
        ensures
            empty == (self.slots().len() == 0),
    {
        self.len() == 0
    }

    /// Returns the value at the given `index`.
    fn get(&self, index: usize) -> (value: <Self::Value as Proxy>::Value)
        requires
            index < self.slots().len(),
        ensures
            value@ == self.slots()[index as int].held(),
    {
        self.proxy(index).get()
    }

    /// Returns a newly allocated vector containing all values in the array.
    fn to_vec(&self) -> (values: Vec<<Self::Value as Proxy>::Value>)
        ensures
            values@.len() == self.slots().len(),
            forall|i: int|
                0 <= i < values@.len() ==> (#[trigger] values@[i])@ == self.slots()[i].held(),
    {
        let mut values: Vec<<Self::Value as Proxy>::Value> = Vec::new();
        let count: usize = self.len();
        let mut index: usize = 0;
        while index < count
            invariant
                index <= count,
                count == self.slots().len(),
                values@.len() == index,
                forall|i: int|
                    0 <= i < index ==> (#[trigger] values@[i])@ == self.slots()[i].held(),
            decreases count - index,
        {
            let value = self.get(index);
            values.push(value);
            index = index + 1;
        }
        values
    }

    /// Returns an iterator over the array.
    fn iter(&self) -> (iter: Iter<'_, Self>)
        ensures
            iter.position() == Some(0usize),
            iter.scope() == self,
    {
        Iter::new(self)
    }

    /// Returns a by-value iterator over the array.
    fn into_iter(self) -> (iter: IntoIter<Self>)
        ensures
            iter.position() == Some(0usize),
            iter.scope() == self,
    {
        IntoIter::new(self)
    }
}

impl<P: Proxy + Copy> Array for Vec<P> {
    type Value = P;

    open spec fn slots(&self) -> Seq<P> {
        self@
    }

    fn len(&self) -> (count: usize) {
        assert(self.slots() == self@);
        Vec::len(self)
    }

    fn proxy(&self, index: usize) -> (slot: P) {
        assert(self.slots() == self@);
        self[index]
    }
}

/// Where an iterator stands after one step from `position`: one further, or
/// nowhere once the index cannot grow.
pub open spec fn stepped(position: Option<usize>) -> Option<usize> {
    match position {
        Some(index) => if index < usize::MAX {
            Some((index + 1) as usize)
        } else {
            None
        },
        None => None,
    }
}

/// The index of the value that an iterator at `position` hands out next from
/// an array of `count` values, if there is one.
pub open spec fn pending(position: Option<usize>, count: nat) -> Option<usize> {
    match position {
        Some(index) => if index < count {
            Some(index)
        } else {
            None
        },
        None => None,
    }
}

/// A by-reference array iterator.
pub struct Iter<'a, T> {
    index: Option<usize>,
    scope: &'a T,
}

impl<'a, T> Iter<'a, T> {
    /// The index of the next value; `None` once the index has run out.
    pub closed spec fn position(&self) -> Option<usize> {
        self.index
    }

    /// The array that the iterator walks.
    pub closed spec fn scope(&self) -> &'a T {
        self.scope
    }

    /// Creates an iterator at the start of `scope`.
    pub fn new(scope: &'a T) -> (iter: Self)
        ensures
            iter.position() == Some(0usize),
            iter.scope() == scope,
    {
        Self { index: Some(0), scope }
    }

    /// Moves one value further.
    pub fn step(&mut self)
        ensures
            final(self).position() == stepped(old(self).position()),
            final(self).scope() == old(self).scope(),
    {
        self.index = match self.index {
            Some(index) => if index < usize::MAX {
                Some(index + 1)
            } else {
                None
            },
            None => None,
        };
    }
}

impl<'a, T: Array> Iter<'a, T> {
    /// Hands out the next value and moves past it; `None`, and no move, once
    /// the array is walked through.
    pub fn next(&mut self) -> (item: Option<<T::Value as Proxy>::Value>)
        ensures
            final(self).scope() == old(self).scope(),
            match pending(old(self).position(), old(self).scope().slots().len()) {
                Some(index) => item.is_some() && item.unwrap()@ == old(self).scope().slots()[index as int].held()
                    && final(self).position() == stepped(old(self).position()),
                None => item.is_none() && final(self).position() == old(self).position(),
            },
    {
        match self.index {
            None => None,
            Some(index) => {
                if index >= self.scope.len() {
                    None
                } else {
                    self.step();
                    Some(self.scope.get(index))
                }
            },
        }
    }
}

impl<'a, T> Clone for Iter<'a, T> {
    fn clone(&self) -> (iter: Self)
        ensures
            iter.position() == self.position(),
            iter.scope() == self.scope(),
    {
        Self { index: self.index, scope: self.scope }
    }
}

/// A by-value array iterator.
pub struct IntoIter<T> {
    index: Option<usize>,
    scope: T,
}

impl<T> IntoIter<T> {
    /// The index of the next value; `None` once the index has run out.
    pub closed spec fn position(&self) -> Option<usize> {
        self.index
    }

    /// The array that the iterator walks.
    pub closed spec fn scope(&self) -> T {
        self.scope
    }

    /// Creates an iterator at the start of `scope`.
    pub fn new(scope: T) -> (iter: Self)
        ensures
            iter.position() == Some(0usize),
            iter.scope() == scope,
    {
        Self { index: Some(0), scope }
    }

    /// Moves one value further.
    pub fn step(&mut self)
        ensures
            final(self).position() == stepped(old(self).position()),
            final(self).scope() == old(self).scope(),
    {
        self.index = match self.index {
            Some(index) => if index < usize::MAX {
                Some(index + 1)
            } else {
                None
            },
            None => None,
        };
    }
}

impl<T: Array> IntoIter<T> {
    /// Hands out the next value and moves past it; `None`, and no move, once
    /// the array is walked through.
    pub fn next(&mut self) -> (item: Option<<T::Value as Proxy>::Value>)
        ensures
            final(self).scope() == old(self).scope(),
            match pending(old(self).position(), old(self).scope().slots().len()) {
                Some(index) => item.is_some() && item.unwrap()@ == old(self).scope().slots()[index as int].held()
                    && final(self).position() == stepped(old(self).position()),
                None => item.is_none() && final(self).position() == old(self).position(),
            },
    {
        match self.index {
            None => None,
            Some(index) => {
                if index >= self.scope.len() {
                    None
                } else {
                    self.step();
                    Some(self.scope.get(index))
                }
            },
        }
    }
}

} // verus!
