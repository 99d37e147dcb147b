//! A vector with a capacity fixed by its type.

use vstd::prelude::*;

verus! {

/// A vector that holds at most `N` items.
pub struct FixedVec<T, const N: usize> {
    data: Vec<T>,
}

impl<T, const N: usize> FixedVec<T, N> {
    /// The items, in the order in which they were pushed.
    pub closed spec fn view(&self) -> Seq<T> {
        self.data@
    }

    #[verifier::type_invariant]
    spec fn inv(self) -> bool {
        self.data@.len() <= N
    }

    /// An empty vector. (`template` is what the free slots hold.)
    pub fn new(template: T) -> (r: Self)
        where
            T: Copy,
        ensures
            r.view() == Seq::<T>::empty(),
    {
        FixedVec { data: Vec::new() }
    }

    /// Appends `val`; a full vector hands it back.
    pub fn push(&mut self, val: T) -> (r: Result<(), T>)
        ensures
            old(self).view().len() < N ==> r is Ok && final(self).view() == old(self).view().push(val),
            old(self).view().len() >= N ==> r == Err::<(), T>(val) && final(self).view() == old(self).view(),
    {
        proof {
            use_type_invariant(&*self);
        }
        if self.data.len() < N {
            let mut data = Vec::new();
            std::mem::swap(&mut data, &mut self.data);
            data.push(val);
            self.data = data;
            Ok(())
        } else {
            Err(val)
        }
    }

    /// Removes the last item; `None` when there is none.
    pub fn pop(&mut self) -> (r: Option<T>)
        ensures
            old(self).view().len() > 0 ==> r == Some(old(self).view().last()) && final(self).view()
                == old(self).view().drop_last(),
            old(self).view().len() == 0 ==> r is None && final(self).view() == old(self).view(),
    {
        proof {
            use_type_invariant(&*self);
        }
        let mut data = Vec::new();
        std::mem::swap(&mut data, &mut self.data);
        let r = data.pop();
        self.data = data;
        r
    }

    pub fn len(&self) -> (r: usize)
        ensures
            r == self.view().len(),
            r <= N,
    {
        proof {
            use_type_invariant(self);
        }
        self.data.len()
    }

    pub fn capacity(&self) -> (r: usize)
        ensures
            r == N,
    {
        N
    }

    pub fn as_slice(&self) -> (r: &[T])
        ensures
            r@ == self.view(),
    {
        self.data.as_slice()
    }
}

/// What is pushed onto a vector that has room comes back from the next pop, and the
/// vector is as it was; a vector never holds more than its capacity.
pub proof fn lemma_push_pop<T, const N: usize>(items: Seq<T>, val: T)
    requires
        items.len() < N,
    ensures
        items.push(val).last() == val,
        items.push(val).drop_last() == items,
        items.push(val).len() <= N,
{
    assert(items.push(val).drop_last() =~= items);
}

} // verus!
