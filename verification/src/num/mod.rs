//! Small numeric helper types.

use vstd::prelude::*;

pub mod le;

verus! {

/// A byte that is known not to be zero.
#[derive(Debug, Clone, Copy, PartialEq, Eq, PartialOrd, Ord, Structural)]
pub struct NonZeroU8 {
    value: u8,
}

impl View for NonZeroU8 {
    type V = u8;

    closed spec fn view(&self) -> u8 {
        self.value
    }
}

impl NonZeroU8 {
    #[verifier::type_invariant]
    spec fn inv(self) -> bool {
        self.value != 0
    }

    /// What `new` returns for `n`.
    pub closed spec fn spec_new(n: u8) -> Option<Self> {
        if n != 0 {
            Some(NonZeroU8 { value: n })
        } else {
            None
        }
    }

    /// A value is determined by the byte that it holds.
    pub broadcast proof fn lemma_view_injective(a: Self, b: Self)
        requires
            #[trigger] a@ == #[trigger] b@,
        ensures
            a == b,
    {
    }

    /// `spec_new(n)` holds `n` when `n` is not zero.
    pub broadcast proof fn lemma_spec_new(n: u8)
        ensures
            n != 0 ==> (#[trigger] Self::spec_new(n)) is Some && Self::spec_new(n).unwrap()@ == n,
            n == 0 ==> Self::spec_new(n) is None,
    {
    }

    /// Returns `Some` exactly when `n` is not zero.
    pub fn new(n: u8) -> (r: Option<Self>)
        ensures
            match r {
                Some(v) => v@ == n && n != 0,
                None => n == 0,
            },
            r == Self::spec_new(n),
    {
        if n != 0 {
            Some(NonZeroU8 { value: n })
        } else {
            None
        }
    }

    /// The value held, never zero.
    pub fn get(&self) -> (r: u8)
        ensures
            r == self@,
            r != 0,
    {
        proof {
            use_type_invariant(self);
        }
        self.value
    }
}

} // verus!
