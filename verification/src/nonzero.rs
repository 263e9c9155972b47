//! Positive 32-bit numbers.

use vstd::prelude::*;

verus! {

/// A number that is not zero.
#[derive(Debug, Clone, Copy)]
pub struct NonZeroU32 {
    value: u32,
}

impl View for NonZeroU32 {
    type V = u32;

    closed spec fn view(&self) -> u32 {
        self.value
    }
}

impl NonZeroU32 {
    #[verifier::type_invariant]
    spec fn positive(self) -> bool {
        self.value > 0
    }

    /// Wraps a number, unless it is zero.
    pub fn new(n: u32) -> (wrapped: Option<NonZeroU32>)
        ensures
            wrapped is Some <==> n != 0,
            wrapped matches Some(w) ==> w@ == n,
    {
        if n == 0 {
            None
        } else {
            Some(NonZeroU32 { value: n })
        }
    }

    /// The number itself.
    pub fn get(self) -> (n: u32)
        ensures
            n == self@,
            n > 0,
    {
        proof {
            use_type_invariant(&self);
        }
        self.value
    }
}

/// The number in an optional wrapper.
pub open spec fn plain(n: Option<NonZeroU32>) -> Option<u32> {
    match n {
        Some(n) => Some(n@),
        None => None,
    }
}

/// The number in an optional wrapper.
pub fn get_plain(n: Option<NonZeroU32>) -> (inner: Option<u32>)
    ensures
        inner == plain(n),
        inner matches Some(v) ==> v > 0,
{
    match n {
        Some(n) => Some(n.get()),
        None => None,
    }
}

} // verus!
