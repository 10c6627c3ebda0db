//! The place on an ease: where a value lies between two ends.
use crate::single::{Single, ONE_BITS, ZERO_BITS};
use vstd::prelude::*;

verus! {

/// A place on an ease: how far along a value lies, held between zero and one.
pub open spec fn place_on_ease(along: Single) -> Single {
    along.clamped(Single { bits: ZERO_BITS }, Single { bits: ONE_BITS })
}

/// Finds the place on an ease; `along` is the value's distance from the first end over the
/// distance between the two.
pub fn ease_place(along: Single) -> (r: Single)
    ensures
        r == place_on_ease(along),
{
    let zero = Single { bits: ZERO_BITS };
    let one = Single { bits: ONE_BITS };
    along.clamp(zero, one)
}

/// An ease starts and ends where its ends are, and runs between them.
pub proof fn an_ease_stays_between_its_ends(along: Single, zero: Single, one: Single)
    requires
        zero == (Single { bits: ZERO_BITS }),
        one == (Single { bits: ONE_BITS }),
        !along.not_a_number(),
    ensures
        zero.at_most(place_on_ease(along)) && place_on_ease(along).at_most(one),
        along.at_most(zero) ==> place_on_ease(along).same_number(zero),
        one.at_most(along) ==> place_on_ease(along).same_number(one),
{
    reveal(Single::clamped);
}

} // verus!
