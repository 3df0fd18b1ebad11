use vstd::prelude::*;

verus! {

/// Number of counter classes: categories are the integers `0 .. NUM_CATEGORIES`.
pub const NUM_CATEGORIES: u8 = 3;

/// Whether `c` names one of the supported counter classes.
pub open spec fn valid_category(c: int) -> bool {
    0 <= c < NUM_CATEGORIES as int
}

/// Tests a category value against the supported range.
pub fn is_category(c: u8) -> (r: bool)
    ensures
        r == valid_category(c as int),
{
    c < NUM_CATEGORIES
}

} // verus!
