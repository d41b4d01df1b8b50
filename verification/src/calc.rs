use vstd::prelude::*;

verus! {

/// True when `v` is representable as an `i32`.
pub open spec fn fits_i32(v: int) -> bool {
    i32::MIN <= v <= i32::MAX
}

/// The calculator component: integer addition and subtraction.
pub struct Component;

impl Component {
    /// Sum of `x` and `y`; the sum must fit in an `i32` (overflow panics in
    /// a debug build of the component).
    pub fn add(x: i32, y: i32) -> (r: i32)
        requires
            fits_i32(x + y),
        ensures
            r == x + y,
    {
        x + y
    }

    /// Difference `x - y`; the difference must fit in an `i32`.
    pub fn sub(x: i32, y: i32) -> (r: i32)
        requires
            fits_i32(x - y),
        ensures
            r == x - y,
    {
        x - y
    }
}

/// Subtracting `y` undoes adding `y`: whenever `x + y` fits, so does
/// `(x + y) - y`, and it equals `x`.
pub proof fn lemma_sub_undoes_add(x: i32, y: i32)
    requires
        fits_i32(x + y),
    ensures
        fits_i32((x + y) - y),
        (x + y) - y == x,
{
}

/// Adding `y` undoes subtracting `y`.
pub proof fn lemma_add_undoes_sub(x: i32, y: i32)
    requires
        fits_i32(x - y),
    ensures
        fits_i32((x - y) + y),
        (x - y) + y == x,
{
}

} // verus!
