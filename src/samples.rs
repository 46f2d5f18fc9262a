//! Sample declarations. Their structured signatures, as the renderer shows
//! them, are given in their doc comments; the renderer's tests describe
//! these items as entities and check those renderings.

use vstd::prelude::*;

verus! {

/// Renders as `pub fn fn2()`.
pub fn fn2() {
}

/// Renders as `pub fn fn3() -> i32`.
pub fn fn3() -> (r: i32)
    ensures
        r == 1,
{
    1
}

} // verus!
