//! Selector types shared with the renderer's geometry kernel.

use vstd::prelude::*;

verus! {

/// The plane an axis-aligned rectangle lies in, named by the two axes it
/// spans; the remaining axis carries its normal.
#[derive(Clone, Copy)]
pub enum AxisAlignment {
    XY,
    XZ,
    YZ,
}

/// The distribution a random-vector sampler draws from.
pub enum RandomVectorType {
    InUnitDisk,
    InUnitSphere,
    Unit,
}

} // verus!
