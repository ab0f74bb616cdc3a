use vstd::prelude::*;

verus! {

/// The uniform distribution of directions over the unit sphere.
pub struct SpherePdf;

} // verus!
