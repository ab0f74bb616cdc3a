use vstd::prelude::*;

verus! {

/// The material of geometry that stands only in the list of lights sampled
/// for direct lighting: it neither scatters nor emits.
pub struct EmptyMaterial;

} // verus!
