use vstd::prelude::*;

verus! {

#[verifier::external_type_specification]
#[verifier::external_body]
pub struct ExStdRng(rand::rngs::StdRng);

/// Relies on `rand::Rng::random_range` over `0..=high`: the draw lies in that
/// range, which is never empty.
#[verifier::external_body]
pub(crate) fn random_up_to(rng: &mut rand::rngs::StdRng, high: u64) -> (r: u64)
    ensures
        r <= high,
{
    rand::Rng::random_range(rng, 0..=high)
}

/// The integer `offset` steps above `min`, for an offset that stays within
/// `[min, max]`.
pub fn int_from_offset(min: i32, max: i32, offset: u64) -> (r: i32)
    requires
        min <= max,
        offset <= max - min,
    ensures
        r == min + offset,
        min <= r <= max,
{
    (min as i64 + offset as i64) as i32
}

/// An integer drawn from `rng` uniformly in the closed range `[min, max]`:
/// a uniform offset in `[0, max - min]` above `min`. The range must end below
/// `i32::MAX`, as its exclusive end `max + 1` is an `i32` too.
pub fn random_int(rng: &mut rand::rngs::StdRng, min: i32, max: i32) -> (r: i32)
    requires
        min <= max < i32::MAX,
    ensures
        min <= r <= max,
{
    let span: u64 = (max as i64 - min as i64) as u64;
    let offset: u64 = random_up_to(rng, span);
    int_from_offset(min, max, offset)
}

} // verus!
