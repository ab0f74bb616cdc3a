use vstd::prelude::*;

verus! {

/// Side of the stratified sample grid of a pixel: the largest `s` with
/// `s * s <= samples_per_pixel`, so a pixel takes `s * s` jittered samples.
pub fn sqrt_spp(samples_per_pixel: u32) -> (s: u32)
    ensures
        s * s <= samples_per_pixel,
        samples_per_pixel < (s + 1) * (s + 1),
{
    let n = samples_per_pixel as u64;
    let mut s: u64 = 0;
    loop
        invariant
            s * s <= n,
            n <= u32::MAX,
            s <= 65536,
        ensures
            s * s <= n < (s + 1) * (s + 1),
        decreases n - s * s,
    {
        let next = s + 1;
        proof {
            assert(next <= 65536) by (nonlinear_arith)
                requires
                    s * s <= n,
                    n <= u32::MAX,
                    next == s + 1,
            ;
            assert(next * next <= 65536 * 65536) by (nonlinear_arith)
                requires
                    next <= 65536,
            ;
            assert(s * s < next * next) by (nonlinear_arith)
                requires
                    next == s + 1,
            ;
        }
        if next * next > n {
            break;
        }
        s = next;
    }
    proof {
        assert(s < 65536) by (nonlinear_arith)
            requires
                s * s <= n,
                n <= u32::MAX,
        ;
    }
    s as u32
}

} // verus!
