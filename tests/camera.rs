use raytracer::sqrt_spp;

#[test]
fn sample_grid_side_exact_values() {
    assert_eq!(sqrt_spp(0), 0);
    assert_eq!(sqrt_spp(1), 1);
    assert_eq!(sqrt_spp(3), 1);
    assert_eq!(sqrt_spp(4), 2);
    assert_eq!(sqrt_spp(10), 3);
    assert_eq!(sqrt_spp(100), 10);
    assert_eq!(sqrt_spp(1000), 31);
    assert_eq!(sqrt_spp(4_294_836_225), 65_535);
    assert_eq!(sqrt_spp(u32::MAX), 65_535);
}

#[test]
fn sample_grid_side_is_floor_sqrt() {
    for n in 0u32..5000 {
        let s = sqrt_spp(n) as u64;
        assert!(s * s <= n as u64);
        assert!((n as u64) < (s + 1) * (s + 1));
    }
}
