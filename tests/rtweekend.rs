use rand::rngs::StdRng;
use rand::SeedableRng;
use raytracer::{int_from_offset, random_int};

#[test]
fn random_int_stays_in_range() {
    let mut rng = StdRng::seed_from_u64(1);
    for _ in 0..1000 {
        let r = random_int(&mut rng, -3, 7);
        assert!((-3..=7).contains(&r));
    }
}

#[test]
fn random_int_single_value_range() {
    let mut rng = StdRng::seed_from_u64(2);
    for _ in 0..50 {
        assert_eq!(random_int(&mut rng, 5, 5), 5);
        assert_eq!(random_int(&mut rng, -9, -9), -9);
    }
}

#[test]
fn random_int_reaches_both_ends() {
    let mut rng = StdRng::seed_from_u64(3);
    let mut seen_low = false;
    let mut seen_high = false;
    for _ in 0..400 {
        match random_int(&mut rng, 0, 1) {
            0 => seen_low = true,
            1 => seen_high = true,
            other => panic!("out of range: {}", other),
        }
    }
    assert!(seen_low && seen_high);
}

#[test]
fn random_int_extreme_bounds() {
    let mut rng = StdRng::seed_from_u64(4);
    let mut seen_negative = false;
    let mut seen_positive = false;
    for _ in 0..200 {
        let r = random_int(&mut rng, i32::MIN, i32::MAX - 1);
        if r < 0 {
            seen_negative = true;
        } else if r > 0 {
            seen_positive = true;
        }
        let s = random_int(&mut rng, i32::MAX - 2, i32::MAX - 1);
        assert!(s >= i32::MAX - 2 && s <= i32::MAX - 1);
        let t = random_int(&mut rng, i32::MIN, i32::MIN + 1);
        assert!(t <= i32::MIN + 1);
    }
    assert!(seen_negative && seen_positive);
}

#[test]
fn offset_above_minimum() {
    assert_eq!(int_from_offset(-3, 7, 0), -3);
    assert_eq!(int_from_offset(-3, 7, 5), 2);
    assert_eq!(int_from_offset(-3, 7, 10), 7);
    assert_eq!(int_from_offset(4, 4, 0), 4);
}

#[test]
fn offset_over_full_range() {
    assert_eq!(int_from_offset(i32::MIN, i32::MAX, 0), i32::MIN);
    assert_eq!(int_from_offset(i32::MIN, i32::MAX, u32::MAX as u64), i32::MAX);
    assert_eq!(int_from_offset(i32::MIN, i32::MAX, 1u64 << 31), 0);
}

#[test]
fn random_int_same_seed_same_draws() {
    let mut a = StdRng::seed_from_u64(42);
    let mut b = StdRng::seed_from_u64(42);
    let xs: Vec<i32> = (0..100).map(|_| random_int(&mut a, -50, 50)).collect();
    let ys: Vec<i32> = (0..100).map(|_| random_int(&mut b, -50, 50)).collect();
    assert_eq!(xs, ys);
}
