use aim_trainer::rng::{rng_bits53, seed_from_nanos, FALLBACK_SEED};
use aim_trainer::rng_u64;

#[test]
fn rng_first_outputs_from_seed_one() {
    let mut s: u64 = 1;
    let a = rng_u64(&mut s);
    assert_eq!(a, 1082269761);
    assert_eq!(s, 1082269761);
    let b = rng_u64(&mut s);
    assert_eq!(b, 1152992998833853505);
    assert_eq!(s, b);
}

#[test]
fn rng_zero_state_is_stuck() {
    let mut s: u64 = 0;
    assert_eq!(rng_u64(&mut s), 0);
    assert_eq!(s, 0);
}

#[test]
fn rng_nonzero_seed_never_yields_zero() {
    let mut s: u64 = 0x1234_5678;
    for _ in 0..10_000 {
        assert_ne!(rng_u64(&mut s), 0);
    }
}

#[test]
fn rng_same_seed_same_stream() {
    let mut a: u64 = 42;
    let mut b: u64 = 42;
    for _ in 0..100 {
        assert_eq!(rng_u64(&mut a), rng_u64(&mut b));
    }
}

#[test]
fn rng_distinct_states_step_apart() {
    let mut a: u64 = 7;
    let mut b: u64 = 8;
    assert_ne!(rng_u64(&mut a), rng_u64(&mut b));
}

#[test]
fn bits53_are_high_bits_of_next_output() {
    let mut s: u64 = 1;
    let r = rng_bits53(&mut s);
    assert_eq!(r, 1082269761u64 >> 11);
    assert_eq!(r, 528452);
    assert_eq!(s, 1082269761);
    let mut t: u64 = u64::MAX;
    for _ in 0..1000 {
        assert!(rng_bits53(&mut t) < (1u64 << 53));
    }
}

#[test]
fn seed_forces_low_bit() {
    assert_eq!(seed_from_nanos(Some(10)), 11);
    assert_eq!(seed_from_nanos(Some(0)), 1);
    assert_eq!(seed_from_nanos(Some(7)), 7);
    assert_eq!(seed_from_nanos(None), FALLBACK_SEED | 1);
    assert_eq!(seed_from_nanos(None), 0x9E37_79B9_7F4A_7C15);
}

#[test]
fn state_next_rand_matches_rng() {
    let mut s: u64 = seed_from_nanos(None);
    assert_eq!(rng_u64(&mut s), 15860402102123842989);
}
