use vstd::prelude::*;

verus! {

/// One step of the xorshift64 generator (shifts 13, 7, 17).
pub open spec fn xorshift(x: u64) -> u64 {
    let a = x ^ (x << 13u64);
    let b = a ^ (a >> 7u64);
    b ^ (b << 17u64)
}

/// The generator state after `n` steps from `seed`.
pub open spec fn rng_state_after(seed: u64, n: nat) -> u64
    decreases n,
{
    if n == 0 {
        seed
    } else {
        xorshift(rng_state_after(seed, (n - 1) as nat))
    }
}

/// Fallback seed used when the clock cannot be read.
pub const FALLBACK_SEED: u64 = 0x9E37_79B9_7F4A_7C15;

/// Advances the generator state and returns the new state as the output.
pub fn rng_u64(s: &mut u64) -> (r: u64)
    ensures
        *final(s) == xorshift(*old(s)),
        r == *final(s),
        *old(s) != 0 ==> r != 0,
{
    let mut x = *s;
    x = x ^ (x << 13u64);
    x = x ^ (x >> 7u64);
    x = x ^ (x << 17u64);
    *s = x;
    proof {
        lemma_xorshift_nonzero(*old(s));
    }
    x
}

/// The 53 high bits of the next output: the integer numerator of a uniform
/// value in [0, 1) with denominator 2^53.
pub fn rng_bits53(s: &mut u64) -> (r: u64)
    ensures
        *final(s) == xorshift(*old(s)),
        r == xorshift(*old(s)) >> 11u64,
        r < 0x20_0000_0000_0000u64,
{
    let x = rng_u64(s);
    assert(x >> 11u64 < 0x20_0000_0000_0000u64) by (bit_vector);
    x >> 11u64
}

/// Seed for a new game state: the clock reading (nanoseconds) or a fixed
/// fallback, with the lowest bit forced on so the state is never zero.
pub fn seed_from_nanos(nanos: Option<u64>) -> (seed: u64)
    ensures
        seed == (match nanos {
            Some(n) => n,
            None => FALLBACK_SEED,
        }) | 1u64,
        seed % 2 == 1,
        seed != 0,
{
    let base = match nanos {
        Some(n) => n,
        None => FALLBACK_SEED,
    };
    let seed = base | 1u64;
    assert(seed % 2 == 1) by (bit_vector)
        requires
            seed == base | 1u64,
    ;
    seed
}

/// A nonzero state never steps to zero; zero is a fixed point.
pub proof fn lemma_xorshift_nonzero(x: u64)
    ensures
        x != 0 ==> xorshift(x) != 0,
        x == 0 ==> xorshift(x) == 0,
{
    let a = x ^ (x << 13u64);
    let b = a ^ (a >> 7u64);
    let c = b ^ (b << 17u64);
    assert(x != 0 ==> a != 0) by (bit_vector)
        requires
            a == x ^ (x << 13u64),
    ;
    assert(a != 0 ==> b != 0) by (bit_vector)
        requires
            b == a ^ (a >> 7u64),
    ;
    assert(b != 0 ==> c != 0) by (bit_vector)
        requires
            c == b ^ (b << 17u64),
    ;
    assert(x == 0 ==> c == 0) by (bit_vector)
        requires
            a == x ^ (x << 13u64),
            b == a ^ (a >> 7u64),
            c == b ^ (b << 17u64),
    ;
}

/// Law: a generator seeded with a nonzero value never reaches the zero state,
/// however many numbers are drawn.
pub proof fn lemma_stream_never_zero(seed: u64, n: nat)
    requires
        seed != 0,
    ensures
        rng_state_after(seed, n) != 0,
    decreases n,
{
    if n > 0 {
        lemma_stream_never_zero(seed, (n - 1) as nat);
        lemma_xorshift_nonzero(rng_state_after(seed, (n - 1) as nat));
    }
}

/// Law: xorshift is injective, so two different states never step to the same one.
pub proof fn lemma_xorshift_injective(x: u64, y: u64)
    ensures
        xorshift(x) == xorshift(y) ==> x == y,
{
    let ax = x ^ (x << 13u64);
    let bx = ax ^ (ax >> 7u64);
    let ay = y ^ (y << 13u64);
    let by_ = ay ^ (ay >> 7u64);
    assert(bx ^ (bx << 17u64) == by_ ^ (by_ << 17u64) ==> bx == by_) by (bit_vector);
    assert(bx == by_ ==> ax == ay) by (bit_vector)
        requires
            bx == ax ^ (ax >> 7u64),
            by_ == ay ^ (ay >> 7u64),
    ;
    assert(ax == ay ==> x == y) by (bit_vector)
        requires
            ax == x ^ (x << 13u64),
            ay == y ^ (y << 13u64),
    ;
}

} // verus!
