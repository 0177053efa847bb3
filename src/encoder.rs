//! Relative position from a fixed-width, wrapping step counter.
use vstd::prelude::*;
use vstd::arithmetic::power2::{pow2, lemma2_to64, lemma_pow2_strictly_increases, lemma_pow2_pos};
use vstd::bits::lemma_usize_shl_is_mul;
use vstd::arithmetic::div_mod::{lemma_small_mod, lemma_mod_add_multiples_vanish, lemma_mod_sub_multiples_vanish};

verus! {

/// Mask of the most significant bit of a `bits`-wide counter.
pub open spec fn msb_mask(bits: u8) -> usize {
    1usize << ((bits - 1) as usize)
}

/// Whether the most significant bit of a `bits`-wide counter differs between `a` and `b`.
pub open spec fn msb_differs(bits: u8, a: usize, b: usize) -> bool {
    a & msb_mask(bits) != b & msb_mask(bits)
}

/// Signed movement from `last` to `steps` on a counter that wraps modulo `2^bits`:
/// the plain difference, corrected by one full turn when the top bit changed.
pub open spec fn delta_of(bits: u8, last: usize, steps: usize) -> int {
    let raw = steps - last;
    if msb_differs(bits, steps, last) {
        if steps > last {
            raw - pow2(bits as nat)
        } else {
            raw + pow2(bits as nat)
        }
    } else {
        raw
    }
}

/// Bit widths for which a full turn fits a signed machine word of 32 bits or more.
pub open spec fn valid_bits(bits: u8) -> bool {
    1 <= bits <= 30
}

proof fn lemma_turn_fits(bits: u8)
    requires
        valid_bits(bits),
    ensures
        pow2(bits as nat) <= pow2(30),
        pow2(30) == 0x4000_0000,
        (1usize << (bits as usize)) == pow2(bits as nat),
        msb_mask(bits) == pow2((bits - 1) as nat),
{
    lemma2_to64();
    if bits < 30 {
        lemma_pow2_strictly_increases(bits as nat, 30);
    }
    lemma_pow2_strictly_increases((bits - 1) as nat, bits as nat);
    lemma_usize_shl_is_mul(1, bits as usize);
    lemma_usize_shl_is_mul(1, (bits - 1) as usize);
}

/// Whatever the recorded and the new count, the recorded count plus the movement lands on
/// the new count modulo a full turn, the movement is less than a full turn either way,
/// and with the counter unmoved the movement is zero.
pub proof fn lemma_delta_lands_on_steps(bits: u8, last: usize, steps: usize)
    requires
        valid_bits(bits),
        last < pow2(bits as nat),
        steps < pow2(bits as nat),
    ensures
        (last + delta_of(bits, last, steps)) % (pow2(bits as nat) as int) == steps,
        -pow2(bits as nat) < delta_of(bits, last, steps) < pow2(bits as nat),
        delta_of(bits, steps, steps) == 0,
{
    let p = pow2(bits as nat) as int;
    lemma_small_mod(steps as nat, p as nat);
    if msb_differs(bits, steps, last) {
        if steps > last {
            lemma_mod_sub_multiples_vanish(steps as int, p);
        } else {
            lemma_mod_add_multiples_vanish(steps as int, p);
        }
    }
}

/// Stepping from the top count to zero is one step forward, not almost a full turn back.
pub proof fn lemma_wrap_boundary(bits: u8)
    requires
        valid_bits(bits),
    ensures
        delta_of(bits, (pow2(bits as nat) - 1) as usize, 0) == 1,
{
    lemma_turn_fits(bits);
    lemma_pow2_pos(bits as nat);
    let b = bits as usize;
    let k = (bits - 1) as usize;
    let top = ((pow2(bits as nat) - 1) as usize);
    assert(top == ((1usize << b) - 1usize) as usize);
    assert(top & (1usize << k) != 0 && 0usize & (1usize << k) == 0) by (bit_vector)
        requires
            1 <= b <= 30,
            k == (b - 1usize) as usize,
            top == ((1usize << b) - 1usize) as usize,
    ;
    assert(msb_differs(bits, 0, top));
}

/// An incremental encoder whose absolute step counter is `BITS` bits wide.
pub trait EncoderController<const BITS: u8> {
    /// The step count recorded by the last call of `delta`.
    spec fn last_steps_spec(&self) -> usize;

    /// The absolute step count, in `[0, 2^BITS)`.
    fn steps(&self) -> (r: usize)
        ensures
            r < pow2(BITS as nat),
    ;

    /// Sets the absolute step count to zero; the recorded last count is kept.
    fn reset(&mut self)
        ensures
            final(self).last_steps_spec() == old(self).last_steps_spec(),
    ;

    /// Storage for the step count recorded by the last call of `delta`.
    fn last_steps_ref(&mut self) -> (r: &mut usize)
        ensures
            *r == old(self).last_steps_spec(),
            final(self).last_steps_spec() == *final(r),
    ;

    /// Movement since the previous call, and the absolute step count; records the count.
    fn delta(&mut self) -> (r: (isize, isize))
        requires
            valid_bits(BITS),
            old(self).last_steps_spec() < pow2(BITS as nat),
        ensures
            0 <= r.1 < pow2(BITS as nat),
            r.0 == delta_of(BITS, old(self).last_steps_spec(), r.1 as usize),
            final(self).last_steps_spec() == r.1,
    {
        proof {
            lemma_turn_fits(BITS);
        }
        let mask: usize = 1usize << ((BITS - 1) as usize);
        let steps = self.steps();
        let last_steps = self.last_steps_ref();
        let mut delta: isize = steps as isize - *last_steps as isize;
        if steps & mask != *last_steps & mask {
            let turn: isize = (1usize << (BITS as usize)) as isize;
            if steps > *last_steps {
                delta = delta - turn;
            } else {
                delta = delta + turn;
            }
        }
        *last_steps = steps;
        (delta, steps as isize)
    }
}

} // verus!
