//! Pin-register codec: pure bit operations on the chip's 32-bit registers.
//!
//! Each GPIO pin owns one bit of a register; the pin's ordinal is the bit
//! index. The codec neither performs I/O nor fails: callers validate the
//! ordinal, which the pin enumeration guarantees to lie below
//! [`GPIO_PIN_COUNT`].

use vstd::prelude::*;

verus! {

/// Number of GPIO pins the chip exposes; valid pin ordinals are
/// `0 .. GPIO_PIN_COUNT`.
pub const GPIO_PIN_COUNT: u32 = 9;

/// The state of bit `p` of register `r`.
pub open spec fn spec_read_bit(r: u32, p: u32) -> bool {
    (r >> p) & 1 != 0
}

/// Register `r` with bit `p` set.
pub open spec fn spec_set_bit(r: u32, p: u32) -> u32 {
    r | (1u32 << p)
}

/// Register `r` with bit `p` cleared.
pub open spec fn spec_clear_bit(r: u32, p: u32) -> u32 {
    r & !(1u32 << p)
}

/// Reads the state of the pin with ordinal `p` out of register `r`.
pub fn read_bit(r: u32, p: u32) -> (b: bool)
    requires
        p < GPIO_PIN_COUNT,
    ensures
        b == spec_read_bit(r, p),
{
    (r >> p) & 1 != 0
}

/// Returns register `r` with the bit of the pin with ordinal `p` set.
pub fn set_bit(r: u32, p: u32) -> (r2: u32)
    requires
        p < GPIO_PIN_COUNT,
    ensures
        r2 == spec_set_bit(r, p),
{
    r | (1u32 << p)
}

/// Returns register `r` with the bit of the pin with ordinal `p` cleared.
pub fn clear_bit(r: u32, p: u32) -> (r2: u32)
    requires
        p < GPIO_PIN_COUNT,
    ensures
        r2 == spec_clear_bit(r, p),
{
    r & !(1u32 << p)
}

/// After setting bit `p`, that bit reads back as set.
pub proof fn lemma_read_set_bit(r: u32, p: u32)
    requires
        p < GPIO_PIN_COUNT,
    ensures
        spec_read_bit(spec_set_bit(r, p), p),
{
    assert(((r | (1u32 << p)) >> p) & 1 != 0) by (bit_vector)
        requires
            p < 9,
    ;
}

/// After clearing bit `p`, that bit reads back as clear.
pub proof fn lemma_read_clear_bit(r: u32, p: u32)
    requires
        p < GPIO_PIN_COUNT,
    ensures
        !spec_read_bit(spec_clear_bit(r, p), p),
{
    assert(((r & !(1u32 << p)) >> p) & 1 == 0) by (bit_vector)
        requires
            p < 9,
    ;
}

/// Setting or clearing bit `p` leaves every other bit `q` unchanged.
pub proof fn lemma_bit_isolation(r: u32, p: u32, q: u32)
    requires
        p < GPIO_PIN_COUNT,
        q < GPIO_PIN_COUNT,
        p != q,
    ensures
        spec_read_bit(spec_set_bit(r, p), q) == spec_read_bit(r, q),
        spec_read_bit(spec_clear_bit(r, p), q) == spec_read_bit(r, q),
{
    assert((((r | (1u32 << p)) >> q) & 1) == ((r >> q) & 1)) by (bit_vector)
        requires
            p < 9,
            q < 9,
            p != q,
    ;
    assert((((r & !(1u32 << p)) >> q) & 1) == ((r >> q) & 1)) by (bit_vector)
        requires
            p < 9,
            q < 9,
            p != q,
    ;
}

/// Setting a bit twice is the same as setting it once, and likewise for
/// clearing.
pub proof fn lemma_bit_idempotent(r: u32, p: u32)
    requires
        p < GPIO_PIN_COUNT,
    ensures
        spec_set_bit(spec_set_bit(r, p), p) == spec_set_bit(r, p),
        spec_clear_bit(spec_clear_bit(r, p), p) == spec_clear_bit(r, p),
{
    assert(((r | (1u32 << p)) | (1u32 << p)) == (r | (1u32 << p))) by (bit_vector);
    assert(((r & !(1u32 << p)) & !(1u32 << p)) == (r & !(1u32 << p))) by (bit_vector);
}

} // verus!
