//! Model of the register-access primitive.
//!
//! The GPIO and USART register blocks are mapped a second and a third time
//! at two fixed address offsets: a write of `mask` to the clear-alias
//! region (base + 0x0400_0000) clears exactly the bits of `mask` in the
//! real register, and a write to the set-alias region (base + 0x0600_0000)
//! sets exactly those bits. This removes read-modify-write races between
//! thread context and interrupt context as long as the two touch different
//! bits. The spec functions here give those writes their meaning over the
//! register model; the lemmas state the bit-level isolation guarantee.

use vstd::prelude::*;

verus! {

/// Value of a register after `mask` is written to its set-alias address:
/// every bit of `mask` becomes 1, all other bits keep their value.
pub open spec fn set_alias_write(reg: u32, mask: u32) -> u32 {
    reg | mask
}

/// Value of a register after `mask` is written to its clear-alias address:
/// every bit of `mask` becomes 0, all other bits keep their value.
pub open spec fn clear_alias_write(reg: u32, mask: u32) -> u32 {
    reg & !mask
}

/// Value of a data-out register after `mask` is written to the toggle
/// register: every bit of `mask` is inverted, all other bits keep their
/// value.
pub open spec fn toggle_write(reg: u32, mask: u32) -> u32 {
    reg ^ mask
}

/// Bit `k` of `reg`.
pub open spec fn bit_of(reg: u32, k: u32) -> bool {
    (reg >> k) & 1 == 1
}

/// The 4-bit field of `reg` at nibble index `i` (bits `4*i .. 4*i+3`).
pub open spec fn nibble_of(reg: u32, i: u32) -> u32 {
    (reg >> ((4 * i) as u32)) & 0xF
}

/// A plain read-modify-write that changes bit `n` of `reg` to `value` and
/// writes the whole register back.
pub open spec fn rmw_write_bit(reg: u32, n: u32, value: bool) -> u32 {
    if value {
        reg | (1u32 << n)
    } else {
        reg & !(1u32 << n)
    }
}

/// A set-alias write touches exactly the bits of its mask: bit `k` of the
/// result is 1 where `mask` has a 1, and keeps its old value elsewhere.
pub proof fn lemma_set_alias_bits(reg: u32, mask: u32, k: u32)
    requires
        k < 32,
    ensures
        bit_of(set_alias_write(reg, mask), k) == (bit_of(reg, k) || bit_of(mask, k)),
{
    assert((((reg | mask) >> k) & 1 == 1) == (((reg >> k) & 1 == 1) || ((mask >> k) & 1 == 1)))
        by (bit_vector)
        requires
            k < 32,
    ;
}

/// A clear-alias write touches exactly the bits of its mask: bit `k` of
/// the result is 0 where `mask` has a 1, and keeps its old value elsewhere.
pub proof fn lemma_clear_alias_bits(reg: u32, mask: u32, k: u32)
    requires
        k < 32,
    ensures
        bit_of(clear_alias_write(reg, mask), k) == (bit_of(reg, k) && !bit_of(mask, k)),
{
    assert((((reg & !mask) >> k) & 1 == 1) == (((reg >> k) & 1 == 1) && !((mask >> k) & 1 == 1)))
        by (bit_vector)
        requires
            k < 32,
    ;
}

/// A toggle write inverts exactly the bits of its mask.
pub proof fn lemma_toggle_bits(reg: u32, mask: u32, k: u32)
    requires
        k < 32,
    ensures
        bit_of(toggle_write(reg, mask), k) == (bit_of(reg, k) != bit_of(mask, k)),
{
    assert((((reg ^ mask) >> k) & 1 == 1) == (((reg >> k) & 1 == 1) != ((mask >> k) & 1 == 1)))
        by (bit_vector)
        requires
            k < 32,
    ;
}

/// A single-bit mask `1 << n` has bit `n` set and no other.
pub proof fn lemma_single_bit_mask(n: u32, k: u32)
    requires
        n < 32,
        k < 32,
    ensures
        bit_of(1u32 << n, k) == (k == n),
{
    assert((((1u32 << n) >> k) & 1 == 1) == (k == n))
        by (bit_vector)
        requires
            n < 32,
            k < 32,
    ;
}

/// Setting one bit through the set-alias region equals a full
/// read-modify-write of just that bit, and leaves every other bit's
/// last-written value in place.
pub proof fn lemma_set_alias_atomic(reg: u32, n: u32, k: u32)
    requires
        n < 32,
        k < 32,
    ensures
        set_alias_write(reg, 1u32 << n) == rmw_write_bit(reg, n, true),
        bit_of(set_alias_write(reg, 1u32 << n), n),
        k != n ==> bit_of(set_alias_write(reg, 1u32 << n), k) == bit_of(reg, k),
{
    lemma_set_alias_bits(reg, 1u32 << n, k);
    lemma_set_alias_bits(reg, 1u32 << n, n);
    lemma_single_bit_mask(n, k);
    lemma_single_bit_mask(n, n);
}

/// Clearing one bit through the clear-alias region equals a full
/// read-modify-write of just that bit, and leaves every other bit's
/// last-written value in place.
pub proof fn lemma_clear_alias_atomic(reg: u32, n: u32, k: u32)
    requires
        n < 32,
        k < 32,
    ensures
        clear_alias_write(reg, 1u32 << n) == rmw_write_bit(reg, n, false),
        !bit_of(clear_alias_write(reg, 1u32 << n), n),
        k != n ==> bit_of(clear_alias_write(reg, 1u32 << n), k) == bit_of(reg, k),
{
    lemma_clear_alias_bits(reg, 1u32 << n, k);
    lemma_clear_alias_bits(reg, 1u32 << n, n);
    lemma_single_bit_mask(n, k);
    lemma_single_bit_mask(n, n);
}

/// Writing value `v` into the 4-bit field at nibble `i` through the
/// set-alias region ors `v` into that field and leaves every other field
/// unchanged.
pub proof fn lemma_or_nibble(reg: u32, v: u32, i: u32, j: u32)
    requires
        i < 8,
        j < 8,
        v <= 0xF,
    ensures
        i == j ==> nibble_of(reg | (v << ((4 * i) as u32)), j) == (nibble_of(reg, i) | v),
        i != j ==> nibble_of(reg | (v << ((4 * i) as u32)), j) == nibble_of(reg, j),
{
    assert(((reg | (v << ((4 * i) as u32))) >> ((4 * i) as u32)) & 0xF == ((reg >> ((4 * i)
        as u32)) & 0xF) | v) by (bit_vector)
        requires
            i < 8,
            v <= 0xF,
    ;
    assert(i != j ==> ((reg | (v << ((4 * i) as u32))) >> ((4 * j) as u32)) & 0xF == (reg >> ((4
        * j) as u32)) & 0xF) by (bit_vector)
        requires
            i < 8,
            j < 8,
            v <= 0xF,
    ;
}

/// Writing 0xF into the 4-bit field at nibble `i` through the clear-alias
/// region zeroes that field and leaves every other field unchanged.
pub proof fn lemma_clear_nibble(reg: u32, i: u32, j: u32)
    requires
        i < 8,
        j < 8,
    ensures
        i == j ==> nibble_of(reg & !(0xFu32 << ((4 * i) as u32)), j) == 0,
        i != j ==> nibble_of(reg & !(0xFu32 << ((4 * i) as u32)), j) == nibble_of(reg, j),
{
    assert(((reg & !(0xFu32 << ((4 * i) as u32))) >> ((4 * i) as u32)) & 0xF == 0)
        by (bit_vector)
        requires
            i < 8,
    ;
    assert(i != j ==> ((reg & !(0xFu32 << ((4 * i) as u32))) >> ((4 * j) as u32)) & 0xF == (reg
        >> ((4 * j) as u32)) & 0xF) by (bit_vector)
        requires
            i < 8,
            j < 8,
    ;
}

/// A register holding zero has every bit clear and every 4-bit field
/// zero.
pub proof fn lemma_zero_reg(k: u32, i: u32)
    ensures
        !bit_of(0u32, k),
        nibble_of(0u32, i) == 0,
{
    assert((0u32 >> k) & 1 != 1) by (bit_vector);
    assert((0u32 >> ((4 * i) as u32)) & 0xF == 0) by (bit_vector);
}

/// Tests bit `k` of `reg`, the way status-register flags are read.
pub fn test_bit(reg: u32, k: u32) -> (r: bool)
    requires
        k < 32,
    ensures
        r == bit_of(reg, k),
{
    let mask: u32 = 1u32 << k;
    let r = reg & mask == mask;
    proof {
        assert((reg & (1u32 << k) == (1u32 << k)) == ((reg >> k) & 1 == 1)) by (bit_vector)
            requires
                k < 32,
        ;
    }
    r
}

/// Oring a value into a zeroed field yields the value itself.
pub proof fn lemma_or_into_zero(v: u32)
    ensures
        0u32 | v == v,
{
    assert(0u32 | v == v) by (bit_vector);
}

} // verus!
