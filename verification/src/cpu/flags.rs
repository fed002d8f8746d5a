//! The status register: which bits this core computes, and how a register
//! write changes them.

use vstd::prelude::*;

verus! {

/// Bit 0 of the status byte: set by the adder on an unsigned carry out.
pub const CARRY_MASK: u8 = 0b0000_0001;

/// Bit 1 of the status byte: the last written value was zero.
pub const ZERO_MASK: u8 = 0b0000_0010;

/// Bit 7 of the status byte: bit 7 of the last written value.
pub const NEGATIVE_MASK: u8 = 0b1000_0000;

/// The bits that a register write leaves as they were: carry and the five
/// reserved bits (interrupt-disable, decimal, break, the unused bit and
/// signed overflow), none of which this core computes on a write.
pub const KEPT_ON_WRITE_MASK: u8 = 0b0111_1101;

/// Whether the carry bit is set in `status`.
pub open spec fn carry_flag(status: u8) -> bool {
    status & CARRY_MASK != 0
}

/// Whether the Zero bit is set in `status`.
pub open spec fn zero_flag(status: u8) -> bool {
    status & ZERO_MASK != 0
}

/// Whether the Negative bit is set in `status`.
pub open spec fn negative_flag(status: u8) -> bool {
    status & NEGATIVE_MASK != 0
}

/// The status byte after `value` was written to a register: Zero and
/// Negative are recomputed from `value`, every other bit is kept.
pub open spec fn with_zero_and_negative(status: u8, value: u8) -> u8 {
    (status & KEPT_ON_WRITE_MASK) | (if value == 0 {
        ZERO_MASK
    } else {
        0u8
    }) | (value & NEGATIVE_MASK)
}

/// The status byte after an addition: a carry out sets bit 0, and no carry
/// leaves the byte as it was (the bit is never cleared by the adder).
pub open spec fn with_carry(status: u8, carry_out: bool) -> u8 {
    if carry_out {
        status | CARRY_MASK
    } else {
        status
    }
}

/// After a register write, Zero is set exactly when the value is zero,
/// Negative exactly when bit 7 of the value is set, and the carry bit and
/// the reserved bits are those of the status byte before.
pub proof fn lemma_write_flags(status: u8, value: u8)
    ensures
        zero_flag(with_zero_and_negative(status, value)) <==> value == 0,
        negative_flag(with_zero_and_negative(status, value)) <==> value >= 0x80,
        negative_flag(with_zero_and_negative(status, value)) <==> value & NEGATIVE_MASK != 0,
        carry_flag(with_zero_and_negative(status, value)) <==> carry_flag(status),
        with_zero_and_negative(status, value) & KEPT_ON_WRITE_MASK == status & KEPT_ON_WRITE_MASK,
{
    let after: u8 = with_zero_and_negative(status, value);
    assert(after == (status & 0x7d) | (if value == 0 {
        2u8
    } else {
        0u8
    }) | (value & 0x80));
    assert((after & 2 != 0) <==> value == 0) by (bit_vector)
        requires
            after == (status & 0x7d) | (if value == 0 {
                2u8
            } else {
                0u8
            }) | (value & 0x80),
    ;
    assert((after & 0x80 != 0) <==> value >= 0x80) by (bit_vector)
        requires
            after == (status & 0x7d) | (if value == 0 {
                2u8
            } else {
                0u8
            }) | (value & 0x80),
    ;
    assert((value & 0x80 != 0) <==> value >= 0x80) by (bit_vector);
    assert((after & 1 != 0) <==> (status & 1 != 0)) by (bit_vector)
        requires
            after == (status & 0x7d) | (if value == 0 {
                2u8
            } else {
                0u8
            }) | (value & 0x80),
    ;
    assert(after & 0x7d == status & 0x7d) by (bit_vector)
        requires
            after == (status & 0x7d) | (if value == 0 {
                2u8
            } else {
                0u8
            }) | (value & 0x80),
    ;
}

/// A carry out sets the carry bit and touches no other bit; without one the
/// status byte is unchanged.
pub proof fn lemma_carry_flags(status: u8, carry_out: bool)
    ensures
        carry_out ==> carry_flag(with_carry(status, carry_out)),
        !carry_out ==> with_carry(status, carry_out) == status,
        with_carry(status, carry_out) & 0b1111_1110 == status & 0b1111_1110,
{
    assert((status | 1) & 1 != 0) by (bit_vector);
    assert((status | 1) & 0b1111_1110 == status & 0b1111_1110) by (bit_vector);
}

/// The status byte after a register write does not depend on what Zero and
/// Negative were before: writing twice leaves the flags of the second value.
pub proof fn lemma_write_flags_recomputed(status: u8, first: u8, second: u8)
    ensures
        with_zero_and_negative(with_zero_and_negative(status, first), second)
            == with_zero_and_negative(status, second),
{
    let mid: u8 = with_zero_and_negative(status, first);
    lemma_write_flags(status, first);
    assert(mid & 0x7d == status & 0x7d);
}

} // verus!
