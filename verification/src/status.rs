use vstd::prelude::*;

verus! {

/// Bit 0 of the status register: the last operation carried out of, or did not borrow into, bit 7.
pub const CARRY: u8 = 0x01;

/// Bit 1 of the status register: the last result was zero.
pub const ZERO: u8 = 0x02;

/// Bit 2 of the status register: interrupt requests are ignored.
pub const INTERRUPT_DISABLE: u8 = 0x04;

/// Bit 3 of the status register: decimal mode. The flag is kept; arithmetic does not read it.
pub const DECIMAL: u8 = 0x08;

/// Bit 4 of the status register: the break mark, which is set in the copies
/// that the processor pushes.
pub const BREAK: u8 = 0x10;

/// Bit 5 of the status register: the reserved bit, which reads as one.
pub const ONE: u8 = 0x20;

/// Bit 6 of the status register: the last signed operation left the range of a signed byte.
pub const OVERFLOW: u8 = 0x40;

/// Bit 7 of the status register: bit 7 of the last result.
pub const NEGATIVE: u8 = 0x80;

/// The flags that a copy pulled from the stack brings back: all but the
/// break mark and the reserved bit.
pub const PULLED_FLAGS: u8 = 0xCF;

/// Whether `mask` selects exactly one flag.
pub open spec fn single_flag(mask: u8) -> bool {
    mask == CARRY || mask == ZERO || mask == INTERRUPT_DISABLE || mask == DECIMAL || mask == BREAK
        || mask == ONE || mask == OVERFLOW || mask == NEGATIVE
}

/// The status register: eight flags packed into a byte.
#[derive(Debug, Clone, Copy, PartialEq, Eq, Structural)]
pub struct Status(pub u8);

impl Status {
    /// Whether a flag is set.
    pub open spec fn flag(self, mask: u8) -> bool {
        self.0 & mask != 0
    }

    /// The register with one flag set or cleared and the others as they are.
    pub open spec fn with_flag(self, mask: u8, value: bool) -> Status {
        if value {
            Status(self.0 | mask)
        } else {
            Status(self.0 & !mask)
        }
    }

    /// The register after an operation with the given result: the zero flag
    /// says whether the result is zero, the negative flag holds its bit 7.
    pub open spec fn with_zn(self, result: u8) -> Status {
        self.with_flag(ZERO, result == 0).with_flag(NEGATIVE, result >= 0x80)
    }

    /// The copy of the register that goes on the stack: the break mark and
    /// the reserved bit are set in it.
    pub open spec fn pushed(self) -> u8 {
        self.0 | BREAK | ONE
    }

    /// The register that a byte pulled from the stack gives: the break mark
    /// is cleared and the reserved bit set.
    pub open spec fn pulled(bits: u8) -> Status {
        Status(bits).with_flag(BREAK, false).with_flag(ONE, true)
    }

    /// Bit 0: the last operation carried out of, or did not borrow into, bit 7.
    pub open spec fn spec_carry(&self) -> bool {
        self.flag(CARRY)
    }

    /// Bit 1: the last result was zero.
    pub open spec fn spec_zero(&self) -> bool {
        self.flag(ZERO)
    }

    /// Bit 2: interrupt requests are ignored.
    pub open spec fn spec_interrupt_disable(&self) -> bool {
        self.flag(INTERRUPT_DISABLE)
    }

    /// Bit 3: decimal mode. The flag is kept; arithmetic does not read it.
    pub open spec fn spec_decimal(&self) -> bool {
        self.flag(DECIMAL)
    }

    /// Bit 4: the break mark, which is set in the copies that the processor
    /// pushes.
    pub open spec fn spec_b(&self) -> bool {
        self.flag(BREAK)
    }

    /// Bit 5: the reserved bit, which reads as one.
    pub open spec fn spec_one(&self) -> bool {
        self.flag(ONE)
    }

    /// Bit 6: the last signed operation left the range of a signed byte.
    pub open spec fn spec_overflow(&self) -> bool {
        self.flag(OVERFLOW)
    }

    /// Bit 7: bit 7 of the last result.
    pub open spec fn spec_negative(&self) -> bool {
        self.flag(NEGATIVE)
    }

    /// The register with every flag clear.
    pub fn new() -> (status: Self)
        ensures
            status.0 == 0,
    {
        Status(0)
    }

    /// The register that holds `bits`.
    pub fn from_bits(bits: u8) -> (status: Self)
        ensures
            status.0 == bits,
    {
        Status(bits)
    }

    /// The byte that the register holds.
    pub fn into_bits(self) -> (bits: u8)
        ensures
            bits == self.0,
    {
        self.0
    }

    /// Sets or clears the flags of a result: zero and negative.
    pub fn set_zn(&mut self, result: u8)
        ensures
            *final(self) == old(self).with_zn(result),
    {
        self.set_zero(result == 0);
        self.set_negative(result >= 0x80);
    }

    /// The copy of the register that goes on the stack.
    pub fn to_pushed(&self) -> (bits: u8)
        ensures
            bits == self.pushed(),
    {
        self.0 | BREAK | ONE
    }

    /// The register that a byte pulled from the stack gives.
    pub fn from_pulled(bits: u8) -> (status: Self)
        ensures
            status == Status::pulled(bits),
    {
        Status(bits).with_b(false).with_one(true)
    }

    /// Bit 0: the last operation carried out of, or did not borrow into, bit 7.
    #[verifier::when_used_as_spec(spec_carry)]
    pub fn carry(&self) -> (set: bool)
        ensures
            set == self.flag(CARRY),
    {
        self.0 & CARRY != 0
    }

    /// Sets or clears bit 0 and leaves the other flags alone.
    pub fn set_carry(&mut self, value: bool)
        ensures
            *final(self) == old(self).with_flag(CARRY, value),
    {
        if value {
            self.0 = self.0 | CARRY;
        } else {
            self.0 = self.0 & !CARRY;
        }
    }

    /// The register with bit 0 set or cleared.
    pub fn with_carry(self, value: bool) -> (status: Self)
        ensures
            status == self.with_flag(CARRY, value),
    {
        if value {
            Status(self.0 | CARRY)
        } else {
            Status(self.0 & !CARRY)
        }
    }

    /// Bit 1: the last result was zero.
    #[verifier::when_used_as_spec(spec_zero)]
    pub fn zero(&self) -> (set: bool)
        ensures
            set == self.flag(ZERO),
    {
        self.0 & ZERO != 0
    }

    /// Sets or clears bit 1 and leaves the other flags alone.
    pub fn set_zero(&mut self, value: bool)
        ensures
            *final(self) == old(self).with_flag(ZERO, value),
    {
        if value {
            self.0 = self.0 | ZERO;
        } else {
            self.0 = self.0 & !ZERO;
        }
    }

    /// The register with bit 1 set or cleared.
    pub fn with_zero(self, value: bool) -> (status: Self)
        ensures
            status == self.with_flag(ZERO, value),
    {
        if value {
            Status(self.0 | ZERO)
        } else {
            Status(self.0 & !ZERO)
        }
    }

    /// Bit 2: interrupt requests are ignored.
    #[verifier::when_used_as_spec(spec_interrupt_disable)]
    pub fn interrupt_disable(&self) -> (set: bool)
        ensures
            set == self.flag(INTERRUPT_DISABLE),
    {
        self.0 & INTERRUPT_DISABLE != 0
    }

    /// Sets or clears bit 2 and leaves the other flags alone.
    pub fn set_interrupt_disable(&mut self, value: bool)
        ensures
            *final(self) == old(self).with_flag(INTERRUPT_DISABLE, value),
    {
        if value {
            self.0 = self.0 | INTERRUPT_DISABLE;
        } else {
            self.0 = self.0 & !INTERRUPT_DISABLE;
        }
    }

    /// The register with bit 2 set or cleared.
    pub fn with_interrupt_disable(self, value: bool) -> (status: Self)
        ensures
            status == self.with_flag(INTERRUPT_DISABLE, value),
    {
        if value {
            Status(self.0 | INTERRUPT_DISABLE)
        } else {
            Status(self.0 & !INTERRUPT_DISABLE)
        }
    }

    /// Bit 3: decimal mode. The flag is kept; arithmetic does not read it.
    #[verifier::when_used_as_spec(spec_decimal)]
    pub fn decimal(&self) -> (set: bool)
        ensures
            set == self.flag(DECIMAL),
    {
        self.0 & DECIMAL != 0
    }

    /// Sets or clears bit 3 and leaves the other flags alone.
    pub fn set_decimal(&mut self, value: bool)
        ensures
            *final(self) == old(self).with_flag(DECIMAL, value),
    {
        if value {
            self.0 = self.0 | DECIMAL;
        } else {
            self.0 = self.0 & !DECIMAL;
        }
    }

    /// The register with bit 3 set or cleared.
    pub fn with_decimal(self, value: bool) -> (status: Self)
        ensures
            status == self.with_flag(DECIMAL, value),
    {
        if value {
            Status(self.0 | DECIMAL)
        } else {
            Status(self.0 & !DECIMAL)
        }
    }

    /// Bit 4: the break mark, which is set in the copies that the processor
    /// pushes.
    #[verifier::when_used_as_spec(spec_b)]
    pub fn b(&self) -> (set: bool)
        ensures
            set == self.flag(BREAK),
    {
        self.0 & BREAK != 0
    }

    /// Sets or clears bit 4 and leaves the other flags alone.
    pub fn set_b(&mut self, value: bool)
        ensures
            *final(self) == old(self).with_flag(BREAK, value),
    {
        if value {
            self.0 = self.0 | BREAK;
        } else {
            self.0 = self.0 & !BREAK;
        }
    }

    /// The register with bit 4 set or cleared.
    pub fn with_b(self, value: bool) -> (status: Self)
        ensures
            status == self.with_flag(BREAK, value),
    {
        if value {
            Status(self.0 | BREAK)
        } else {
            Status(self.0 & !BREAK)
        }
    }

    /// Bit 5: the reserved bit, which reads as one.
    #[verifier::when_used_as_spec(spec_one)]
    pub fn one(&self) -> (set: bool)
        ensures
            set == self.flag(ONE),
    {
        self.0 & ONE != 0
    }

    /// Sets or clears bit 5 and leaves the other flags alone.
    pub fn set_one(&mut self, value: bool)
        ensures
            *final(self) == old(self).with_flag(ONE, value),
    {
        if value {
            self.0 = self.0 | ONE;
        } else {
            self.0 = self.0 & !ONE;
        }
    }

    /// The register with bit 5 set or cleared.
    pub fn with_one(self, value: bool) -> (status: Self)
        ensures
            status == self.with_flag(ONE, value),
    {
        if value {
            Status(self.0 | ONE)
        } else {
            Status(self.0 & !ONE)
        }
    }

    /// Bit 6: the last signed operation left the range of a signed byte.
    #[verifier::when_used_as_spec(spec_overflow)]
    pub fn overflow(&self) -> (set: bool)
        ensures
            set == self.flag(OVERFLOW),
    {
        self.0 & OVERFLOW != 0
    }

    /// Sets or clears bit 6 and leaves the other flags alone.
    pub fn set_overflow(&mut self, value: bool)
        ensures
            *final(self) == old(self).with_flag(OVERFLOW, value),
    {
        if value {
            self.0 = self.0 | OVERFLOW;
        } else {
            self.0 = self.0 & !OVERFLOW;
        }
    }

    /// The register with bit 6 set or cleared.
    pub fn with_overflow(self, value: bool) -> (status: Self)
        ensures
            status == self.with_flag(OVERFLOW, value),
    {
        if value {
            Status(self.0 | OVERFLOW)
        } else {
            Status(self.0 & !OVERFLOW)
        }
    }

    /// Bit 7: bit 7 of the last result.
    #[verifier::when_used_as_spec(spec_negative)]
    pub fn negative(&self) -> (set: bool)
        ensures
            set == self.flag(NEGATIVE),
    {
        self.0 & NEGATIVE != 0
    }

    /// Sets or clears bit 7 and leaves the other flags alone.
    pub fn set_negative(&mut self, value: bool)
        ensures
            *final(self) == old(self).with_flag(NEGATIVE, value),
    {
        if value {
            self.0 = self.0 | NEGATIVE;
        } else {
            self.0 = self.0 & !NEGATIVE;
        }
    }

    /// The register with bit 7 set or cleared.
    pub fn with_negative(self, value: bool) -> (status: Self)
        ensures
            status == self.with_flag(NEGATIVE, value),
    {
        if value {
            Status(self.0 | NEGATIVE)
        } else {
            Status(self.0 & !NEGATIVE)
        }
    }

}

impl Default for Status {
    fn default() -> (status: Self)
        ensures
            status.0 == 0,
    {
        Status(0)
    }
}

/// Setting or clearing one flag gives that flag the value and leaves every
/// other flag as it was.
pub proof fn lemma_with_flag(status: Status, mask: u8, value: bool, other: u8)
    requires
        single_flag(mask),
        single_flag(other),
    ensures
        status.with_flag(mask, value).flag(mask) == value,
        other != mask ==> status.with_flag(mask, value).flag(other) == status.flag(other),
{
    let bits = status.0;
    assert((bits | mask) & mask != 0 && (bits & !mask) & mask == 0 && (other != mask ==> (bits
        | mask) & other == bits & other && (bits & !mask) & other == bits & other)) by (bit_vector)
        requires
            mask == 0x01 || mask == 0x02 || mask == 0x04 || mask == 0x08 || mask == 0x10 || mask
                == 0x20 || mask == 0x40 || mask == 0x80,
            other == 0x01 || other == 0x02 || other == 0x04 || other == 0x08 || other == 0x10
                || other == 0x20 || other == 0x40 || other == 0x80,
    ;
}

/// The same of every register and every pair of flags at once: a flag reads
/// as it was last set or cleared, whatever happened to the other flags.
pub proof fn lemma_flags()
    ensures
        forall|status: Status, mask: u8, value: bool, other: u8|
            single_flag(mask) && single_flag(other) ==> #[trigger] status.with_flag(
                mask,
                value,
            ).flag(other) == (if other == mask {
                value
            } else {
                status.flag(other)
            }),
{
    assert forall|status: Status, mask: u8, value: bool, other: u8|
        single_flag(mask) && single_flag(other) implies #[trigger] status.with_flag(
        mask,
        value,
    ).flag(other) == (if other == mask {
        value
    } else {
        status.flag(other)
    }) by {
        lemma_with_flag(status, mask, value, other);
    }
}

/// The zero flag says whether the result was zero, the negative flag whether
/// its bit 7 was set, and the other flags stay.
pub proof fn lemma_with_zn(status: Status, result: u8, other: u8)
    requires
        single_flag(other),
    ensures
        status.with_zn(result).flag(ZERO) == (result == 0),
        status.with_zn(result).flag(NEGATIVE) == (result >= 0x80),
        status.with_zn(result).flag(NEGATIVE) == (result & 0x80 != 0),
        other != ZERO && other != NEGATIVE ==> status.with_zn(result).flag(other) == status.flag(
            other,
        ),
{
    let first = status.with_flag(ZERO, result == 0);
    lemma_with_flag(status, ZERO, result == 0, ZERO);
    lemma_with_flag(status, ZERO, result == 0, NEGATIVE);
    lemma_with_flag(status, ZERO, result == 0, other);
    lemma_with_flag(first, NEGATIVE, result >= 0x80, ZERO);
    lemma_with_flag(first, NEGATIVE, result >= 0x80, NEGATIVE);
    lemma_with_flag(first, NEGATIVE, result >= 0x80, other);
    assert((result >= 0x80) == (result & 0x80 != 0)) by (bit_vector);
}

/// A copy that goes on the stack carries the break mark and the reserved
/// bit. What comes back from any byte on the stack has the reserved bit set
/// and the break mark clear; from a pushed copy, it has every other flag as
/// the register had it.
pub proof fn lemma_push_pull_flags(status: Status, bits: u8)
    ensures
        Status(status.pushed()).flag(BREAK),
        Status(status.pushed()).flag(ONE),
        Status::pulled(bits).flag(ONE),
        !Status::pulled(bits).flag(BREAK),
        Status::pulled(bits).0 & PULLED_FLAGS == bits & PULLED_FLAGS,
        Status::pulled(status.pushed()).0 & PULLED_FLAGS == status.0 & PULLED_FLAGS,
        forall|mask: u8|
            single_flag(mask) && mask != BREAK && mask != ONE ==> #[trigger] Status::pulled(
                status.pushed(),
            ).flag(mask) == status.flag(mask),
{
    let held = status.0;
    assert(((held | 0x10 | 0x20) & 0x10 != 0) && ((held | 0x10 | 0x20) & 0x20 != 0) && ((((held
        | 0x10 | 0x20) & !0x10u8) | 0x20) & 0xCF == held & 0xCF)) by (bit_vector);
    assert((((bits & !0x10u8) | 0x20) & 0x20 != 0) && (((bits & !0x10u8) | 0x20) & 0x10 == 0)
        && (((bits & !0x10u8) | 0x20) & 0xCF == bits & 0xCF)) by (bit_vector);
    let back = Status::pulled(status.pushed()).0;
    assert forall|mask: u8|
        single_flag(mask) && mask != BREAK && mask != ONE implies #[trigger] Status::pulled(
        status.pushed(),
    ).flag(mask) == status.flag(mask) by {
        assert((back & mask != 0) == (held & mask != 0)) by (bit_vector)
            requires
                back & 0xCF == held & 0xCF,
                mask == 0x01 || mask == 0x02 || mask == 0x04 || mask == 0x08 || mask == 0x40
                    || mask == 0x80,
        ;
    }
}

} // verus!
