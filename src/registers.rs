use vstd::prelude::*;

verus! {

/// Bit positions of the status flags inside the packed status byte.
pub const CARRY: u8 = 0;
pub const ZERO: u8 = 1;
pub const IRQ_DISABLED: u8 = 2;
pub const DECIMAL_MODE: u8 = 3;
pub const BRK: u8 = 4;
pub const UNUSED: u8 = 5;
pub const OVERFLOWED: u8 = 6;
pub const NEGATIVE: u8 = 7;

/// Whether bit `n` of `status` is set.
pub open spec fn bit_of(status: u8, n: u8) -> bool {
    status & (1u8 << n) != 0
}

/// `status` with bit `n` set to `value`, the other bits untouched.
pub open spec fn with_bit(status: u8, n: u8, value: bool) -> u8 {
    if value {
        status | (1u8 << n)
    } else {
        status & !(1u8 << n)
    }
}

/// Setting one bit changes that bit alone.
pub proof fn lemma_with_bit(status: u8, n: u8, m: u8, value: bool)
    requires
        n < 8,
        m < 8,
    ensures
        bit_of(with_bit(status, n, value), m) == if m == n { value } else { bit_of(status, m) },
{
    assert(n < 8 && m < 8 ==> (status | (1u8 << n)) & (1u8 << m) != 0 == if m == n { true } else { status & (1u8 << m) != 0 }) by (bit_vector);
    assert(n < 8 && m < 8 ==> (status & !(1u8 << n)) & (1u8 << m) != 0 == if m == n { false } else { status & (1u8 << m) != 0 }) by (bit_vector);
}

/// The registers of a 6502: accumulator, two index registers, the stack
/// pointer (an offset into page one), the program counter and the packed
/// status byte, whose bits are, from bit 0 up: carry, zero, interrupt
/// disable, decimal mode, break, unused, overflow, negative.
#[derive(Debug, Copy, Clone, PartialEq, Eq, Structural)]
pub struct RegisterSet {
    pub accumulator: u8,
    pub x_index: u8,
    pub y_index: u8,
    pub stk_ptr: u8,
    pub prog_counter: u16,
    pub status: u8,
}

impl RegisterSet {
    /// The power-on register values, with the program counter given.
    pub open spec fn initial(pc: u16) -> RegisterSet {
        RegisterSet {
            accumulator: 0,
            x_index: 0,
            y_index: 0,
            stk_ptr: 0xfd,
            prog_counter: pc,
            status: 0x24,
        }
    }

    pub open spec fn flag(self, n: u8) -> bool {
        bit_of(self.status, n)
    }

    pub open spec fn with_flag(self, n: u8, value: bool) -> RegisterSet {
        RegisterSet { status: with_bit(self.status, n, value), ..self }
    }

    /// The zero and negative flags as a result byte `v` sets them.
    pub open spec fn with_zn(self, v: u8) -> RegisterSet {
        self.with_flag(ZERO, v == 0).with_flag(NEGATIVE, v >= 0x80)
    }

    pub fn new() -> (r: Self)
        ensures
            r == RegisterSet::initial(0),
    {
        RegisterSet {
            accumulator: 0,
            x_index: 0,
            y_index: 0,
            stk_ptr: 0xfd,
            prog_counter: 0,
            status: 0x24,
        }
    }

    pub fn new_custompc(custom_prog_counter: u16) -> (r: Self)
        ensures
            r == RegisterSet::initial(custom_prog_counter),
    {
        RegisterSet { prog_counter: custom_prog_counter, ..RegisterSet::new() }
    }

    pub fn get_flag(&self, n: u8) -> (r: bool)
        requires
            n < 8,
        ensures
            r == self.flag(n),
    {
        (self.status & (1u8 << n)) != 0
    }

    pub fn set_flag(&mut self, n: u8, value: bool)
        requires
            n < 8,
        ensures
            *final(self) == old(self).with_flag(n, value),
    {
        if value {
            self.status = self.status | (1u8 << n);
        } else {
            self.status = self.status & !(1u8 << n);
        }
    }

    /// Sets the zero and negative flags from the result byte `v`.
    pub fn set_zn(&mut self, v: u8)
        ensures
            *final(self) == old(self).with_zn(v),
    {
        self.set_flag(ZERO, v == 0);
        self.set_flag(NEGATIVE, v >= 0x80);
    }

    pub fn carry(&self) -> (r: bool)
        ensures
            r == self.flag(CARRY),
    {
        self.get_flag(CARRY)
    }

    pub fn zero(&self) -> (r: bool)
        ensures
            r == self.flag(ZERO),
    {
        self.get_flag(ZERO)
    }

    pub fn irq_disabled(&self) -> (r: bool)
        ensures
            r == self.flag(IRQ_DISABLED),
    {
        self.get_flag(IRQ_DISABLED)
    }

    pub fn decimal_mode(&self) -> (r: bool)
        ensures
            r == self.flag(DECIMAL_MODE),
    {
        self.get_flag(DECIMAL_MODE)
    }

    pub fn brk(&self) -> (r: bool)
        ensures
            r == self.flag(BRK),
    {
        self.get_flag(BRK)
    }

    pub fn unused(&self) -> (r: bool)
        ensures
            r == self.flag(UNUSED),
    {
        self.get_flag(UNUSED)
    }

    pub fn overflowed(&self) -> (r: bool)
        ensures
            r == self.flag(OVERFLOWED),
    {
        self.get_flag(OVERFLOWED)
    }

    pub fn negative(&self) -> (r: bool)
        ensures
            r == self.flag(NEGATIVE),
    {
        self.get_flag(NEGATIVE)
    }

    pub fn set_carry(&mut self, value: bool)
        ensures
            *final(self) == old(self).with_flag(CARRY, value),
    {
        self.set_flag(CARRY, value)
    }

    pub fn set_zero(&mut self, value: bool)
        ensures
            *final(self) == old(self).with_flag(ZERO, value),
    {
        self.set_flag(ZERO, value)
    }

    pub fn set_irq_disabled(&mut self, value: bool)
        ensures
            *final(self) == old(self).with_flag(IRQ_DISABLED, value),
    {
        self.set_flag(IRQ_DISABLED, value)
    }

    pub fn set_decimal_mode(&mut self, value: bool)
        ensures
            *final(self) == old(self).with_flag(DECIMAL_MODE, value),
    {
        self.set_flag(DECIMAL_MODE, value)
    }

    pub fn set_brk(&mut self, value: bool)
        ensures
            *final(self) == old(self).with_flag(BRK, value),
    {
        self.set_flag(BRK, value)
    }

    pub fn set_unused(&mut self, value: bool)
        ensures
            *final(self) == old(self).with_flag(UNUSED, value),
    {
        self.set_flag(UNUSED, value)
    }

    pub fn set_overflowed(&mut self, value: bool)
        ensures
            *final(self) == old(self).with_flag(OVERFLOWED, value),
    {
        self.set_flag(OVERFLOWED, value)
    }

    pub fn set_negative(&mut self, value: bool)
        ensures
            *final(self) == old(self).with_flag(NEGATIVE, value),
    {
        self.set_flag(NEGATIVE, value)
    }

    pub fn accumulator(&self) -> (r: u8)
        ensures
            r == self.accumulator,
    {
        self.accumulator
    }

    pub fn x_index(&self) -> (r: u8)
        ensures
            r == self.x_index,
    {
        self.x_index
    }

    pub fn y_index(&self) -> (r: u8)
        ensures
            r == self.y_index,
    {
        self.y_index
    }

    pub fn stk_ptr(&self) -> (r: u8)
        ensures
            r == self.stk_ptr,
    {
        self.stk_ptr
    }

    pub fn prog_counter(&self) -> (r: u16)
        ensures
            r == self.prog_counter,
    {
        self.prog_counter
    }

    pub fn status(&self) -> (r: u8)
        ensures
            r == self.status,
    {
        self.status
    }
}

impl Default for RegisterSet {
    fn default() -> (r: Self)
        ensures
            r == RegisterSet::initial(0),
    {
        RegisterSet::new()
    }
}

/// Cycle bookkeeping: the cycles elapsed in total, and the cycles still owed
/// by the instruction in flight before the next one may be fetched.
#[derive(Debug, Copy, Clone, PartialEq, Eq, Structural)]
pub struct Timings {
    pub elapsed: u64,
    pub residual: u8,
}

impl Timings {
    pub fn new() -> (r: Self)
        ensures
            r == (Timings { elapsed: 0, residual: 0 }),
    {
        Timings { elapsed: 0, residual: 0 }
    }

    /// One clock tick: one owed cycle paid, one more cycle elapsed.
    pub fn next(&mut self)
        requires
            old(self).residual > 0,
        ensures
            final(self).residual == old(self).residual - 1,
            final(self).elapsed == old(self).elapsed.wrapping_add(1),
    {
        self.residual = self.residual - 1;
        self.elapsed = self.elapsed.wrapping_add(1);
    }

    pub fn elapsed(&self) -> (r: u64)
        ensures
            r == self.elapsed,
    {
        self.elapsed
    }

    pub fn residual(&self) -> (r: u8)
        ensures
            r == self.residual,
    {
        self.residual
    }
}

/// The interrupt lines that the surrounding system raises.
#[derive(Debug, Copy, Clone, PartialEq, Eq, Structural)]
pub struct InterruptHandling {
    pub pending_nmi: bool,
    pub pending_irq: bool,
}

impl InterruptHandling {
    pub fn new() -> (r: Self)
        ensures
            !r.pending_nmi && !r.pending_irq,
    {
        InterruptHandling { pending_nmi: false, pending_irq: false }
    }

    pub fn pending_nmi(&self) -> (r: bool)
        ensures
            r == self.pending_nmi,
    {
        self.pending_nmi
    }

    pub fn pending_irq(&self) -> (r: bool)
        ensures
            r == self.pending_irq,
    {
        self.pending_irq
    }

    pub fn set_pending_nmi(&mut self, value: bool)
        ensures
            *final(self) == (InterruptHandling { pending_nmi: value, ..*old(self) }),
    {
        self.pending_nmi = value;
    }

    pub fn set_pending_irq(&mut self, value: bool)
        ensures
            *final(self) == (InterruptHandling { pending_irq: value, ..*old(self) }),
    {
        self.pending_irq = value;
    }
}

/// The two hardware interrupt lines.
#[derive(Debug, Copy, Clone, PartialEq, Eq, Structural)]
pub enum InterruptKind {
    Nmi,
    Irq,
}

} // verus!
