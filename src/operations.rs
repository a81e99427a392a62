use vstd::prelude::*;
use crate::addressing::crosses_page;
use crate::cpu::{wrap16, wrap8, Cpu, CpuState, BRK_VECTOR};
use crate::instruction::{AddressingOutput, Operation};
use crate::registers::{
    with_bit, RegisterSet, BRK, CARRY, DECIMAL_MODE, IRQ_DISABLED, NEGATIVE, OVERFLOWED, UNUSED,
    ZERO,
};

verus! {

/// The byte an operation works on: the fetched or immediate byte, or the
/// byte at a target address.
pub open spec fn operand_value(s: CpuState, out: AddressingOutput) -> u8 {
    match out {
        AddressingOutput::Fetched { value, .. } => value,
        AddressingOutput::ValueOnly(v) => v,
        AddressingOutput::AbsoluteAddress(a) => s.read(a),
        AddressingOutput::NotExecuted => 0,
    }
}

/// The address an outcome names, if it names one.
pub open spec fn target_of(out: AddressingOutput) -> Option<u16> {
    match out {
        AddressingOutput::Fetched { address, .. } => Some(address),
        AddressingOutput::AbsoluteAddress(a) => Some(a),
        _ => None,
    }
}

/// A store of `v` at the outcome's address (nothing without one).
pub open spec fn store_at(s: CpuState, out: AddressingOutput, v: u8) -> CpuState {
    match target_of(out) {
        Some(a) => s.write(a, v),
        None => s,
    }
}

/// A read-modify-write result goes back to memory for a memory operand, to
/// the accumulator otherwise.
pub open spec fn write_back(s: CpuState, out: AddressingOutput, v: u8) -> CpuState {
    match out {
        AddressingOutput::Fetched { address, .. } => s.write(address, v),
        _ => s.with_regs(RegisterSet { accumulator: v, ..s.regs }),
    }
}

/// A status byte as pulled from the stack: break clear, unused set.
pub open spec fn pulled_status(b: u8) -> u8 {
    with_bit(with_bit(b, BRK, false), UNUSED, true)
}

/// A status byte as pushed by software: break and unused set.
pub open spec fn pushed_status(b: u8) -> u8 {
    with_bit(with_bit(b, BRK, true), UNUSED, true)
}

/// Binary addition of `v` and the carry to the accumulator.
pub open spec fn add_with_carry(r: RegisterSet, v: u8) -> RegisterSet {
    let a = r.accumulator;
    let sum = a + v + if r.flag(CARRY) { 1int } else { 0int };
    let res = wrap8(sum);
    let overflow = (a >= 0x80) == (v >= 0x80) && (res >= 0x80) != (a >= 0x80);
    RegisterSet { accumulator: res, ..r }.with_flag(CARRY, sum > 0xff).with_flag(OVERFLOWED, overflow).with_zn(res)
}

/// A comparison of a register with `v`: carry when the register is not
/// below `v`, zero and negative from the difference.
pub open spec fn compare(r: RegisterSet, reg: u8, v: u8) -> RegisterSet {
    r.with_flag(CARRY, reg >= v).with_zn(wrap8(reg - v))
}

/// A branch: taken when `cond`, costing one more cycle, and another when
/// the target is on another page than the next instruction.
pub open spec fn branch(s: CpuState, out: AddressingOutput, cond: bool) -> CpuState {
    match target_of(out) {
        Some(t) if cond => {
            let extra: int = if crosses_page(t, s.regs.prog_counter) { 2 } else { 1 };
            s.with_pc(t).with_residual((s.time.residual + extra) as u8)
        },
        _ => s,
    }
}

/// The effect of operation `op` on state `s`, given the outcome of its
/// addressing. The program counter of `s` is already past the instruction.
#[verifier::opaque]
pub open spec fn execute_spec(s: CpuState, op: Operation, out: AddressingOutput) -> CpuState {
    let r = s.regs;
    let v = operand_value(s, out);
    let c: int = if r.flag(CARRY) { 1 } else { 0 };
    match op {
        Operation::Lda => s.with_regs(RegisterSet { accumulator: v, ..r }.with_zn(v)),
        Operation::Ldx => s.with_regs(RegisterSet { x_index: v, ..r }.with_zn(v)),
        Operation::Ldy => s.with_regs(RegisterSet { y_index: v, ..r }.with_zn(v)),
        Operation::Sta => store_at(s, out, r.accumulator),
        Operation::Stx => store_at(s, out, r.x_index),
        Operation::Sty => store_at(s, out, r.y_index),
        Operation::Tax => s.with_regs(RegisterSet { x_index: r.accumulator, ..r }.with_zn(r.accumulator)),
        Operation::Tay => s.with_regs(RegisterSet { y_index: r.accumulator, ..r }.with_zn(r.accumulator)),
        Operation::Txa => s.with_regs(RegisterSet { accumulator: r.x_index, ..r }.with_zn(r.x_index)),
        Operation::Tya => s.with_regs(RegisterSet { accumulator: r.y_index, ..r }.with_zn(r.y_index)),
        Operation::Tsx => s.with_regs(RegisterSet { x_index: r.stk_ptr, ..r }.with_zn(r.stk_ptr)),
        Operation::Txs => s.with_regs(RegisterSet { stk_ptr: r.x_index, ..r }),
        Operation::Pha => s.push(r.accumulator),
        Operation::Php => s.push(pushed_status(r.status)),
        Operation::Pla => {
            let p = s.popped();
            let b = s.pop_value();
            p.with_regs(RegisterSet { accumulator: b, ..p.regs }.with_zn(b))
        },
        Operation::Plp => {
            let p = s.popped();
            p.with_regs(RegisterSet { status: pulled_status(s.pop_value()), ..p.regs })
        },
        Operation::And => s.with_regs(RegisterSet { accumulator: r.accumulator & v, ..r }.with_zn(r.accumulator & v)),
        Operation::Eor => s.with_regs(RegisterSet { accumulator: r.accumulator ^ v, ..r }.with_zn(r.accumulator ^ v)),
        Operation::Ora => s.with_regs(RegisterSet { accumulator: r.accumulator | v, ..r }.with_zn(r.accumulator | v)),
        Operation::Bit => s.with_regs(
            r.with_flag(ZERO, r.accumulator & v == 0).with_flag(OVERFLOWED, v & 0x40 != 0).with_flag(NEGATIVE, v >= 0x80),
        ),
        Operation::Adc => s.with_regs(add_with_carry(r, v)),
        Operation::Sbc => s.with_regs(add_with_carry(r, (0xff - v) as u8)),
        Operation::Cmp => s.with_regs(compare(r, r.accumulator, v)),
        Operation::Cpx => s.with_regs(compare(r, r.x_index, v)),
        Operation::Cpy => s.with_regs(compare(r, r.y_index, v)),
        Operation::Inc => store_at(s.with_regs(r.with_zn(wrap8(v + 1))), out, wrap8(v + 1)),
        Operation::Dec => store_at(s.with_regs(r.with_zn(wrap8(v - 1))), out, wrap8(v - 1)),
        Operation::Inx => s.with_regs(RegisterSet { x_index: wrap8(r.x_index + 1), ..r }.with_zn(wrap8(r.x_index + 1))),
        Operation::Iny => s.with_regs(RegisterSet { y_index: wrap8(r.y_index + 1), ..r }.with_zn(wrap8(r.y_index + 1))),
        Operation::Dex => s.with_regs(RegisterSet { x_index: wrap8(r.x_index - 1), ..r }.with_zn(wrap8(r.x_index - 1))),
        Operation::Dey => s.with_regs(RegisterSet { y_index: wrap8(r.y_index - 1), ..r }.with_zn(wrap8(r.y_index - 1))),
        Operation::Asl => {
            let res = wrap8(2 * v);
            write_back(s.with_regs(r.with_flag(CARRY, v >= 0x80).with_zn(res)), out, res)
        },
        Operation::Lsr => {
            let res = (v / 2) as u8;
            write_back(s.with_regs(r.with_flag(CARRY, v % 2 == 1).with_zn(res)), out, res)
        },
        Operation::Rol => {
            let res = wrap8(2 * v + c);
            write_back(s.with_regs(r.with_flag(CARRY, v >= 0x80).with_zn(res)), out, res)
        },
        Operation::Ror => {
            let res = (v / 2 + 0x80 * c) as u8;
            write_back(s.with_regs(r.with_flag(CARRY, v % 2 == 1).with_zn(res)), out, res)
        },
        Operation::Jmp => match target_of(out) {
            Some(t) => s.with_pc(t),
            None => s,
        },
        Operation::Jsr => match target_of(out) {
            Some(t) => s.push_word(wrap16(r.prog_counter - 1)).with_pc(t),
            None => s,
        },
        Operation::Rts => s.popped_word().with_pc(wrap16(s.pop_word_value() + 1)),
        Operation::Rti => {
            let p = s.popped();
            let q = p.popped_word();
            q.with_regs(RegisterSet { status: pulled_status(s.pop_value()), prog_counter: p.pop_word_value(), ..q.regs })
        },
        Operation::Brk => {
            let s1 = s.push_word(wrap16(r.prog_counter + 1));
            let s2 = s1.push(pushed_status(s1.regs.status));
            let s3 = s2.with_regs(s2.regs.with_flag(IRQ_DISABLED, true));
            s3.with_pc(s3.read_word(BRK_VECTOR))
        },
        Operation::Bcc => branch(s, out, !r.flag(CARRY)),
        Operation::Bcs => branch(s, out, r.flag(CARRY)),
        Operation::Bne => branch(s, out, !r.flag(ZERO)),
        Operation::Beq => branch(s, out, r.flag(ZERO)),
        Operation::Bpl => branch(s, out, !r.flag(NEGATIVE)),
        Operation::Bmi => branch(s, out, r.flag(NEGATIVE)),
        Operation::Bvc => branch(s, out, !r.flag(OVERFLOWED)),
        Operation::Bvs => branch(s, out, r.flag(OVERFLOWED)),
        Operation::Clc => s.with_regs(r.with_flag(CARRY, false)),
        Operation::Sec => s.with_regs(r.with_flag(CARRY, true)),
        Operation::Cli => s.with_regs(r.with_flag(IRQ_DISABLED, false)),
        Operation::Sei => s.with_regs(r.with_flag(IRQ_DISABLED, true)),
        Operation::Cld => s.with_regs(r.with_flag(DECIMAL_MODE, false)),
        Operation::Sed => s.with_regs(r.with_flag(DECIMAL_MODE, true)),
        Operation::Clv => s.with_regs(r.with_flag(OVERFLOWED, false)),
        Operation::Nop => s,
    }
}

/// No operation lowers the cycles owed; only a taken branch raises them.
pub proof fn lemma_execute_residual(s: CpuState, op: Operation, out: AddressingOutput)
    requires
        s.time.residual <= 0xfd,
    ensures
        execute_spec(s, op, out).time.residual >= s.time.residual,
{
    reveal(execute_spec);
}

impl Cpu {
    fn value_of(&self, out: AddressingOutput) -> (r: u8)
        ensures
            r == operand_value(self@, out),
    {
        match out {
            AddressingOutput::Fetched { value, .. } => value,
            AddressingOutput::ValueOnly(v) => v,
            AddressingOutput::AbsoluteAddress(a) => self.read_byte(a),
            AddressingOutput::NotExecuted => 0,
        }
    }

    fn store_to(&mut self, out: AddressingOutput, v: u8)
        ensures
            final(self)@ == store_at(old(self)@, out, v),
    {
        match out {
            AddressingOutput::Fetched { address, .. } => self.writ_byte(address, v),
            AddressingOutput::AbsoluteAddress(a) => self.writ_byte(a, v),
            _ => {},
        }
    }

    fn write_back_to(&mut self, out: AddressingOutput, v: u8)
        ensures
            final(self)@ == write_back(old(self)@, out, v),
    {
        match out {
            AddressingOutput::Fetched { address, .. } => self.writ_byte(address, v),
            _ => self.regset.accumulator = v,
        }
    }

    /// Loads and stores.
    fn exec_load_store(&mut self, op: Operation, out: AddressingOutput)
        requires
            op == Operation::Lda || op == Operation::Ldx || op == Operation::Ldy || op == Operation::Sta
                || op == Operation::Stx || op == Operation::Sty,
        ensures
            final(self)@ == execute_spec(old(self)@, op, out),
    {
        reveal(execute_spec);
        let v = self.value_of(out);
        match op {
            Operation::Lda => {
                self.regset.accumulator = v;
                self.regset.set_zn(v);
            },
            Operation::Ldx => {
                self.regset.x_index = v;
                self.regset.set_zn(v);
            },
            Operation::Ldy => {
                self.regset.y_index = v;
                self.regset.set_zn(v);
            },
            Operation::Sta => self.store_to(out, self.regset.accumulator),
            Operation::Stx => self.store_to(out, self.regset.x_index),
            _ => self.store_to(out, self.regset.y_index),
        }
    }

    /// Register transfers.
    fn exec_transfer(&mut self, op: Operation)
        requires
            op == Operation::Tax || op == Operation::Tay || op == Operation::Txa || op == Operation::Tya
                || op == Operation::Tsx || op == Operation::Txs,
        ensures
            forall|out: AddressingOutput| final(self)@ == execute_spec(old(self)@, op, out),
    {
        reveal(execute_spec);
        match op {
            Operation::Tax => {
                self.regset.x_index = self.regset.accumulator;
                self.regset.set_zn(self.regset.accumulator);
            },
            Operation::Tay => {
                self.regset.y_index = self.regset.accumulator;
                self.regset.set_zn(self.regset.accumulator);
            },
            Operation::Txa => {
                self.regset.accumulator = self.regset.x_index;
                self.regset.set_zn(self.regset.x_index);
            },
            Operation::Tya => {
                self.regset.accumulator = self.regset.y_index;
                self.regset.set_zn(self.regset.y_index);
            },
            Operation::Tsx => {
                self.regset.x_index = self.regset.stk_ptr;
                self.regset.set_zn(self.regset.stk_ptr);
            },
            _ => self.regset.stk_ptr = self.regset.x_index,
        }
    }

    /// Pushes and pulls of the accumulator and the status.
    fn exec_stack(&mut self, op: Operation)
        requires
            op == Operation::Pha || op == Operation::Php || op == Operation::Pla || op == Operation::Plp,
        ensures
            forall|out: AddressingOutput| final(self)@ == execute_spec(old(self)@, op, out),
    {
        reveal(execute_spec);
        match op {
            Operation::Pha => self.stk_push(self.regset.accumulator),
            Operation::Php => {
                let mut t = self.regset;
                t.set_brk(true);
                t.set_unused(true);
                self.stk_push(t.status);
            },
            Operation::Pla => {
                let b = self.stk_pop();
                self.regset.accumulator = b;
                self.regset.set_zn(b);
            },
            _ => {
                let b = self.stk_pop();
                self.regset.status = b;
                self.regset.set_brk(false);
                self.regset.set_unused(true);
            },
        }
    }

    /// Logic and arithmetic on the accumulator, and comparisons.
    fn exec_alu(&mut self, op: Operation, out: AddressingOutput)
        requires
            op == Operation::And || op == Operation::Eor || op == Operation::Ora || op == Operation::Bit
                || op == Operation::Adc || op == Operation::Sbc || op == Operation::Cmp || op
                == Operation::Cpx || op == Operation::Cpy,
        ensures
            final(self)@ == execute_spec(old(self)@, op, out),
    {
        reveal(execute_spec);
        let v = self.value_of(out);
        let a = self.regset.accumulator;
        match op {
            Operation::And => {
                self.regset.accumulator = a & v;
                self.regset.set_zn(a & v);
            },
            Operation::Eor => {
                self.regset.accumulator = a ^ v;
                self.regset.set_zn(a ^ v);
            },
            Operation::Ora => {
                self.regset.accumulator = a | v;
                self.regset.set_zn(a | v);
            },
            Operation::Bit => {
                self.regset.set_zero(a & v == 0);
                self.regset.set_overflowed(v & 0x40 != 0);
                self.regset.set_negative(v >= 0x80);
            },
            Operation::Adc => self.add_to_accumulator(v),
            Operation::Sbc => self.add_to_accumulator(0xff - v),
            Operation::Cmp => self.compare_with(a, v),
            Operation::Cpx => self.compare_with(self.regset.x_index, v),
            _ => self.compare_with(self.regset.y_index, v),
        }
    }

    fn add_to_accumulator(&mut self, v: u8)
        ensures
            final(self)@ == old(self)@.with_regs(add_with_carry(old(self)@.regs, v)),
    {
        let a = self.regset.accumulator;
        let c: u16 = if self.regset.carry() { 1 } else { 0 };
        let sum: u16 = a as u16 + v as u16 + c;
        let res: u8 = if sum > 0xff { (sum - 0x100) as u8 } else { sum as u8 };
        let overflow = (a >= 0x80) == (v >= 0x80) && (res >= 0x80) != (a >= 0x80);
        self.regset.accumulator = res;
        self.regset.set_carry(sum > 0xff);
        self.regset.set_overflowed(overflow);
        self.regset.set_zn(res);
    }

    fn compare_with(&mut self, reg: u8, v: u8)
        ensures
            final(self)@ == old(self)@.with_regs(compare(old(self)@.regs, reg, v)),
    {
        self.regset.set_carry(reg >= v);
        self.regset.set_zn(reg.wrapping_sub(v));
    }

    /// Increments and decrements.
    fn exec_inc_dec(&mut self, op: Operation, out: AddressingOutput)
        requires
            op == Operation::Inc || op == Operation::Dec || op == Operation::Inx || op == Operation::Iny
                || op == Operation::Dex || op == Operation::Dey,
        ensures
            final(self)@ == execute_spec(old(self)@, op, out),
    {
        reveal(execute_spec);
        match op {
            Operation::Inc => {
                let res = self.value_of(out).wrapping_add(1);
                self.regset.set_zn(res);
                self.store_to(out, res);
            },
            Operation::Dec => {
                let res = self.value_of(out).wrapping_sub(1);
                self.regset.set_zn(res);
                self.store_to(out, res);
            },
            Operation::Inx => {
                self.regset.x_index = self.regset.x_index.wrapping_add(1);
                self.regset.set_zn(self.regset.x_index);
            },
            Operation::Iny => {
                self.regset.y_index = self.regset.y_index.wrapping_add(1);
                self.regset.set_zn(self.regset.y_index);
            },
            Operation::Dex => {
                self.regset.x_index = self.regset.x_index.wrapping_sub(1);
                self.regset.set_zn(self.regset.x_index);
            },
            _ => {
                self.regset.y_index = self.regset.y_index.wrapping_sub(1);
                self.regset.set_zn(self.regset.y_index);
            },
        }
    }

    /// Shifts and rotations, of the accumulator or of a memory byte.
    fn exec_shift(&mut self, op: Operation, out: AddressingOutput)
        requires
            op == Operation::Asl || op == Operation::Lsr || op == Operation::Rol || op == Operation::Ror,
        ensures
            final(self)@ == execute_spec(old(self)@, op, out),
    {
        reveal(execute_spec);
        let v = self.value_of(out);
        let c: u8 = if self.regset.carry() { 1 } else { 0 };
        let (res, carry) = match op {
            Operation::Asl => (((v as u16 * 2) % 0x100) as u8, v >= 0x80),
            Operation::Lsr => (v / 2, v % 2 == 1),
            Operation::Rol => (((v as u16 * 2 + c as u16) % 0x100) as u8, v >= 0x80),
            _ => (v / 2 + 0x80 * c, v % 2 == 1),
        };
        self.regset.set_carry(carry);
        self.regset.set_zn(res);
        self.write_back_to(out, res);
    }

    /// Jumps, subroutine calls and returns, and the software break.
    fn exec_jump(&mut self, op: Operation, out: AddressingOutput)
        requires
            op == Operation::Jmp || op == Operation::Jsr || op == Operation::Rts || op == Operation::Rti
                || op == Operation::Brk,
        ensures
            final(self)@ == execute_spec(old(self)@, op, out),
    {
        reveal(execute_spec);
        let target = match out {
            AddressingOutput::Fetched { address, .. } => Some(address),
            AddressingOutput::AbsoluteAddress(a) => Some(a),
            _ => None,
        };
        match op {
            Operation::Jmp => {
                if let Some(t) = target {
                    self.regset.prog_counter = t;
                }
            },
            Operation::Jsr => {
                if let Some(t) = target {
                    let ret = self.regset.prog_counter.wrapping_sub(1);
                    self.stk_doublepush(ret);
                    self.regset.prog_counter = t;
                }
            },
            Operation::Rts => {
                let w = self.stk_doublepop();
                self.regset.prog_counter = w.wrapping_add(1);
            },
            Operation::Rti => {
                let b = self.stk_pop();
                let w = self.stk_doublepop();
                self.regset.status = b;
                self.regset.set_brk(false);
                self.regset.set_unused(true);
                self.regset.prog_counter = w;
            },
            _ => {
                let ret = self.regset.prog_counter.wrapping_add(1);
                self.stk_doublepush(ret);
                let mut t = self.regset;
                t.set_brk(true);
                t.set_unused(true);
                self.stk_push(t.status);
                self.regset.set_irq_disabled(true);
                self.regset.prog_counter = self.read_word(BRK_VECTOR);
            },
        }
    }

    /// Conditional branches.
    fn exec_branch(&mut self, op: Operation, out: AddressingOutput)
        requires
            op == Operation::Bcc || op == Operation::Bcs || op == Operation::Bne || op == Operation::Beq
                || op == Operation::Bpl || op == Operation::Bmi || op == Operation::Bvc || op
                == Operation::Bvs,
            old(self)@.time.residual <= 0xfd,
        ensures
            final(self)@ == execute_spec(old(self)@, op, out),
    {
        reveal(execute_spec);
        let r = self.regset;
        let cond = match op {
            Operation::Bcc => !r.carry(),
            Operation::Bcs => r.carry(),
            Operation::Bne => !r.zero(),
            Operation::Beq => r.zero(),
            Operation::Bpl => !r.negative(),
            Operation::Bmi => r.negative(),
            Operation::Bvc => !r.overflowed(),
            _ => r.overflowed(),
        };
        let target = match out {
            AddressingOutput::Fetched { address, .. } => Some(address),
            AddressingOutput::AbsoluteAddress(a) => Some(a),
            _ => None,
        };
        if let Some(t) = target {
            if cond {
                let extra: u8 = if t / 0x100 != r.prog_counter / 0x100 { 2 } else { 1 };
                self.time.residual = self.time.residual + extra;
                self.regset.prog_counter = t;
            }
        }
    }

    /// Flag sets and clears, and the no-operation.
    fn exec_flag(&mut self, op: Operation)
        requires
            op == Operation::Clc || op == Operation::Sec || op == Operation::Cli || op == Operation::Sei
                || op == Operation::Cld || op == Operation::Sed || op == Operation::Clv || op
                == Operation::Nop,
        ensures
            forall|out: AddressingOutput| final(self)@ == execute_spec(old(self)@, op, out),
    {
        reveal(execute_spec);
        match op {
            Operation::Clc => self.regset.set_carry(false),
            Operation::Sec => self.regset.set_carry(true),
            Operation::Cli => self.regset.set_irq_disabled(false),
            Operation::Sei => self.regset.set_irq_disabled(true),
            Operation::Cld => self.regset.set_decimal_mode(false),
            Operation::Sed => self.regset.set_decimal_mode(true),
            Operation::Clv => self.regset.set_overflowed(false),
            _ => {},
        }
    }

    /// Runs operation `op` on the outcome of its addressing.
    pub fn execute(&mut self, op: Operation, out: AddressingOutput)
        requires
            old(self)@.time.residual <= 0xfd,
        ensures
            final(self)@ == execute_spec(old(self)@, op, out),
    {
        match op {
            Operation::Lda | Operation::Ldx | Operation::Ldy | Operation::Sta | Operation::Stx
            | Operation::Sty => self.exec_load_store(op, out),
            Operation::Tax | Operation::Tay | Operation::Txa | Operation::Tya | Operation::Tsx
            | Operation::Txs => self.exec_transfer(op),
            Operation::Pha | Operation::Php | Operation::Pla | Operation::Plp => self.exec_stack(op),
            Operation::And | Operation::Eor | Operation::Ora | Operation::Bit | Operation::Adc
            | Operation::Sbc | Operation::Cmp | Operation::Cpx | Operation::Cpy => self.exec_alu(op, out),
            Operation::Inc | Operation::Dec | Operation::Inx | Operation::Iny | Operation::Dex
            | Operation::Dey => self.exec_inc_dec(op, out),
            Operation::Asl | Operation::Lsr | Operation::Rol | Operation::Ror => self.exec_shift(op, out),
            Operation::Jmp | Operation::Jsr | Operation::Rts | Operation::Rti | Operation::Brk => self.exec_jump(op, out),
            Operation::Bcc | Operation::Bcs | Operation::Bne | Operation::Beq | Operation::Bpl
            | Operation::Bmi | Operation::Bvc | Operation::Bvs => self.exec_branch(op, out),
            Operation::Clc | Operation::Sec | Operation::Cli | Operation::Sei | Operation::Cld
            | Operation::Sed | Operation::Clv | Operation::Nop => self.exec_flag(op),
        }
    }
}

} // verus!
