use vstd::prelude::*;
use crate::addressing::resolve;
use crate::cpu::{word, wrap16, wrap8, CpuState};
use crate::execution::{finish, operand_at, tick};
use crate::instruction::{opcode_entry, AddressingMode, AddressingOutput, Instruction, Operation};
use crate::operations::{execute_spec, operand_value};
use crate::registers::{bit_of, lemma_with_bit, InterruptKind, RegisterSet, BRK, CARRY, IRQ_DISABLED, NEGATIVE, UNUSED, ZERO};

verus! {

/// Every documented opcode decodes to an instruction one byte longer than
/// the operand bytes of its addressing mode.
pub proof fn lemma_decode_size(opcode: u8)
    ensures
        Instruction::decoded(opcode).is_some() ==> Instruction::decoded(opcode).unwrap().size == 1
            + Instruction::decoded(opcode).unwrap().amode.operand_bytes(),
{
}

/// Setting the zero and negative flags from a byte `v`: zero is set exactly
/// when `v` is zero, negative exactly when bit 7 of `v` is set; no other
/// status bit moves.
pub proof fn lemma_zn_flags(r: RegisterSet, v: u8)
    ensures
        r.with_zn(v).flag(ZERO) == (v == 0),
        r.with_zn(v).flag(NEGATIVE) == (v & 0x80 != 0),
        forall|n: u8| n < 8 && n != ZERO && n != NEGATIVE ==> #[trigger] r.with_zn(v).flag(n) == r.flag(n),
{
    let z = r.with_flag(ZERO, v == 0);
    lemma_with_bit(r.status, ZERO, ZERO, v == 0);
    lemma_with_bit(z.status, NEGATIVE, ZERO, v >= 0x80);
    lemma_with_bit(z.status, NEGATIVE, NEGATIVE, v >= 0x80);
    assert(v >= 0x80 <==> v & 0x80 != 0) by (bit_vector);
    assert forall|n: u8| n < 8 && n != ZERO && n != NEGATIVE implies #[trigger] r.with_zn(v).flag(n) == r.flag(n) by {
        lemma_with_bit(r.status, ZERO, n, v == 0);
        lemma_with_bit(z.status, NEGATIVE, n, v >= 0x80);
    }
}

/// The register that an operation leaves its result byte in, for the
/// operations whose result lands in a register.
pub open spec fn result_register(op: Operation, r: RegisterSet) -> u8 {
    match op {
        Operation::Ldx | Operation::Tax | Operation::Tsx | Operation::Inx | Operation::Dex => r.x_index,
        Operation::Ldy | Operation::Tay | Operation::Iny | Operation::Dey => r.y_index,
        _ => r.accumulator,
    }
}

pub open spec fn sets_zn_from_register(op: Operation) -> bool {
    match op {
        Operation::Lda | Operation::Ldx | Operation::Ldy | Operation::Tax | Operation::Tay
        | Operation::Txa | Operation::Tya | Operation::Tsx | Operation::Pla | Operation::And
        | Operation::Eor | Operation::Ora | Operation::Adc | Operation::Sbc | Operation::Inx
        | Operation::Iny | Operation::Dex | Operation::Dey => true,
        _ => false,
    }
}

/// After an operation that leaves its result byte R in a register, the zero
/// flag says whether R is zero and the negative flag is bit 7 of R.
pub proof fn lemma_zn_after_operation(s: CpuState, op: Operation, out: AddressingOutput)
    requires
        sets_zn_from_register(op),
    ensures
        ({
            let t = execute_spec(s, op, out).regs;
            &&& t.flag(ZERO) == (result_register(op, t) == 0)
            &&& t.flag(NEGATIVE) == (result_register(op, t) & 0x80 != 0)
        }),
{
    reveal(execute_spec);
    assert forall|r: RegisterSet, v: u8| #[trigger] r.with_zn(v).flag(ZERO) == (v == 0) && r.with_zn(v).flag(NEGATIVE) == (v & 0x80 != 0) by {
        lemma_zn_flags(r, v);
    }
}

/// Pushing a byte and popping gives the byte back and puts the stack
/// pointer back, where the bus holds the stack page.
pub proof fn lemma_push_pop(s: CpuState, b: u8)
    requires
        s.mem.is_some(),
        s.mem.unwrap().len() >= 0x200,
    ensures
        s.push(b).pop_value() == b,
        s.push(b).popped().regs == s.regs,
{
}

/// Pushing a word (high byte first) and popping a word (low byte first)
/// gives the word back and puts the stack pointer back, where the bus holds
/// the stack page.
pub proof fn lemma_push_pop_word(s: CpuState, w: u16)
    requires
        s.mem.is_some(),
        s.mem.unwrap().len() >= 0x200,
    ensures
        s.push_word(w).pop_word_value() == w,
        s.push_word(w).popped_word().regs == s.regs,
{
}

/// An interrupt request is refused while interrupts are disabled (and a
/// refused interrupt leaves the CPU as it was, by `inthandle`); a
/// non-maskable interrupt is taken whatever that flag says, unless the CPU
/// has stopped on a fault.
pub proof fn lemma_interrupt_masking(s: CpuState)
    ensures
        s.regs.flag(IRQ_DISABLED) ==> !s.accepts(InterruptKind::Irq),
        s.fault.is_none() ==> s.accepts(InterruptKind::Nmi),
        s.fault.is_some() ==> !s.accepts(InterruptKind::Nmi) && !s.accepts(InterruptKind::Irq),
{
}

/// An indirect jump through a pointer at the last byte of a page takes the
/// high byte of its target from the start of that same page.
pub proof fn lemma_indirect_page_wrap(s: CpuState, ptr: u16)
    requires
        ptr % 0x100 == 0xff,
    ensures
        resolve(s, AddressingMode::Ind, ptr).0 == AddressingOutput::AbsoluteAddress(
            word(s.read(ptr), s.read((ptr - 0xff) as u16)),
        ),
{
}

/// Servicing an interrupt leaves on the stack, from the top down, the high
/// byte of the program counter, its low byte, and the status with the
/// unused flag set and the break flag clear; the stack pointer ends three
/// below where it was, and interrupts are disabled. This holds where the bus
/// holds the stack page.
pub proof fn lemma_interrupt_stack_image(s: CpuState, kind: InterruptKind)
    requires
        s.mem.is_some(),
        s.mem.unwrap().len() >= 0x200,
    ensures
        ({
            let sp = s.regs.stk_ptr;
            let t = s.serviced(kind);
            &&& t.read(CpuState::stack_slot(wrap8(sp - 1))) == s.regs.prog_counter / 0x100
            &&& t.read(CpuState::stack_slot(wrap8(sp - 2))) == s.regs.prog_counter % 0x100
            &&& bit_of(t.read(CpuState::stack_slot(wrap8(sp - 3))), UNUSED)
            &&& !bit_of(t.read(CpuState::stack_slot(wrap8(sp - 3))), BRK)
            &&& t.regs.stk_ptr == wrap8(sp - 3)
            &&& t.regs.flag(IRQ_DISABLED)
        }),
{
    let s1 = s.push_word(s.regs.prog_counter);
    let r2 = s1.regs.with_flag(BRK, false);
    lemma_with_bit(s1.regs.status, BRK, BRK, false);
    lemma_with_bit(r2.status, UNUSED, BRK, true);
    lemma_with_bit(r2.status, UNUSED, UNUSED, true);
    let s2 = s1.with_regs(r2.with_flag(UNUSED, true));
    let s3 = s2.push(s2.regs.status);
    lemma_with_bit(s3.regs.status, IRQ_DISABLED, IRQ_DISABLED, true);
}

/// Ticking until nothing is owed ends at an instruction boundary, or with
/// the CPU stopped.
pub proof fn lemma_finish_at_boundary(s: CpuState)
    ensures
        finish(s).time.residual == 0 || finish(s).fault.is_some(),
    decreases s.time.residual,
{
    if s.time.residual != 0 && s.fault.is_none() {
        lemma_finish_at_boundary(tick(s));
    }
}

/// A CPU about to start an instruction: not stopped, no cycle owed, and no
/// interrupt that would be serviced first.
pub open spec fn at_boundary(s: CpuState) -> bool {
    &&& s.fault.is_none()
    &&& s.time.residual == 0
    &&& !s.inter.pending_nmi
    &&& !(s.inter.pending_irq && !s.regs.flag(IRQ_DISABLED))
}

/// The pointer operand of the instruction at the program counter.
pub open spec fn pointer_operand(s: CpuState) -> u16 {
    word(s.read(wrap16(s.regs.prog_counter + 1)), s.read(wrap16(s.regs.prog_counter + 2)))
}

/// A clock tick that starts an indirect jump (opcode 0x6C) through a pointer
/// at the last byte of a page jumps to the target whose high byte is read
/// from the start of that same page, not from the next page.
pub proof fn lemma_indirect_jump_tick(s: CpuState)
    requires
        at_boundary(s),
        s.read(s.regs.prog_counter) == 0x6c,
        pointer_operand(s) % 0x100 == 0xff,
    ensures
        tick(s).regs.prog_counter == word(
            s.read(pointer_operand(s)),
            s.read((pointer_operand(s) - 0xff) as u16),
        ),
{
    reveal(execute_spec);
    let t = Instruction::decoded(0x6c).unwrap();
    assert(operand_at(s, s.regs.prog_counter, t.amode) == Some(pointer_operand(s)));
}

/// The operations that write their result back to memory (or, in implied
/// mode, to the accumulator) and set the zero and negative flags from it.
pub open spec fn sets_zn_in_place(op: Operation) -> bool {
    match op {
        Operation::Inc | Operation::Dec | Operation::Asl | Operation::Lsr | Operation::Rol
        | Operation::Ror => true,
        _ => false,
    }
}

/// Where an in-place operation left its result: the memory byte it
/// addressed, or the accumulator.
pub open spec fn in_place_result(t: CpuState, out: AddressingOutput) -> u8 {
    match out {
        AddressingOutput::Fetched { address, .. } => t.read(address),
        _ => t.regs.accumulator,
    }
}

/// After an in-place operation, the zero flag says whether its stored
/// result R is zero and the negative flag is bit 7 of R, where the bus holds
/// the whole address space. (Increments and decrements always have a memory
/// operand.)
pub proof fn lemma_zn_after_in_place_operation(s: CpuState, op: Operation, out: AddressingOutput)
    requires
        sets_zn_in_place(op),
        s.mem.is_some(),
        s.mem.unwrap().len() >= 0x10000,
        op == Operation::Inc || op == Operation::Dec ==> out is Fetched,
    ensures
        ({
            let t = execute_spec(s, op, out);
            &&& t.regs.flag(ZERO) == (in_place_result(t, out) == 0)
            &&& t.regs.flag(NEGATIVE) == (in_place_result(t, out) & 0x80 != 0)
        }),
{
    reveal(execute_spec);
    let v = operand_value(s, out);
    let c: int = if s.regs.flag(CARRY) { 1 } else { 0 };
    let res: u8 = match op {
        Operation::Inc => wrap8(v + 1),
        Operation::Dec => wrap8(v - 1),
        Operation::Asl => wrap8(2 * v),
        Operation::Lsr => (v / 2) as u8,
        Operation::Rol => wrap8(2 * v + c),
        _ => (v / 2 + 0x80 * c) as u8,
    };
    let t = execute_spec(s, op, out);
    assert(in_place_result(t, out) == res);
    match op {
        Operation::Inc | Operation::Dec => lemma_zn_flags(s.regs, res),
        Operation::Asl | Operation::Rol => lemma_zn_flags(s.regs.with_flag(CARRY, v >= 0x80), res),
        _ => lemma_zn_flags(s.regs.with_flag(CARRY, v % 2 == 1), res),
    }
}

/// Running an operation leaves the instruction in flight as it was.
pub proof fn lemma_execute_keeps_instr(s: CpuState, op: Operation, out: AddressingOutput)
    ensures
        execute_spec(s, op, out).instr == s.instr,
{
    reveal(execute_spec);
}

/// Increments and decrements decode only with memory addressing modes.
pub proof fn lemma_inc_dec_modes(opcode: u8)
    ensures
        ({
            let e = opcode_entry(opcode).unwrap();
            opcode_entry(opcode).is_some() && (e.op == Operation::Inc || e.op == Operation::Dec) ==> e.amode
                == AddressingMode::Zp0 || e.amode == AddressingMode::Zpx || e.amode == AddressingMode::Abs
                || e.amode == AddressingMode::Abx
        }),
{
}

/// The byte an instruction sets the zero and negative flags from, read off
/// the state after the tick that ran it: the register it loaded, or where
/// it stored its result.
pub open spec fn zn_result(op: Operation, t: CpuState) -> u8 {
    if sets_zn_from_register(op) {
        result_register(op, t.regs)
    } else {
        match t.instr {
            Some(i) => in_place_result(t, i.amode_output),
            None => t.regs.accumulator,
        }
    }
}

/// A clock tick that starts an instruction which sets the zero and negative
/// flags from a result byte R leaves zero set exactly when R is zero and
/// negative equal to bit 7 of R, where the bus holds the whole address space.
pub proof fn lemma_zn_after_tick(s: CpuState)
    requires
        at_boundary(s),
        Instruction::decoded(s.read(s.regs.prog_counter)).is_some(),
        sets_zn_from_register(Instruction::decoded(s.read(s.regs.prog_counter)).unwrap().op) || sets_zn_in_place(
            Instruction::decoded(s.read(s.regs.prog_counter)).unwrap().op,
        ),
        s.mem.is_some(),
        s.mem.unwrap().len() >= 0x10000,
    ensures
        ({
            let op = Instruction::decoded(s.read(s.regs.prog_counter)).unwrap().op;
            let t = tick(s);
            &&& t.regs.flag(ZERO) == (zn_result(op, t) == 0)
            &&& t.regs.flag(NEGATIVE) == (zn_result(op, t) & 0x80 != 0)
        }),
{
    let opcode = s.read(s.regs.prog_counter);
    let i = Instruction::decoded(opcode).unwrap();
    lemma_inc_dec_modes(opcode);
    let at = s.regs.prog_counter;
    let operand = operand_at(s, at, i.amode);
    let s1 = s.with_pc(wrap16(at + i.size));
    let opv = if operand.is_some() { operand.unwrap() } else { 0 };
    let (out, crossed) = resolve(s1, i.amode, opv);
    let owed: int = if crossed && i.op.pays_page_penalty() { i.time + 1 } else { i.time as int };
    let s2 = CpuState {
        instr: Some(Instruction { operand, loaded_from: at, amode_output: out, ..i }),
        ..s1.with_residual(owed as u8)
    };
    lemma_execute_keeps_instr(s2, i.op, out);
    if sets_zn_from_register(i.op) {
        lemma_zn_after_operation(s2, i.op, out);
    } else {
        lemma_zn_after_in_place_operation(s2, i.op, out);
    }
}

} // verus!
