use vstd::prelude::*;
use crate::addressing::resolve;
use crate::cpu::{word, wrap16, Cpu, CpuError, CpuState};
use crate::instruction::{opcode_entry, AddressingMode, Instruction};
use crate::operations::{execute_spec, lemma_execute_residual};
use crate::registers::{InterruptKind, Timings, IRQ_DISABLED};

verus! {

/// The operand of an instruction in `amode` whose opcode is at `at`: none,
/// the next byte, or the little-endian word in the next two bytes.
pub open spec fn operand_at(s: CpuState, at: u16, amode: AddressingMode) -> Option<u16> {
    if amode.operand_bytes() == 0 {
        None
    } else if amode.operand_bytes() == 1 {
        Some(s.read(wrap16(at + 1)) as u16)
    } else {
        Some(word(s.read(wrap16(at + 1)), s.read(wrap16(at + 2))))
    }
}

/// The state after the operand of the instruction in flight is loaded: the
/// opcode is taken to sit just before the program counter, the operand bytes
/// follow it, and the program counter moves past them.
pub open spec fn with_operand_loaded(s: CpuState) -> CpuState {
    match s.instr {
        None => s,
        Some(i) => {
            let at = wrap16(s.regs.prog_counter - 1);
            CpuState {
                instr: Some(Instruction { loaded_from: at, operand: operand_at(s, at, i.amode), ..i }),
                ..s.with_pc(wrap16(s.regs.prog_counter + i.amode.operand_bytes()))
            }
        },
    }
}

/// One cycle paid: one fewer owed, one more elapsed.
pub open spec fn ticked(s: CpuState) -> CpuState {
    CpuState {
        time: Timings { residual: (s.time.residual - 1) as u8, elapsed: s.time.elapsed.wrapping_add(1) },
        ..s
    }
}

/// The state after the instruction `t`, decoded from the opcode at the
/// program counter, is loaded, addressed and executed (before the cycle is
/// paid): the program counter past it, its cycles owed plus one where
/// indexing crossed a page for an operation that reads, and its operation run.
pub open spec fn run_decoded(s: CpuState, t: Instruction) -> CpuState {
    let at = s.regs.prog_counter;
    let operand = operand_at(s, at, t.amode);
    let s1 = s.with_pc(wrap16(at + t.size));
    let (out, crossed) = resolve(s1, t.amode, if operand.is_some() { operand.unwrap() } else { 0 });
    let owed: int = if crossed && t.op.pays_page_penalty() { t.time + 1 } else { t.time as int };
    let s2 = CpuState {
        instr: Some(Instruction { operand, loaded_from: at, amode_output: out, ..t }),
        ..s1.with_residual(owed as u8)
    };
    execute_spec(s2, t.op, out)
}

/// One clock tick. A stopped CPU stays as it is. While cycles are owed, one
/// is paid. At an instruction boundary a pending NMI is serviced, else a
/// pending IRQ that is not masked, else the opcode at the program counter is
/// decoded and run; an undocumented opcode stops the CPU where it stands.
/// The interrupt lines are left as they are: lowering them is up to
/// whoever raised them.
pub open spec fn tick(s: CpuState) -> CpuState {
    if s.fault.is_some() {
        s
    } else if s.time.residual > 0 {
        ticked(s)
    } else if s.inter.pending_nmi {
        ticked(s.serviced(InterruptKind::Nmi))
    } else if s.inter.pending_irq && !s.regs.flag(IRQ_DISABLED) {
        ticked(s.serviced(InterruptKind::Irq))
    } else {
        match Instruction::decoded(s.read(s.regs.prog_counter)) {
            None => CpuState { fault: Some(CpuError::IllegalOpcode), instr: None, ..s },
            Some(t) => ticked(run_decoded(s, t)),
        }
    }
}

/// Ticks until no cycle is owed (or the CPU has stopped).
pub open spec fn finish(s: CpuState) -> CpuState
    decreases s.time.residual,
{
    if s.time.residual == 0 || s.fault.is_some() {
        s
    } else {
        finish(tick(s))
    }
}

/// One full instruction: a tick, then ticks until it has been paid for.
pub open spec fn run_instruction(s: CpuState) -> CpuState {
    finish(tick(s))
}

/// Every documented opcode costs between two and seven cycles.
pub proof fn lemma_entry_cycles(opcode: u8)
    ensures
        opcode_entry(opcode).is_some() ==> 2 <= opcode_entry(opcode).unwrap().cycles <= 7,
{
}

/// Loads the operand of the instruction in flight, taking its opcode to sit
/// just before the program counter; without an instruction in flight,
/// nothing happens.
pub fn load_operand_curr_i(cpu: &mut Cpu)
    ensures
        final(cpu)@ == with_operand_loaded(old(cpu)@),
{
    let i = match cpu.i {
        Some(i) => i,
        None => return,
    };
    let loaded_from = cpu.regset.prog_counter.wrapping_sub(1);
    let n = i.amode.num_operand_bytes();
    let operand = if n == 0 {
        None
    } else if n == 1 {
        Some(cpu.fetch() as u16)
    } else {
        let lo = cpu.fetch();
        let hi = cpu.fetch();
        Some(lo as u16 + 0x100 * hi as u16)
    };
    cpu.i = Some(Instruction { loaded_from, operand, ..i });
}

/// Loads the operand of `i` as if its opcode sat at `address`; the CPU is
/// left as it was.
pub fn load_operand(cpu: &mut Cpu, i: &mut Instruction, address: u16)
    ensures
        final(cpu)@ == old(cpu)@,
        *final(i) == (Instruction { loaded_from: address, operand: operand_at(old(cpu)@, address, old(i).amode), ..*old(i) }),
{
    let saved_pc = cpu.regset.prog_counter;
    let saved_i = cpu.i;
    cpu.regset.prog_counter = address.wrapping_add(1);
    cpu.i = Some(*i);
    load_operand_curr_i(cpu);
    match cpu.i {
        Some(loaded) => *i = loaded,
        None => {},
    }
    cpu.i = saved_i;
    cpu.regset.prog_counter = saved_pc;
}

impl Cpu {
    /// Decodes, loads, addresses and runs the instruction whose opcode is at
    /// the program counter, at an instruction boundary.
    fn start_instruction(&mut self, t: Instruction)
        requires
            old(self)@.fault.is_none(),
            Instruction::decoded(old(self)@.read(old(self)@.regs.prog_counter)) == Some(t),
        ensures
            final(self)@ == run_decoded(old(self)@, t),
            final(self)@.time.residual >= 1,
    {
        proof {
            lemma_entry_cycles(old(self)@.read(old(self)@.regs.prog_counter));
        }
        let ghost s0 = self@;
        let ghost at = s0.regs.prog_counter;
        self.inc_pc();
        self.i = Some(t);
        self.time.residual = t.time;
        load_operand_curr_i(self);
        let ghost operand = operand_at(s0, at, t.amode);
        assert(wrap16(wrap16(at + 1) - 1) == at);
        assert(wrap16(wrap16(at + 1) + t.amode.operand_bytes()) == wrap16(at + t.size));
        assert(self@ == (CpuState {
            instr: Some(Instruction { operand, loaded_from: at, ..t }),
            ..s0.with_pc(wrap16(at + t.size)).with_residual(t.time)
        }));
        let cur = match self.i {
            Some(cur) => cur,
            None => return,
        };
        match self.resolve_mode(cur.amode, cur.operand) {
            Ok((out, crossed)) => {
                self.i = Some(Instruction { amode_output: out, ..cur });
                if crossed && cur.op.page_penalty() {
                    self.time.residual = self.time.residual + 1;
                }
                proof {
                    lemma_execute_residual(self@, cur.op, out);
                }
                self.execute(cur.op, out);
            },
            Err(e) => {
                self.fault = Some(e);
            },
        }
    }

    /// Advances the CPU by one clock cycle.
    pub fn clock_cycle(&mut self)
        ensures
            final(self)@ == tick(old(self)@),
    {
        if self.fault.is_some() {
            return;
        }
        if self.time.residual == 0 {
            if self.inter.pending_nmi {
                self.inthandle(InterruptKind::Nmi);
            } else if self.inter.pending_irq && !self.regset.irq_disabled() {
                self.inthandle(InterruptKind::Irq);
            } else {
                let opcode = self.read_byte(self.regset.prog_counter);
                match Instruction::decode_by(opcode) {
                    Some(t) => self.start_instruction(t),
                    None => {
                        self.fault = Some(CpuError::IllegalOpcode);
                        self.i = None;
                        return;
                    },
                }
            }
        }
        self.time.next();
    }

    /// Runs exactly one instruction to its end: ticks once, then until no
    /// cycle is owed.
    pub fn full_instruction(&mut self)
        ensures
            final(self)@ == run_instruction(old(self)@),
    {
        self.clock_cycle();
        while self.time.residual != 0 && self.fault.is_none()
            invariant
                finish(self@) == run_instruction(old(self)@),
            decreases self.time.residual,
        {
            self.clock_cycle();
        }
    }
}

} // verus!
