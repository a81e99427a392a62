use vstd::prelude::*;
use crate::bus::{mapped_run, mem_peek, mem_store, run_end, CommunicationInterface, MainBus};
use crate::instruction::Instruction;
use crate::registers::{
    InterruptHandling, InterruptKind, RegisterSet, Timings, BRK, IRQ_DISABLED, UNUSED,
};

verus! {

/// Where the program counter is loaded from on a non-maskable interrupt.
pub const NMI_VECTOR: u16 = 0xfffa;
/// Where the program counter is loaded from on a reset.
pub const RESET_VECTOR: u16 = 0xfffc;
/// Where the program counter is loaded from on an interrupt request; a
/// software break shares it.
pub const IRQ_VECTOR: u16 = 0xfffe;
pub const BRK_VECTOR: u16 = 0xfffe;
/// The page that holds the stack.
pub const STACK_OFFSET: u16 = 0x100;
/// Where `reset` starts the program counter.
pub const RESET_PC: u16 = 0x8000;
/// Cycles charged for servicing a non-maskable interrupt, an interrupt
/// request, and a reset.
pub const NMI_CYCLES: u8 = 8;
pub const IRQ_CYCLES: u8 = 7;
pub const RESET_CYCLES: u8 = 8;

/// The errors of the emulator core.
#[derive(Debug, Clone, Copy, PartialEq, Eq, Structural)]
pub enum CpuError {
    /// Memory was needed and no bus is attached.
    BusInterfaceMissing,
    /// An instruction was needed and none has been decoded.
    CurrentInstructionMissing,
    /// An addressing mode needed operand bytes that were not loaded.
    ExpectedOperandMissing,
    /// A program did not fit where it was to be loaded, or could not be read.
    FailedLoadingProgram,
    /// Addressing gave no usable outcome.
    BadAddressing,
    /// An opcode outside the documented instruction set was fetched.
    IllegalOpcode,
}

/// The wrap of an integer into a byte, for values within one wrap of the range.
pub open spec fn wrap8(v: int) -> u8 {
    if v >= 0x100 {
        (v - 0x100) as u8
    } else if v < 0 {
        (v + 0x100) as u8
    } else {
        v as u8
    }
}

/// The wrap of an integer into 16 bits, for values within one wrap of the range.
pub open spec fn wrap16(v: int) -> u16 {
    if v >= 0x10000 {
        (v - 0x10000) as u16
    } else if v < 0 {
        (v + 0x10000) as u16
    } else {
        v as u16
    }
}

/// The little-endian word of two bytes.
pub open spec fn word(lo: u8, hi: u8) -> u16 {
    (lo + 0x100 * hi) as u16
}

/// The mathematical state of a CPU: its registers, the memory behind its bus
/// (`None` with no bus attached), its timing, its interrupt lines, the
/// instruction in flight and the fault that stopped it, if one did.
pub struct CpuState {
    pub regs: RegisterSet,
    pub mem: Option<Seq<u8>>,
    pub time: Timings,
    pub inter: InterruptHandling,
    pub instr: Option<Instruction>,
    pub fault: Option<CpuError>,
}

impl CpuState {
    /// A bus read: the byte stored, or zero where there is no memory.
    pub open spec fn read(self, address: u16) -> u8 {
        match self.mem {
            Some(m) => match mem_peek(m, address) {
                Some(v) => v,
                None => 0,
            },
            None => 0,
        }
    }

    /// A bus write: dropped where there is no memory.
    pub open spec fn write(self, address: u16, data: u8) -> CpuState {
        CpuState {
            mem: match self.mem {
                Some(m) => Some(mem_store(m, address, data)),
                None => None,
            },
            ..self
        }
    }

    pub open spec fn read_word(self, address: u16) -> u16 {
        word(self.read(address), self.read(wrap16(address + 1)))
    }

    /// The state with one interrupt line raised or lowered.
    pub open spec fn with_pending(self, kind: InterruptKind, value: bool) -> CpuState {
        CpuState {
            inter: match kind {
                InterruptKind::Nmi => InterruptHandling { pending_nmi: value, ..self.inter },
                InterruptKind::Irq => InterruptHandling { pending_irq: value, ..self.inter },
            },
            ..self
        }
    }

    pub open spec fn with_regs(self, regs: RegisterSet) -> CpuState {
        CpuState { regs, ..self }
    }

    pub open spec fn with_pc(self, pc: u16) -> CpuState {
        CpuState { regs: RegisterSet { prog_counter: pc, ..self.regs }, ..self }
    }

    pub open spec fn with_residual(self, residual: u8) -> CpuState {
        CpuState { time: Timings { residual, ..self.time }, ..self }
    }

    /// The address of the stack slot at offset `sp`.
    pub open spec fn stack_slot(sp: u8) -> u16 {
        (STACK_OFFSET + sp) as u16
    }

    /// Push: move the stack pointer down (wrapping within the page), then
    /// write at the new stack pointer.
    pub open spec fn push(self, data: u8) -> CpuState {
        let sp = wrap8(self.regs.stk_ptr - 1);
        let s = self.with_regs(RegisterSet { stk_ptr: sp, ..self.regs });
        s.write(CpuState::stack_slot(sp), data)
    }

    /// The state after a pop: the stack pointer moved up (wrapping).
    pub open spec fn popped(self) -> CpuState {
        self.with_regs(RegisterSet { stk_ptr: wrap8(self.regs.stk_ptr + 1), ..self.regs })
    }

    /// The byte a pop returns: the one at the stack pointer, read before it
    /// moves up.
    pub open spec fn pop_value(self) -> u8 {
        self.read(CpuState::stack_slot(self.regs.stk_ptr))
    }

    /// Pushes a word, high byte first.
    pub open spec fn push_word(self, data: u16) -> CpuState {
        self.push((data / 0x100) as u8).push((data % 0x100) as u8)
    }

    /// The word two pops return, low byte first.
    pub open spec fn pop_word_value(self) -> u16 {
        word(self.pop_value(), self.popped().pop_value())
    }

    pub open spec fn popped_word(self) -> CpuState {
        self.popped().popped()
    }

    /// Whether an interrupt of this kind is taken: never by a stopped CPU;
    /// otherwise always for an NMI, and for an IRQ only while interrupts are
    /// not disabled.
    pub open spec fn accepts(self, kind: InterruptKind) -> bool {
        self.fault.is_none() && (kind == InterruptKind::Nmi || !self.regs.flag(IRQ_DISABLED))
    }

    /// The state after an interrupt of this kind is serviced: the program
    /// counter pushed, the status pushed with break clear and unused set,
    /// interrupts disabled, the program counter loaded from the vector, and
    /// the service cycles owed.
    pub open spec fn serviced(self, kind: InterruptKind) -> CpuState {
        let s1 = self.push_word(self.regs.prog_counter);
        let s2 = s1.with_regs(s1.regs.with_flag(BRK, false).with_flag(UNUSED, true));
        let s3 = s2.push(s2.regs.status);
        let s4 = s3.with_regs(s3.regs.with_flag(IRQ_DISABLED, true));
        let vector = if kind == InterruptKind::Nmi { NMI_VECTOR } else { IRQ_VECTOR };
        let cycles = if kind == InterruptKind::Nmi { NMI_CYCLES } else { IRQ_CYCLES };
        s4.with_pc(s4.read_word(vector)).with_residual(cycles)
    }
}

/// The MOS 6502: registers, timing, interrupt lines, a connection to a bus,
/// and the instruction in flight.
pub struct Cpu {
    pub regset: RegisterSet,
    pub time: Timings,
    pub inter: InterruptHandling,
    pub bus_conn: Option<MainBus>,
    pub i: Option<Instruction>,
    /// Set when the CPU has stopped on a fatal condition; it then stays
    /// still until reset.
    pub fault: Option<CpuError>,
}

impl View for Cpu {
    type V = CpuState;

    open spec fn view(&self) -> CpuState {
        CpuState {
            regs: self.regset,
            mem: match self.bus_conn {
                Some(b) => Some(b.mem@),
                None => None,
            },
            time: self.time,
            inter: self.inter,
            instr: self.i,
            fault: self.fault,
        }
    }
}

impl Cpu {
    /// The state of a fresh CPU with the given program counter and bus memory.
    pub open spec fn fresh(pc: u16, mem: Option<Seq<u8>>) -> CpuState {
        CpuState {
            regs: RegisterSet::initial(pc),
            mem,
            time: Timings { elapsed: 0, residual: 0 },
            inter: InterruptHandling { pending_nmi: false, pending_irq: false },
            instr: None,
            fault: None,
        }
    }

    /// A CPU with power-on registers, no bus attached.
    pub fn new() -> (r: Self)
        ensures
            r@ == Cpu::fresh(0, None),
    {
        Cpu {
            regset: RegisterSet::new(),
            time: Timings::new(),
            inter: InterruptHandling::new(),
            bus_conn: None,
            i: None,
            fault: None,
        }
    }

    /// A CPU with power-on registers on the given bus, if any.
    pub fn new_connected(bus_conn: Option<MainBus>) -> (r: Self)
        ensures
            r@ == Cpu::fresh(
                0,
                match bus_conn {
                    Some(b) => Some(b.mem@),
                    None => None,
                },
            ),
    {
        Cpu { bus_conn, ..Cpu::new() }
    }

    /// A CPU with power-on registers but the given program counter.
    pub fn new_custompc(custom_prog_counter: u16) -> (r: Self)
        ensures
            r@ == Cpu::fresh(custom_prog_counter, None),
    {
        Cpu { regset: RegisterSet::new_custompc(custom_prog_counter), ..Cpu::new() }
    }

    /// Attaches a bus; a CPU that has one keeps it.
    pub fn connect_to(&mut self, conn: MainBus)
        ensures
            final(self)@ == (if old(self).bus_conn.is_some() {
                old(self)@
            } else {
                CpuState { mem: Some(conn.mem@), ..old(self)@ }
            }),
    {
        if self.bus_conn.is_none() {
            self.bus_conn = Some(conn);
        }
    }

    pub fn is_attached(&self) -> (r: bool)
        ensures
            r == self@.mem.is_some(),
    {
        self.bus_conn.is_some()
    }

    pub fn pc(&self) -> (r: u16)
        ensures
            r == self@.regs.prog_counter,
    {
        self.regset.prog_counter
    }

    pub fn regset(&self) -> (r: RegisterSet)
        ensures
            r == self@.regs,
    {
        self.regset
    }

    pub fn time(&self) -> (r: Timings)
        ensures
            r == self@.time,
    {
        self.time
    }

    pub fn interrupt_handles(&self) -> (r: InterruptHandling)
        ensures
            r == self@.inter,
    {
        self.inter
    }

    pub fn i(&self) -> (r: Option<Instruction>)
        ensures
            r == self@.instr,
    {
        self.i
    }

    pub fn fault(&self) -> (r: Option<CpuError>)
        ensures
            r == self@.fault,
    {
        self.fault
    }

    /// Raises or lowers one interrupt line.
    pub fn set_pending(&mut self, kind: InterruptKind, value: bool)
        ensures
            final(self)@ == old(self)@.with_pending(kind, value),
    {
        match kind {
            InterruptKind::Nmi => self.inter.set_pending_nmi(value),
            InterruptKind::Irq => self.inter.set_pending_irq(value),
        }
    }

    /// The program counter before it moves on by one (wrapping).
    pub fn inc_pc(&mut self) -> (r: u16)
        ensures
            r == old(self)@.regs.prog_counter,
            final(self)@ == old(self)@.with_pc(wrap16(old(self)@.regs.prog_counter + 1)),
    {
        let old_pc = self.regset.prog_counter;
        self.regset.prog_counter = old_pc.wrapping_add(1);
        old_pc
    }

    /// Reads a byte from the bus; zero where there is no bus or no memory.
    pub fn read_byte(&self, address: u16) -> (r: u8)
        ensures
            r == self@.read(address),
    {
        match &self.bus_conn {
            Some(bus) => match bus.load(address) {
                Some(data) => data,
                None => 0,
            },
            None => 0,
        }
    }

    /// Writes a byte to the bus; dropped where there is no bus or no memory.
    pub fn writ_byte(&mut self, address: u16, data: u8)
        ensures
            final(self)@ == old(self)@.write(address, data),
    {
        match &mut self.bus_conn {
            Some(bus) => bus.store(address, data),
            None => {},
        }
    }

    /// Reads the little-endian word at `address` and the address after it.
    pub fn read_word(&self, address: u16) -> (r: u16)
        ensures
            r == self@.read_word(address),
    {
        let lo = self.read_byte(address);
        let hi = self.read_byte(address.wrapping_add(1));
        lo as u16 + 0x100 * hi as u16
    }

    /// The byte at the program counter, which then moves on by one.
    pub fn fetch(&mut self) -> (r: u8)
        ensures
            r == old(self)@.read(old(self)@.regs.prog_counter),
            final(self)@ == old(self)@.with_pc(wrap16(old(self)@.regs.prog_counter + 1)),
    {
        let pc = self.inc_pc();
        self.read_byte(pc)
    }

    /// Pushes a byte on the stack.
    pub fn stk_push(&mut self, data: u8)
        ensures
            final(self)@ == old(self)@.push(data),
    {
        let sp = self.regset.stk_ptr.wrapping_sub(1);
        self.regset.stk_ptr = sp;
        self.writ_byte(STACK_OFFSET + sp as u16, data);
    }

    /// Pops a byte off the stack.
    pub fn stk_pop(&mut self) -> (r: u8)
        ensures
            r == old(self)@.pop_value(),
            final(self)@ == old(self)@.popped(),
    {
        let data = self.read_byte(STACK_OFFSET + self.regset.stk_ptr as u16);
        self.regset.stk_ptr = self.regset.stk_ptr.wrapping_add(1);
        data
    }

    /// Pushes a word, high byte first.
    pub fn stk_doublepush(&mut self, data: u16)
        ensures
            final(self)@ == old(self)@.push_word(data),
    {
        self.stk_push((data / 0x100) as u8);
        self.stk_push((data % 0x100) as u8);
    }

    /// Pops a word, low byte first.
    pub fn stk_doublepop(&mut self) -> (r: u16)
        ensures
            r == old(self)@.pop_word_value(),
            final(self)@ == old(self)@.popped_word(),
    {
        let lo = self.stk_pop();
        let hi = self.stk_pop();
        lo as u16 + 0x100 * hi as u16
    }

    /// Services an interrupt unless the CPU has stopped on a fault, or it is
    /// an IRQ while interrupts are disabled; says whether it was serviced.
    /// An interrupt that is not serviced changes nothing.
    pub fn inthandle(&mut self, kind: InterruptKind) -> (r: bool)
        ensures
            r == old(self)@.accepts(kind),
            final(self)@ == if r { old(self)@.serviced(kind) } else { old(self)@ },
    {
        if self.fault.is_some() {
            return false;
        }
        if kind == InterruptKind::Irq && self.regset.irq_disabled() {
            return false;
        }
        let prog_counter = self.regset.prog_counter;
        self.stk_doublepush(prog_counter);
        self.regset.set_brk(false);
        self.regset.set_unused(true);
        let status = self.regset.status;
        self.stk_push(status);
        self.regset.set_irq_disabled(true);
        let (vector, cycles) = match kind {
            InterruptKind::Nmi => (NMI_VECTOR, NMI_CYCLES),
            InterruptKind::Irq => (IRQ_VECTOR, IRQ_CYCLES),
        };
        let new_pc = self.read_word(vector);
        self.regset.prog_counter = new_pc;
        self.time.residual = cycles;
        true
    }

    /// The state a reset leaves: status with only the unused flag, the
    /// program counter at `RESET_PC`, the reset cycles owed, no fault.
    pub open spec fn after_reset(s: CpuState) -> CpuState {
        CpuState {
            regs: RegisterSet { status: 0x20, ..RegisterSet::initial(RESET_PC) },
            time: Timings { elapsed: 0, residual: RESET_CYCLES },
            fault: None,
            ..s
        }
    }

    /// Puts the registers and timing back to their power-on values, with
    /// only the unused status flag set and the reset cycles to pay.
    pub fn reset(&mut self)
        ensures
            final(self)@ == Cpu::after_reset(old(self)@),
    {
        let mut regset = RegisterSet::new();
        regset.status = 0x00;
        regset.prog_counter = RESET_PC;
        regset.set_unused(true);
        proof {
            lemma_unused_of_zero();
        }
        self.regset = regset;
        self.time = Timings { residual: RESET_CYCLES, elapsed: 0 };
        self.fault = None;
    }
}

/// `mem` with `bytes` laid over it from address `begin` on.
pub open spec fn load_mem(mem: Seq<u8>, begin: int, bytes: Seq<u8>) -> Seq<u8> {
    Seq::new(mem.len(), |k: int| if begin <= k < begin + bytes.len() { bytes[k - begin] } else { mem[k] })
}

/// The bytes that the memory `mem` holds from `address` on, up to `len` of
/// them and up to the end of the address space; empty without memory.
pub open spec fn mem_run(mem: Option<Seq<u8>>, address: u16, len: u16) -> Seq<u8> {
    match mem {
        Some(m) => mapped_run(|a: u16| mem_peek(m, a), address as int, run_end(address, len)),
        None => Seq::empty(),
    }
}

impl Cpu {
    /// Reads up to `len` bytes from `address` on; empty without a bus.
    pub fn read_some(&self, address: u16, len: u16) -> (r: Vec<u8>)
        ensures
            r@ == mem_run(self@.mem, address, len),
    {
        match &self.bus_conn {
            Some(bus) => {
                let res = bus.read_seq(address, len);
                assert((|a: u16| bus.peek(a)) =~= (|a: u16| mem_peek(bus.mem@, a)));
                match res {
                    Some(bytes) => bytes,
                    None => {
                        assert(mem_run(self@.mem, address, len) =~= Seq::<u8>::empty());
                        Vec::new()
                    },
                }
            },
            None => Vec::new(),
        }
    }

    /// Stores the first `limit` bytes of `program` from address `begin` on
    /// and, if `start_it`, points the program counter at `begin`. Gives back
    /// the program counter from before; fails without a bus, or where the
    /// bytes are fewer than `limit` or run past the end of the address space.
    pub fn load_program(
        &mut self,
        program: &Vec<u8>,
        begin: u16,
        limit: usize,
        start_it: bool,
    ) -> (r: Result<u16, CpuError>)
        ensures
            old(self)@.mem.is_none() ==> r == Err::<u16, CpuError>(CpuError::BusInterfaceMissing),
            old(self)@.mem.is_some() && (limit > program.len() || begin + limit > 0x10000) ==> r
                == Err::<u16, CpuError>(CpuError::FailedLoadingProgram),
            r.is_err() ==> final(self)@ == old(self)@,
            old(self)@.mem.is_some() && limit <= program.len() && begin + limit <= 0x10000 ==> {
                &&& r == Ok::<u16, CpuError>(old(self)@.regs.prog_counter)
                &&& final(self)@ == CpuState {
                    mem: Some(load_mem(old(self)@.mem.unwrap(), begin as int, program@.take(limit as int))),
                    regs: if start_it {
                        RegisterSet { prog_counter: begin, ..old(self)@.regs }
                    } else {
                        old(self)@.regs
                    },
                    ..old(self)@
                }
            },
    {
        if self.bus_conn.is_none() {
            return Err(CpuError::BusInterfaceMissing);
        }
        if limit > program.len() || limit > 0x10000 || begin as usize > 0x10000 - limit {
            return Err(CpuError::FailedLoadingProgram);
        }
        let ghost m0 = self@.mem.unwrap();
        assert(load_mem(m0, begin as int, program@.take(0)) =~= m0);
        let mut k: usize = 0;
        while k < limit
            invariant
                k <= limit <= program.len(),
                begin + limit <= 0x10000,
                self@ == (CpuState { mem: Some(load_mem(m0, begin as int, program@.take(k as int))), ..old(self)@ }),
            decreases limit - k,
        {
            let ghost before = self@.mem.unwrap();
            self.writ_byte(begin + k as u16, program[k]);
            assert(mem_store(before, (begin + k) as u16, program@[k as int]) =~= load_mem(m0, begin as int, program@.take(k + 1)));
            k = k + 1;
        }
        let saved_pc = self.regset.prog_counter;
        if start_it {
            self.regset.prog_counter = begin;
        }
        Ok(saved_pc)
    }
}

impl Default for Cpu {
    /// A CPU with power-on registers on a fresh `MainBus`.
    fn default() -> (r: Self)
        ensures
            r@ == Cpu::fresh(0, Some(Seq::new(crate::bus::RAM_SIZE as nat, |i: int| 0u8))),
    {
        Cpu::new_connected(Some(MainBus::new()))
    }
}

proof fn lemma_unused_of_zero()
    ensures
        crate::registers::with_bit(0, UNUSED, true) == 0x20,
{
    assert(0u8 | (1u8 << 5u8) == 0x20u8) by (bit_vector);
}

} // verus!
