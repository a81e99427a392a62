use vstd::prelude::*;
use crate::cpu::{word, wrap16, wrap8, Cpu, CpuError, CpuState};
use crate::instruction::{AddressingMode, AddressingOutput};

verus! {

/// A memory operand: the byte at `address`, and the address.
pub open spec fn fetched_at(s: CpuState, address: u16) -> AddressingOutput {
    AddressingOutput::Fetched { value: s.read(address), address }
}

/// Whether two addresses lie on different 256-byte pages.
pub open spec fn crosses_page(a: u16, b: u16) -> bool {
    a / 0x100 != b / 0x100
}

/// The address of the high byte of an indirect jump's pointer: the next
/// address, except that a pointer at the last byte of a page takes its high
/// byte from the start of that same page.
pub open spec fn indirect_high(ptr: u16) -> u16 {
    if ptr % 0x100 == 0xff {
        (ptr - 0xff) as u16
    } else {
        (ptr + 1) as u16
    }
}

/// The signed value of a branch displacement byte.
pub open spec fn displacement(offset: u8) -> int {
    if offset < 0x80 {
        offset as int
    } else {
        offset - 0x100
    }
}

/// The outcome of resolving `amode` with operand `operand`, and whether
/// indexing crossed a page, in state `s` (whose program counter is already
/// past the instruction).
pub open spec fn resolve(s: CpuState, amode: AddressingMode, operand: u16) -> (AddressingOutput, bool) {
    let r = s.regs;
    let zp = operand % 0x100;
    match amode {
        AddressingMode::Imp => (AddressingOutput::ValueOnly(r.accumulator), false),
        AddressingMode::Imm => (AddressingOutput::ValueOnly(zp as u8), false),
        AddressingMode::Zp0 => (fetched_at(s, zp as u16), false),
        AddressingMode::Zpx => (fetched_at(s, wrap8(zp + r.x_index) as u16), false),
        AddressingMode::Zpy => (fetched_at(s, wrap8(zp + r.y_index) as u16), false),
        AddressingMode::Abs => (fetched_at(s, operand), false),
        AddressingMode::Abx => {
            let a = wrap16(operand + r.x_index);
            (fetched_at(s, a), crosses_page(a, operand))
        },
        AddressingMode::Aby => {
            let a = wrap16(operand + r.y_index);
            (fetched_at(s, a), crosses_page(a, operand))
        },
        AddressingMode::Ind => (
            AddressingOutput::AbsoluteAddress(word(s.read(operand), s.read(indirect_high(operand)))),
            false,
        ),
        AddressingMode::Inx => {
            let p = wrap8(zp + r.x_index);
            (fetched_at(s, word(s.read(p as u16), s.read(wrap8(p + 1) as u16))), false)
        },
        AddressingMode::Iny => {
            let base = word(s.read(zp as u16), s.read(wrap8(zp + 1) as u16));
            let a = wrap16(base + r.y_index);
            (fetched_at(s, a), crosses_page(a, base))
        },
        AddressingMode::Rel => (
            AddressingOutput::AbsoluteAddress(wrap16(r.prog_counter + displacement(zp as u8))),
            false,
        ),
    }
}

impl Cpu {
    fn fetched(&self, address: u16) -> (r: AddressingOutput)
        ensures
            r == fetched_at(self@, address),
    {
        AddressingOutput::Fetched { value: self.read_byte(address), address }
    }

    /// Implied: the accumulator is the operand.
    pub fn amode_imp(&self) -> (r: (AddressingOutput, bool))
        ensures
            r == resolve(self@, AddressingMode::Imp, 0),
    {
        (AddressingOutput::ValueOnly(self.regset.accumulator), false)
    }

    /// Immediate: the operand byte itself.
    pub fn amode_imm(&self, operand: u16) -> (r: (AddressingOutput, bool))
        ensures
            r == resolve(self@, AddressingMode::Imm, operand),
    {
        (AddressingOutput::ValueOnly((operand % 0x100) as u8), false)
    }

    /// Zero page.
    pub fn amode_zp0(&self, operand: u16) -> (r: (AddressingOutput, bool))
        ensures
            r == resolve(self@, AddressingMode::Zp0, operand),
    {
        (self.fetched(operand % 0x100), false)
    }

    /// Zero page indexed by X, wrapping within page zero.
    pub fn amode_zpx(&self, operand: u16) -> (r: (AddressingOutput, bool))
        ensures
            r == resolve(self@, AddressingMode::Zpx, operand),
    {
        let a = ((operand % 0x100) as u8).wrapping_add(self.regset.x_index);
        (self.fetched(a as u16), false)
    }

    /// Zero page indexed by Y, wrapping within page zero.
    pub fn amode_zpy(&self, operand: u16) -> (r: (AddressingOutput, bool))
        ensures
            r == resolve(self@, AddressingMode::Zpy, operand),
    {
        let a = ((operand % 0x100) as u8).wrapping_add(self.regset.y_index);
        (self.fetched(a as u16), false)
    }

    /// Absolute.
    pub fn amode_abs(&self, operand: u16) -> (r: (AddressingOutput, bool))
        ensures
            r == resolve(self@, AddressingMode::Abs, operand),
    {
        (self.fetched(operand), false)
    }

    /// Absolute indexed by X; reports a page crossing.
    pub fn amode_abx(&self, operand: u16) -> (r: (AddressingOutput, bool))
        ensures
            r == resolve(self@, AddressingMode::Abx, operand),
    {
        let a = operand.wrapping_add(self.regset.x_index as u16);
        (self.fetched(a), a / 0x100 != operand / 0x100)
    }

    /// Absolute indexed by Y; reports a page crossing.
    pub fn amode_aby(&self, operand: u16) -> (r: (AddressingOutput, bool))
        ensures
            r == resolve(self@, AddressingMode::Aby, operand),
    {
        let a = operand.wrapping_add(self.regset.y_index as u16);
        (self.fetched(a), a / 0x100 != operand / 0x100)
    }

    /// Indirect, with the page-wrap of a pointer at the end of a page.
    pub fn amode_ind(&self, operand: u16) -> (r: (AddressingOutput, bool))
        ensures
            r == resolve(self@, AddressingMode::Ind, operand),
    {
        let hi_address = if operand % 0x100 == 0xff {
            operand - 0xff
        } else {
            operand + 1
        };
        let lo = self.read_byte(operand);
        let hi = self.read_byte(hi_address);
        (AddressingOutput::AbsoluteAddress(lo as u16 + 0x100 * hi as u16), false)
    }

    /// Indexed indirect: the zero-page pointer is offset by X first.
    pub fn amode_inx(&self, operand: u16) -> (r: (AddressingOutput, bool))
        ensures
            r == resolve(self@, AddressingMode::Inx, operand),
    {
        let p = ((operand % 0x100) as u8).wrapping_add(self.regset.x_index);
        let lo = self.read_byte(p as u16);
        let hi = self.read_byte(p.wrapping_add(1) as u16);
        (self.fetched(lo as u16 + 0x100 * hi as u16), false)
    }

    /// Indirect indexed: the address read through the zero-page pointer is
    /// offset by Y; reports a page crossing.
    pub fn amode_iny(&self, operand: u16) -> (r: (AddressingOutput, bool))
        ensures
            r == resolve(self@, AddressingMode::Iny, operand),
    {
        let p = (operand % 0x100) as u8;
        let lo = self.read_byte(p as u16);
        let hi = self.read_byte(p.wrapping_add(1) as u16);
        let base = lo as u16 + 0x100 * hi as u16;
        let a = base.wrapping_add(self.regset.y_index as u16);
        (self.fetched(a), a / 0x100 != base / 0x100)
    }

    /// Relative: the branch target, from the program counter past the
    /// instruction and the signed displacement.
    pub fn amode_rel(&self, operand: u16) -> (r: (AddressingOutput, bool))
        ensures
            r == resolve(self@, AddressingMode::Rel, operand),
    {
        let offset = (operand % 0x100) as u8;
        let pc = self.regset.prog_counter;
        let target = if offset < 0x80 {
            pc.wrapping_add(offset as u16)
        } else {
            pc.wrapping_sub(0x100 - offset as u16)
        };
        (AddressingOutput::AbsoluteAddress(target), false)
    }

    /// Resolves `amode` with the loaded operand; fails where the mode needs
    /// operand bytes and none were loaded.
    pub fn resolve_mode(&self, amode: AddressingMode, operand: Option<u16>) -> (r: Result<(AddressingOutput, bool), CpuError>)
        ensures
            amode.operand_bytes() == 0 ==> r == Ok::<(AddressingOutput, bool), CpuError>(resolve(self@, amode, 0)),
            amode.operand_bytes() > 0 && operand.is_none() ==> r == Err::<(AddressingOutput, bool), CpuError>(CpuError::ExpectedOperandMissing),
            amode.operand_bytes() > 0 && operand.is_some() ==> r == Ok::<(AddressingOutput, bool), CpuError>(resolve(self@, amode, operand.unwrap())),
    {
        if let AddressingMode::Imp = amode {
            return Ok(self.amode_imp());
        }
        let operand = match operand {
            Some(v) => v,
            None => return Err(CpuError::ExpectedOperandMissing),
        };
        let r = match amode {
            AddressingMode::Imp => self.amode_imp(),
            AddressingMode::Imm => self.amode_imm(operand),
            AddressingMode::Zp0 => self.amode_zp0(operand),
            AddressingMode::Zpx => self.amode_zpx(operand),
            AddressingMode::Zpy => self.amode_zpy(operand),
            AddressingMode::Abs => self.amode_abs(operand),
            AddressingMode::Abx => self.amode_abx(operand),
            AddressingMode::Aby => self.amode_aby(operand),
            AddressingMode::Ind => self.amode_ind(operand),
            AddressingMode::Iny => self.amode_iny(operand),
            AddressingMode::Inx => self.amode_inx(operand),
            AddressingMode::Rel => self.amode_rel(operand),
        };
        Ok(r)
    }
}

} // verus!
