use vstd::prelude::*;
use vstd::string::StringExecFns;

verus! {

/// The twelve ways an instruction locates its operand.
#[derive(Debug, Copy, Clone, PartialEq, Eq, Structural)]
pub enum AddressingMode {
    Imp,
    Imm,
    Zp0,
    Zpx,
    Zpy,
    Abs,
    Abx,
    Aby,
    Ind,
    Iny,
    Inx,
    Rel,
}

impl AddressingMode {
    /// How many operand bytes follow the opcode in this mode.
    pub open spec fn operand_bytes(self) -> u16 {
        match self {
            AddressingMode::Imp => 0,
            AddressingMode::Imm | AddressingMode::Zp0 | AddressingMode::Zpx | AddressingMode::Zpy
            | AddressingMode::Inx | AddressingMode::Iny | AddressingMode::Rel => 1,
            AddressingMode::Abs | AddressingMode::Abx | AddressingMode::Aby | AddressingMode::Ind => 2,
        }
    }

    pub fn num_operand_bytes(&self) -> (r: u16)
        ensures
            r == self.operand_bytes(),
    {
        match self {
            AddressingMode::Imp => 0,
            AddressingMode::Imm | AddressingMode::Zp0 | AddressingMode::Zpx | AddressingMode::Zpy
            | AddressingMode::Inx | AddressingMode::Iny | AddressingMode::Rel => 1,
            AddressingMode::Abs | AddressingMode::Abx | AddressingMode::Aby | AddressingMode::Ind => 2,
        }
    }

    pub open spec fn spec_name(self) -> Seq<char> {
        match self {
            AddressingMode::Imp => "Imp"@,
            AddressingMode::Imm => "Imm"@,
            AddressingMode::Zp0 => "Zp0"@,
            AddressingMode::Zpx => "Zpx"@,
            AddressingMode::Zpy => "Zpy"@,
            AddressingMode::Abs => "Abs"@,
            AddressingMode::Abx => "Abx"@,
            AddressingMode::Aby => "Aby"@,
            AddressingMode::Ind => "Ind"@,
            AddressingMode::Iny => "Iny"@,
            AddressingMode::Inx => "Inx"@,
            AddressingMode::Rel => "Rel"@,
        }
    }

    /// The mode's short name, as a listing shows it.
    pub fn name(&self) -> (r: &'static str)
        ensures
            r@ == self.spec_name(),
    {
        match self {
            AddressingMode::Imp => "Imp",
            AddressingMode::Imm => "Imm",
            AddressingMode::Zp0 => "Zp0",
            AddressingMode::Zpx => "Zpx",
            AddressingMode::Zpy => "Zpy",
            AddressingMode::Abs => "Abs",
            AddressingMode::Abx => "Abx",
            AddressingMode::Aby => "Aby",
            AddressingMode::Ind => "Ind",
            AddressingMode::Iny => "Iny",
            AddressingMode::Inx => "Inx",
            AddressingMode::Rel => "Rel",
        }
    }
}

/// The documented operations of the 6502, one per mnemonic.
#[derive(Debug, Copy, Clone, PartialEq, Eq, Structural)]
pub enum Operation {
    Adc,
    And,
    Asl,
    Bcc,
    Bcs,
    Beq,
    Bit,
    Bmi,
    Bne,
    Bpl,
    Brk,
    Bvc,
    Bvs,
    Clc,
    Cld,
    Cli,
    Clv,
    Cmp,
    Cpx,
    Cpy,
    Dec,
    Dex,
    Dey,
    Eor,
    Inc,
    Inx,
    Iny,
    Jmp,
    Jsr,
    Lda,
    Ldx,
    Ldy,
    Lsr,
    Nop,
    Ora,
    Pha,
    Php,
    Pla,
    Plp,
    Rol,
    Ror,
    Rti,
    Rts,
    Sbc,
    Sec,
    Sed,
    Sei,
    Sta,
    Stx,
    Sty,
    Tax,
    Tay,
    Tsx,
    Txa,
    Txs,
    Tya,
}

impl Operation {
    pub open spec fn spec_name(self) -> Seq<char> {
        match self {
            Operation::Adc => "adc"@,
            Operation::And => "and"@,
            Operation::Asl => "asl"@,
            Operation::Bcc => "bcc"@,
            Operation::Bcs => "bcs"@,
            Operation::Beq => "beq"@,
            Operation::Bit => "bit"@,
            Operation::Bmi => "bmi"@,
            Operation::Bne => "bne"@,
            Operation::Bpl => "bpl"@,
            Operation::Brk => "brk"@,
            Operation::Bvc => "bvc"@,
            Operation::Bvs => "bvs"@,
            Operation::Clc => "clc"@,
            Operation::Cld => "cld"@,
            Operation::Cli => "cli"@,
            Operation::Clv => "clv"@,
            Operation::Cmp => "cmp"@,
            Operation::Cpx => "cpx"@,
            Operation::Cpy => "cpy"@,
            Operation::Dec => "dec"@,
            Operation::Dex => "dex"@,
            Operation::Dey => "dey"@,
            Operation::Eor => "eor"@,
            Operation::Inc => "inc"@,
            Operation::Inx => "inx"@,
            Operation::Iny => "iny"@,
            Operation::Jmp => "jmp"@,
            Operation::Jsr => "jsr"@,
            Operation::Lda => "lda"@,
            Operation::Ldx => "ldx"@,
            Operation::Ldy => "ldy"@,
            Operation::Lsr => "lsr"@,
            Operation::Nop => "nop"@,
            Operation::Ora => "ora"@,
            Operation::Pha => "pha"@,
            Operation::Php => "php"@,
            Operation::Pla => "pla"@,
            Operation::Plp => "plp"@,
            Operation::Rol => "rol"@,
            Operation::Ror => "ror"@,
            Operation::Rti => "rti"@,
            Operation::Rts => "rts"@,
            Operation::Sbc => "sbc"@,
            Operation::Sec => "sec"@,
            Operation::Sed => "sed"@,
            Operation::Sei => "sei"@,
            Operation::Sta => "sta"@,
            Operation::Stx => "stx"@,
            Operation::Sty => "sty"@,
            Operation::Tax => "tax"@,
            Operation::Tay => "tay"@,
            Operation::Tsx => "tsx"@,
            Operation::Txa => "txa"@,
            Operation::Txs => "txs"@,
            Operation::Tya => "tya"@,
        }
    }

    /// The lower-case mnemonic.
    pub fn name(&self) -> (r: &'static str)
        ensures
            r@ == self.spec_name(),
    {
        match self {
            Operation::Adc => "adc",
            Operation::And => "and",
            Operation::Asl => "asl",
            Operation::Bcc => "bcc",
            Operation::Bcs => "bcs",
            Operation::Beq => "beq",
            Operation::Bit => "bit",
            Operation::Bmi => "bmi",
            Operation::Bne => "bne",
            Operation::Bpl => "bpl",
            Operation::Brk => "brk",
            Operation::Bvc => "bvc",
            Operation::Bvs => "bvs",
            Operation::Clc => "clc",
            Operation::Cld => "cld",
            Operation::Cli => "cli",
            Operation::Clv => "clv",
            Operation::Cmp => "cmp",
            Operation::Cpx => "cpx",
            Operation::Cpy => "cpy",
            Operation::Dec => "dec",
            Operation::Dex => "dex",
            Operation::Dey => "dey",
            Operation::Eor => "eor",
            Operation::Inc => "inc",
            Operation::Inx => "inx",
            Operation::Iny => "iny",
            Operation::Jmp => "jmp",
            Operation::Jsr => "jsr",
            Operation::Lda => "lda",
            Operation::Ldx => "ldx",
            Operation::Ldy => "ldy",
            Operation::Lsr => "lsr",
            Operation::Nop => "nop",
            Operation::Ora => "ora",
            Operation::Pha => "pha",
            Operation::Php => "php",
            Operation::Pla => "pla",
            Operation::Plp => "plp",
            Operation::Rol => "rol",
            Operation::Ror => "ror",
            Operation::Rti => "rti",
            Operation::Rts => "rts",
            Operation::Sbc => "sbc",
            Operation::Sec => "sec",
            Operation::Sed => "sed",
            Operation::Sei => "sei",
            Operation::Sta => "sta",
            Operation::Stx => "stx",
            Operation::Sty => "sty",
            Operation::Tax => "tax",
            Operation::Tay => "tay",
            Operation::Tsx => "tsx",
            Operation::Txa => "txa",
            Operation::Txs => "txs",
            Operation::Tya => "tya",
        }
    }

    /// The operations that read their operand and pay one more cycle when
    /// indexing crosses a page.
    pub open spec fn pays_page_penalty(self) -> bool {
        match self {
            Operation::Lda | Operation::Ldx | Operation::Ldy | Operation::And | Operation::Eor
            | Operation::Ora | Operation::Adc | Operation::Sbc | Operation::Cmp => true,
            _ => false,
        }
    }

    pub fn page_penalty(&self) -> (r: bool)
        ensures
            r == self.pays_page_penalty(),
    {
        match self {
            Operation::Lda | Operation::Ldx | Operation::Ldy | Operation::And | Operation::Eor
            | Operation::Ora | Operation::Adc | Operation::Sbc | Operation::Cmp => true,
            _ => false,
        }
    }
}

/// What resolving an addressing mode yields.
#[derive(Debug, Copy, Clone, PartialEq, Eq, Structural)]
pub enum AddressingOutput {
    /// A byte read from memory, with the address it came from.
    Fetched { value: u8, address: u16 },
    /// A byte that lives in no memory cell (an immediate, the accumulator).
    ValueOnly(u8),
    /// A target address (of a jump or a branch).
    AbsoluteAddress(u16),
    /// Not resolved yet.
    NotExecuted,
}

/// One row of the decode table.
#[derive(Debug, Copy, Clone, PartialEq, Eq, Structural)]
pub struct OpcodeEntry {
    pub op: Operation,
    pub amode: AddressingMode,
    pub cycles: u8,
}

/// The decode table of the documented opcodes; the others have no entry.
pub open spec fn opcode_entry(opcode: u8) -> Option<OpcodeEntry> {
    match opcode {
        0x00 => Some(OpcodeEntry { op: Operation::Brk, amode: AddressingMode::Imp, cycles: 7 }),
        0x01 => Some(OpcodeEntry { op: Operation::Ora, amode: AddressingMode::Inx, cycles: 6 }),
        0x05 => Some(OpcodeEntry { op: Operation::Ora, amode: AddressingMode::Zp0, cycles: 3 }),
        0x06 => Some(OpcodeEntry { op: Operation::Asl, amode: AddressingMode::Zp0, cycles: 5 }),
        0x08 => Some(OpcodeEntry { op: Operation::Php, amode: AddressingMode::Imp, cycles: 3 }),
        0x09 => Some(OpcodeEntry { op: Operation::Ora, amode: AddressingMode::Imm, cycles: 2 }),
        0x0A => Some(OpcodeEntry { op: Operation::Asl, amode: AddressingMode::Imp, cycles: 2 }),
        0x0D => Some(OpcodeEntry { op: Operation::Ora, amode: AddressingMode::Abs, cycles: 4 }),
        0x0E => Some(OpcodeEntry { op: Operation::Asl, amode: AddressingMode::Abs, cycles: 6 }),
        0x10 => Some(OpcodeEntry { op: Operation::Bpl, amode: AddressingMode::Rel, cycles: 2 }),
        0x11 => Some(OpcodeEntry { op: Operation::Ora, amode: AddressingMode::Iny, cycles: 5 }),
        0x15 => Some(OpcodeEntry { op: Operation::Ora, amode: AddressingMode::Zpx, cycles: 4 }),
        0x16 => Some(OpcodeEntry { op: Operation::Asl, amode: AddressingMode::Zpx, cycles: 6 }),
        0x18 => Some(OpcodeEntry { op: Operation::Clc, amode: AddressingMode::Imp, cycles: 2 }),
        0x19 => Some(OpcodeEntry { op: Operation::Ora, amode: AddressingMode::Aby, cycles: 4 }),
        0x1D => Some(OpcodeEntry { op: Operation::Ora, amode: AddressingMode::Abx, cycles: 4 }),
        0x1E => Some(OpcodeEntry { op: Operation::Asl, amode: AddressingMode::Abx, cycles: 7 }),
        0x20 => Some(OpcodeEntry { op: Operation::Jsr, amode: AddressingMode::Abs, cycles: 6 }),
        0x21 => Some(OpcodeEntry { op: Operation::And, amode: AddressingMode::Inx, cycles: 6 }),
        0x24 => Some(OpcodeEntry { op: Operation::Bit, amode: AddressingMode::Zp0, cycles: 3 }),
        0x25 => Some(OpcodeEntry { op: Operation::And, amode: AddressingMode::Zp0, cycles: 3 }),
        0x26 => Some(OpcodeEntry { op: Operation::Rol, amode: AddressingMode::Zp0, cycles: 5 }),
        0x28 => Some(OpcodeEntry { op: Operation::Plp, amode: AddressingMode::Imp, cycles: 4 }),
        0x29 => Some(OpcodeEntry { op: Operation::And, amode: AddressingMode::Imm, cycles: 2 }),
        0x2A => Some(OpcodeEntry { op: Operation::Rol, amode: AddressingMode::Imp, cycles: 2 }),
        0x2C => Some(OpcodeEntry { op: Operation::Bit, amode: AddressingMode::Abs, cycles: 4 }),
        0x2D => Some(OpcodeEntry { op: Operation::And, amode: AddressingMode::Abs, cycles: 4 }),
        0x2E => Some(OpcodeEntry { op: Operation::Rol, amode: AddressingMode::Abs, cycles: 6 }),
        0x30 => Some(OpcodeEntry { op: Operation::Bmi, amode: AddressingMode::Rel, cycles: 2 }),
        0x31 => Some(OpcodeEntry { op: Operation::And, amode: AddressingMode::Iny, cycles: 5 }),
        0x35 => Some(OpcodeEntry { op: Operation::And, amode: AddressingMode::Zpx, cycles: 4 }),
        0x36 => Some(OpcodeEntry { op: Operation::Rol, amode: AddressingMode::Zpx, cycles: 6 }),
        0x38 => Some(OpcodeEntry { op: Operation::Sec, amode: AddressingMode::Imp, cycles: 2 }),
        0x39 => Some(OpcodeEntry { op: Operation::And, amode: AddressingMode::Aby, cycles: 4 }),
        0x3D => Some(OpcodeEntry { op: Operation::And, amode: AddressingMode::Abx, cycles: 4 }),
        0x3E => Some(OpcodeEntry { op: Operation::Rol, amode: AddressingMode::Abx, cycles: 7 }),
        0x40 => Some(OpcodeEntry { op: Operation::Rti, amode: AddressingMode::Imp, cycles: 6 }),
        0x41 => Some(OpcodeEntry { op: Operation::Eor, amode: AddressingMode::Inx, cycles: 6 }),
        0x45 => Some(OpcodeEntry { op: Operation::Eor, amode: AddressingMode::Zp0, cycles: 3 }),
        0x46 => Some(OpcodeEntry { op: Operation::Lsr, amode: AddressingMode::Zp0, cycles: 5 }),
        0x48 => Some(OpcodeEntry { op: Operation::Pha, amode: AddressingMode::Imp, cycles: 3 }),
        0x49 => Some(OpcodeEntry { op: Operation::Eor, amode: AddressingMode::Imm, cycles: 2 }),
        0x4A => Some(OpcodeEntry { op: Operation::Lsr, amode: AddressingMode::Imp, cycles: 2 }),
        0x4C => Some(OpcodeEntry { op: Operation::Jmp, amode: AddressingMode::Abs, cycles: 3 }),
        0x4D => Some(OpcodeEntry { op: Operation::Eor, amode: AddressingMode::Abs, cycles: 4 }),
        0x4E => Some(OpcodeEntry { op: Operation::Lsr, amode: AddressingMode::Abs, cycles: 6 }),
        0x50 => Some(OpcodeEntry { op: Operation::Bvc, amode: AddressingMode::Rel, cycles: 2 }),
        0x51 => Some(OpcodeEntry { op: Operation::Eor, amode: AddressingMode::Iny, cycles: 5 }),
        0x55 => Some(OpcodeEntry { op: Operation::Eor, amode: AddressingMode::Zpx, cycles: 4 }),
        0x56 => Some(OpcodeEntry { op: Operation::Lsr, amode: AddressingMode::Zpx, cycles: 6 }),
        0x58 => Some(OpcodeEntry { op: Operation::Cli, amode: AddressingMode::Imp, cycles: 2 }),
        0x59 => Some(OpcodeEntry { op: Operation::Eor, amode: AddressingMode::Aby, cycles: 4 }),
        0x5D => Some(OpcodeEntry { op: Operation::Eor, amode: AddressingMode::Abx, cycles: 4 }),
        0x5E => Some(OpcodeEntry { op: Operation::Lsr, amode: AddressingMode::Abx, cycles: 7 }),
        0x60 => Some(OpcodeEntry { op: Operation::Rts, amode: AddressingMode::Imp, cycles: 6 }),
        0x61 => Some(OpcodeEntry { op: Operation::Adc, amode: AddressingMode::Inx, cycles: 6 }),
        0x65 => Some(OpcodeEntry { op: Operation::Adc, amode: AddressingMode::Zp0, cycles: 3 }),
        0x66 => Some(OpcodeEntry { op: Operation::Ror, amode: AddressingMode::Zp0, cycles: 5 }),
        0x68 => Some(OpcodeEntry { op: Operation::Pla, amode: AddressingMode::Imp, cycles: 4 }),
        0x69 => Some(OpcodeEntry { op: Operation::Adc, amode: AddressingMode::Imm, cycles: 2 }),
        0x6A => Some(OpcodeEntry { op: Operation::Ror, amode: AddressingMode::Imp, cycles: 2 }),
        0x6C => Some(OpcodeEntry { op: Operation::Jmp, amode: AddressingMode::Ind, cycles: 5 }),
        0x6D => Some(OpcodeEntry { op: Operation::Adc, amode: AddressingMode::Abs, cycles: 4 }),
        0x6E => Some(OpcodeEntry { op: Operation::Ror, amode: AddressingMode::Abs, cycles: 6 }),
        0x70 => Some(OpcodeEntry { op: Operation::Bvs, amode: AddressingMode::Rel, cycles: 2 }),
        0x71 => Some(OpcodeEntry { op: Operation::Adc, amode: AddressingMode::Iny, cycles: 5 }),
        0x75 => Some(OpcodeEntry { op: Operation::Adc, amode: AddressingMode::Zpx, cycles: 4 }),
        0x76 => Some(OpcodeEntry { op: Operation::Ror, amode: AddressingMode::Zpx, cycles: 6 }),
        0x78 => Some(OpcodeEntry { op: Operation::Sei, amode: AddressingMode::Imp, cycles: 2 }),
        0x79 => Some(OpcodeEntry { op: Operation::Adc, amode: AddressingMode::Aby, cycles: 4 }),
        0x7D => Some(OpcodeEntry { op: Operation::Adc, amode: AddressingMode::Abx, cycles: 4 }),
        0x7E => Some(OpcodeEntry { op: Operation::Ror, amode: AddressingMode::Abx, cycles: 7 }),
        0x81 => Some(OpcodeEntry { op: Operation::Sta, amode: AddressingMode::Inx, cycles: 6 }),
        0x84 => Some(OpcodeEntry { op: Operation::Sty, amode: AddressingMode::Zp0, cycles: 3 }),
        0x85 => Some(OpcodeEntry { op: Operation::Sta, amode: AddressingMode::Zp0, cycles: 3 }),
        0x86 => Some(OpcodeEntry { op: Operation::Stx, amode: AddressingMode::Zp0, cycles: 3 }),
        0x88 => Some(OpcodeEntry { op: Operation::Dey, amode: AddressingMode::Imp, cycles: 2 }),
        0x8A => Some(OpcodeEntry { op: Operation::Txa, amode: AddressingMode::Imp, cycles: 2 }),
        0x8C => Some(OpcodeEntry { op: Operation::Sty, amode: AddressingMode::Abs, cycles: 4 }),
        0x8D => Some(OpcodeEntry { op: Operation::Sta, amode: AddressingMode::Abs, cycles: 4 }),
        0x8E => Some(OpcodeEntry { op: Operation::Stx, amode: AddressingMode::Abs, cycles: 4 }),
        0x90 => Some(OpcodeEntry { op: Operation::Bcc, amode: AddressingMode::Rel, cycles: 2 }),
        0x91 => Some(OpcodeEntry { op: Operation::Sta, amode: AddressingMode::Iny, cycles: 6 }),
        0x94 => Some(OpcodeEntry { op: Operation::Sty, amode: AddressingMode::Zpx, cycles: 4 }),
        0x95 => Some(OpcodeEntry { op: Operation::Sta, amode: AddressingMode::Zpx, cycles: 4 }),
        0x96 => Some(OpcodeEntry { op: Operation::Stx, amode: AddressingMode::Zpy, cycles: 4 }),
        0x98 => Some(OpcodeEntry { op: Operation::Tya, amode: AddressingMode::Imp, cycles: 2 }),
        0x99 => Some(OpcodeEntry { op: Operation::Sta, amode: AddressingMode::Aby, cycles: 5 }),
        0x9A => Some(OpcodeEntry { op: Operation::Txs, amode: AddressingMode::Imp, cycles: 2 }),
        0x9D => Some(OpcodeEntry { op: Operation::Sta, amode: AddressingMode::Abx, cycles: 5 }),
        0xA0 => Some(OpcodeEntry { op: Operation::Ldy, amode: AddressingMode::Imm, cycles: 2 }),
        0xA1 => Some(OpcodeEntry { op: Operation::Lda, amode: AddressingMode::Inx, cycles: 6 }),
        0xA2 => Some(OpcodeEntry { op: Operation::Ldx, amode: AddressingMode::Imm, cycles: 2 }),
        0xA4 => Some(OpcodeEntry { op: Operation::Ldy, amode: AddressingMode::Zp0, cycles: 3 }),
        0xA5 => Some(OpcodeEntry { op: Operation::Lda, amode: AddressingMode::Zp0, cycles: 3 }),
        0xA6 => Some(OpcodeEntry { op: Operation::Ldx, amode: AddressingMode::Zp0, cycles: 3 }),
        0xA8 => Some(OpcodeEntry { op: Operation::Tay, amode: AddressingMode::Imp, cycles: 2 }),
        0xA9 => Some(OpcodeEntry { op: Operation::Lda, amode: AddressingMode::Imm, cycles: 2 }),
        0xAA => Some(OpcodeEntry { op: Operation::Tax, amode: AddressingMode::Imp, cycles: 2 }),
        0xAC => Some(OpcodeEntry { op: Operation::Ldy, amode: AddressingMode::Abs, cycles: 4 }),
        0xAD => Some(OpcodeEntry { op: Operation::Lda, amode: AddressingMode::Abs, cycles: 4 }),
        0xAE => Some(OpcodeEntry { op: Operation::Ldx, amode: AddressingMode::Abs, cycles: 4 }),
        0xB0 => Some(OpcodeEntry { op: Operation::Bcs, amode: AddressingMode::Rel, cycles: 2 }),
        0xB1 => Some(OpcodeEntry { op: Operation::Lda, amode: AddressingMode::Iny, cycles: 5 }),
        0xB4 => Some(OpcodeEntry { op: Operation::Ldy, amode: AddressingMode::Zpx, cycles: 4 }),
        0xB5 => Some(OpcodeEntry { op: Operation::Lda, amode: AddressingMode::Zpx, cycles: 4 }),
        0xB6 => Some(OpcodeEntry { op: Operation::Ldx, amode: AddressingMode::Zpy, cycles: 4 }),
        0xB8 => Some(OpcodeEntry { op: Operation::Clv, amode: AddressingMode::Imp, cycles: 2 }),
        0xB9 => Some(OpcodeEntry { op: Operation::Lda, amode: AddressingMode::Aby, cycles: 4 }),
        0xBA => Some(OpcodeEntry { op: Operation::Tsx, amode: AddressingMode::Imp, cycles: 2 }),
        0xBC => Some(OpcodeEntry { op: Operation::Ldy, amode: AddressingMode::Abx, cycles: 4 }),
        0xBD => Some(OpcodeEntry { op: Operation::Lda, amode: AddressingMode::Abx, cycles: 4 }),
        0xBE => Some(OpcodeEntry { op: Operation::Ldx, amode: AddressingMode::Aby, cycles: 4 }),
        0xC0 => Some(OpcodeEntry { op: Operation::Cpy, amode: AddressingMode::Imm, cycles: 2 }),
        0xC1 => Some(OpcodeEntry { op: Operation::Cmp, amode: AddressingMode::Inx, cycles: 6 }),
        0xC4 => Some(OpcodeEntry { op: Operation::Cpy, amode: AddressingMode::Zp0, cycles: 3 }),
        0xC5 => Some(OpcodeEntry { op: Operation::Cmp, amode: AddressingMode::Zp0, cycles: 3 }),
        0xC6 => Some(OpcodeEntry { op: Operation::Dec, amode: AddressingMode::Zp0, cycles: 5 }),
        0xC8 => Some(OpcodeEntry { op: Operation::Iny, amode: AddressingMode::Imp, cycles: 2 }),
        0xC9 => Some(OpcodeEntry { op: Operation::Cmp, amode: AddressingMode::Imm, cycles: 2 }),
        0xCA => Some(OpcodeEntry { op: Operation::Dex, amode: AddressingMode::Imp, cycles: 2 }),
        0xCC => Some(OpcodeEntry { op: Operation::Cpy, amode: AddressingMode::Abs, cycles: 4 }),
        0xCD => Some(OpcodeEntry { op: Operation::Cmp, amode: AddressingMode::Abs, cycles: 4 }),
        0xCE => Some(OpcodeEntry { op: Operation::Dec, amode: AddressingMode::Abs, cycles: 6 }),
        0xD0 => Some(OpcodeEntry { op: Operation::Bne, amode: AddressingMode::Rel, cycles: 2 }),
        0xD1 => Some(OpcodeEntry { op: Operation::Cmp, amode: AddressingMode::Iny, cycles: 5 }),
        0xD5 => Some(OpcodeEntry { op: Operation::Cmp, amode: AddressingMode::Zpx, cycles: 4 }),
        0xD6 => Some(OpcodeEntry { op: Operation::Dec, amode: AddressingMode::Zpx, cycles: 6 }),
        0xD8 => Some(OpcodeEntry { op: Operation::Cld, amode: AddressingMode::Imp, cycles: 2 }),
        0xD9 => Some(OpcodeEntry { op: Operation::Cmp, amode: AddressingMode::Aby, cycles: 4 }),
        0xDD => Some(OpcodeEntry { op: Operation::Cmp, amode: AddressingMode::Abx, cycles: 4 }),
        0xDE => Some(OpcodeEntry { op: Operation::Dec, amode: AddressingMode::Abx, cycles: 7 }),
        0xE0 => Some(OpcodeEntry { op: Operation::Cpx, amode: AddressingMode::Imm, cycles: 2 }),
        0xE1 => Some(OpcodeEntry { op: Operation::Sbc, amode: AddressingMode::Inx, cycles: 6 }),
        0xE4 => Some(OpcodeEntry { op: Operation::Cpx, amode: AddressingMode::Zp0, cycles: 3 }),
        0xE5 => Some(OpcodeEntry { op: Operation::Sbc, amode: AddressingMode::Zp0, cycles: 3 }),
        0xE6 => Some(OpcodeEntry { op: Operation::Inc, amode: AddressingMode::Zp0, cycles: 5 }),
        0xE8 => Some(OpcodeEntry { op: Operation::Inx, amode: AddressingMode::Imp, cycles: 2 }),
        0xE9 => Some(OpcodeEntry { op: Operation::Sbc, amode: AddressingMode::Imm, cycles: 2 }),
        0xEA => Some(OpcodeEntry { op: Operation::Nop, amode: AddressingMode::Imp, cycles: 2 }),
        0xEC => Some(OpcodeEntry { op: Operation::Cpx, amode: AddressingMode::Abs, cycles: 4 }),
        0xED => Some(OpcodeEntry { op: Operation::Sbc, amode: AddressingMode::Abs, cycles: 4 }),
        0xEE => Some(OpcodeEntry { op: Operation::Inc, amode: AddressingMode::Abs, cycles: 6 }),
        0xF0 => Some(OpcodeEntry { op: Operation::Beq, amode: AddressingMode::Rel, cycles: 2 }),
        0xF1 => Some(OpcodeEntry { op: Operation::Sbc, amode: AddressingMode::Iny, cycles: 5 }),
        0xF5 => Some(OpcodeEntry { op: Operation::Sbc, amode: AddressingMode::Zpx, cycles: 4 }),
        0xF6 => Some(OpcodeEntry { op: Operation::Inc, amode: AddressingMode::Zpx, cycles: 6 }),
        0xF8 => Some(OpcodeEntry { op: Operation::Sed, amode: AddressingMode::Imp, cycles: 2 }),
        0xF9 => Some(OpcodeEntry { op: Operation::Sbc, amode: AddressingMode::Aby, cycles: 4 }),
        0xFD => Some(OpcodeEntry { op: Operation::Sbc, amode: AddressingMode::Abx, cycles: 4 }),
        0xFE => Some(OpcodeEntry { op: Operation::Inc, amode: AddressingMode::Abx, cycles: 7 }),
        _ => None,
    }
}

/// An instruction: what the decode table gives for its opcode, and the
/// context filled in while it runs (its operand, where it was loaded from,
/// what its addressing resolved to).
#[derive(Debug, Copy, Clone, PartialEq, Eq, Structural)]
pub struct Instruction {
    pub amode: AddressingMode,
    pub op: Operation,
    pub time: u8,
    pub size: u16,
    pub operand: Option<u16>,
    pub amode_output: AddressingOutput,
    pub loaded_from: u16,
}

impl Instruction {
    /// The fresh instruction for a table row, before any operand is loaded.
    pub open spec fn template(e: OpcodeEntry) -> Instruction {
        Instruction {
            amode: e.amode,
            op: e.op,
            time: e.cycles,
            size: (1 + e.amode.operand_bytes()) as u16,
            operand: None,
            amode_output: AddressingOutput::NotExecuted,
            loaded_from: 0,
        }
    }

    /// What `decode_by` gives for an opcode.
    pub open spec fn decoded(opcode: u8) -> Option<Instruction> {
        match opcode_entry(opcode) {
            Some(e) => Some(Instruction::template(e)),
            None => None,
        }
    }

    /// Looks an opcode up in the decode table; `None` for an undocumented
    /// opcode.
    pub fn decode_by(opcode: u8) -> (r: Option<Instruction>)
        ensures
            r == Instruction::decoded(opcode),
    {
        match decode_entry(opcode) {
            Some(e) => {
                let size = 1 + e.amode.num_operand_bytes();
                Some(Instruction {
                    amode: e.amode,
                    op: e.op,
                    time: e.cycles,
                    size,
                    operand: None,
                    amode_output: AddressingOutput::NotExecuted,
                    loaded_from: 0,
                })
            },
            None => None,
        }
    }

    pub fn load_address(&self) -> (r: u16)
        ensures
            r == self.loaded_from,
    {
        self.loaded_from
    }

    pub fn amode(&self) -> (r: AddressingMode)
        ensures
            r == self.amode,
    {
        self.amode
    }

    pub fn amode_output(&self) -> (r: AddressingOutput)
        ensures
            r == self.amode_output,
    {
        self.amode_output
    }

    pub fn set_amode_output(&mut self, amode_output: AddressingOutput)
        ensures
            *final(self) == (Instruction { amode_output, ..*old(self) }),
    {
        self.amode_output = amode_output;
    }

    pub fn operand(&self) -> (r: Option<u16>)
        ensures
            r == self.operand,
    {
        self.operand
    }

    pub fn set_operand(&mut self, operand: Option<u16>)
        ensures
            *final(self) == (Instruction { operand, ..*old(self) }),
    {
        self.operand = operand;
    }

    pub fn loaded_from(&self) -> (r: u16)
        ensures
            r == self.loaded_from,
    {
        self.loaded_from
    }

    pub fn mnemonic(&self) -> (r: String)
        ensures
            r@ == self.op.spec_name(),
    {
        String::from_str(self.op.name())
    }

    pub fn size(&self) -> (r: u16)
        ensures
            r == self.size,
    {
        self.size
    }

    pub fn time(&self) -> (r: u8)
        ensures
            r == self.time,
    {
        self.time
    }
}

fn entry(op: Operation, amode: AddressingMode, cycles: u8) -> (r: OpcodeEntry)
    ensures
        r == (OpcodeEntry { op, amode, cycles }),
{
    OpcodeEntry { op, amode, cycles }
}

fn decode_entry(opcode: u8) -> (r: Option<OpcodeEntry>)
    ensures
        r == opcode_entry(opcode),
{
    match opcode {
        0x00 => Some(entry(Operation::Brk, AddressingMode::Imp, 7)),
        0x01 => Some(entry(Operation::Ora, AddressingMode::Inx, 6)),
        0x05 => Some(entry(Operation::Ora, AddressingMode::Zp0, 3)),
        0x06 => Some(entry(Operation::Asl, AddressingMode::Zp0, 5)),
        0x08 => Some(entry(Operation::Php, AddressingMode::Imp, 3)),
        0x09 => Some(entry(Operation::Ora, AddressingMode::Imm, 2)),
        0x0A => Some(entry(Operation::Asl, AddressingMode::Imp, 2)),
        0x0D => Some(entry(Operation::Ora, AddressingMode::Abs, 4)),
        0x0E => Some(entry(Operation::Asl, AddressingMode::Abs, 6)),
        0x10 => Some(entry(Operation::Bpl, AddressingMode::Rel, 2)),
        0x11 => Some(entry(Operation::Ora, AddressingMode::Iny, 5)),
        0x15 => Some(entry(Operation::Ora, AddressingMode::Zpx, 4)),
        0x16 => Some(entry(Operation::Asl, AddressingMode::Zpx, 6)),
        0x18 => Some(entry(Operation::Clc, AddressingMode::Imp, 2)),
        0x19 => Some(entry(Operation::Ora, AddressingMode::Aby, 4)),
        0x1D => Some(entry(Operation::Ora, AddressingMode::Abx, 4)),
        0x1E => Some(entry(Operation::Asl, AddressingMode::Abx, 7)),
        0x20 => Some(entry(Operation::Jsr, AddressingMode::Abs, 6)),
        0x21 => Some(entry(Operation::And, AddressingMode::Inx, 6)),
        0x24 => Some(entry(Operation::Bit, AddressingMode::Zp0, 3)),
        0x25 => Some(entry(Operation::And, AddressingMode::Zp0, 3)),
        0x26 => Some(entry(Operation::Rol, AddressingMode::Zp0, 5)),
        0x28 => Some(entry(Operation::Plp, AddressingMode::Imp, 4)),
        0x29 => Some(entry(Operation::And, AddressingMode::Imm, 2)),
        0x2A => Some(entry(Operation::Rol, AddressingMode::Imp, 2)),
        0x2C => Some(entry(Operation::Bit, AddressingMode::Abs, 4)),
        0x2D => Some(entry(Operation::And, AddressingMode::Abs, 4)),
        0x2E => Some(entry(Operation::Rol, AddressingMode::Abs, 6)),
        0x30 => Some(entry(Operation::Bmi, AddressingMode::Rel, 2)),
        0x31 => Some(entry(Operation::And, AddressingMode::Iny, 5)),
        0x35 => Some(entry(Operation::And, AddressingMode::Zpx, 4)),
        0x36 => Some(entry(Operation::Rol, AddressingMode::Zpx, 6)),
        0x38 => Some(entry(Operation::Sec, AddressingMode::Imp, 2)),
        0x39 => Some(entry(Operation::And, AddressingMode::Aby, 4)),
        0x3D => Some(entry(Operation::And, AddressingMode::Abx, 4)),
        0x3E => Some(entry(Operation::Rol, AddressingMode::Abx, 7)),
        0x40 => Some(entry(Operation::Rti, AddressingMode::Imp, 6)),
        0x41 => Some(entry(Operation::Eor, AddressingMode::Inx, 6)),
        0x45 => Some(entry(Operation::Eor, AddressingMode::Zp0, 3)),
        0x46 => Some(entry(Operation::Lsr, AddressingMode::Zp0, 5)),
        0x48 => Some(entry(Operation::Pha, AddressingMode::Imp, 3)),
        0x49 => Some(entry(Operation::Eor, AddressingMode::Imm, 2)),
        0x4A => Some(entry(Operation::Lsr, AddressingMode::Imp, 2)),
        0x4C => Some(entry(Operation::Jmp, AddressingMode::Abs, 3)),
        0x4D => Some(entry(Operation::Eor, AddressingMode::Abs, 4)),
        0x4E => Some(entry(Operation::Lsr, AddressingMode::Abs, 6)),
        0x50 => Some(entry(Operation::Bvc, AddressingMode::Rel, 2)),
        0x51 => Some(entry(Operation::Eor, AddressingMode::Iny, 5)),
        0x55 => Some(entry(Operation::Eor, AddressingMode::Zpx, 4)),
        0x56 => Some(entry(Operation::Lsr, AddressingMode::Zpx, 6)),
        0x58 => Some(entry(Operation::Cli, AddressingMode::Imp, 2)),
        0x59 => Some(entry(Operation::Eor, AddressingMode::Aby, 4)),
        0x5D => Some(entry(Operation::Eor, AddressingMode::Abx, 4)),
        0x5E => Some(entry(Operation::Lsr, AddressingMode::Abx, 7)),
        0x60 => Some(entry(Operation::Rts, AddressingMode::Imp, 6)),
        0x61 => Some(entry(Operation::Adc, AddressingMode::Inx, 6)),
        0x65 => Some(entry(Operation::Adc, AddressingMode::Zp0, 3)),
        0x66 => Some(entry(Operation::Ror, AddressingMode::Zp0, 5)),
        0x68 => Some(entry(Operation::Pla, AddressingMode::Imp, 4)),
        0x69 => Some(entry(Operation::Adc, AddressingMode::Imm, 2)),
        0x6A => Some(entry(Operation::Ror, AddressingMode::Imp, 2)),
        0x6C => Some(entry(Operation::Jmp, AddressingMode::Ind, 5)),
        0x6D => Some(entry(Operation::Adc, AddressingMode::Abs, 4)),
        0x6E => Some(entry(Operation::Ror, AddressingMode::Abs, 6)),
        0x70 => Some(entry(Operation::Bvs, AddressingMode::Rel, 2)),
        0x71 => Some(entry(Operation::Adc, AddressingMode::Iny, 5)),
        0x75 => Some(entry(Operation::Adc, AddressingMode::Zpx, 4)),
        0x76 => Some(entry(Operation::Ror, AddressingMode::Zpx, 6)),
        0x78 => Some(entry(Operation::Sei, AddressingMode::Imp, 2)),
        0x79 => Some(entry(Operation::Adc, AddressingMode::Aby, 4)),
        0x7D => Some(entry(Operation::Adc, AddressingMode::Abx, 4)),
        0x7E => Some(entry(Operation::Ror, AddressingMode::Abx, 7)),
        0x81 => Some(entry(Operation::Sta, AddressingMode::Inx, 6)),
        0x84 => Some(entry(Operation::Sty, AddressingMode::Zp0, 3)),
        0x85 => Some(entry(Operation::Sta, AddressingMode::Zp0, 3)),
        0x86 => Some(entry(Operation::Stx, AddressingMode::Zp0, 3)),
        0x88 => Some(entry(Operation::Dey, AddressingMode::Imp, 2)),
        0x8A => Some(entry(Operation::Txa, AddressingMode::Imp, 2)),
        0x8C => Some(entry(Operation::Sty, AddressingMode::Abs, 4)),
        0x8D => Some(entry(Operation::Sta, AddressingMode::Abs, 4)),
        0x8E => Some(entry(Operation::Stx, AddressingMode::Abs, 4)),
        0x90 => Some(entry(Operation::Bcc, AddressingMode::Rel, 2)),
        0x91 => Some(entry(Operation::Sta, AddressingMode::Iny, 6)),
        0x94 => Some(entry(Operation::Sty, AddressingMode::Zpx, 4)),
        0x95 => Some(entry(Operation::Sta, AddressingMode::Zpx, 4)),
        0x96 => Some(entry(Operation::Stx, AddressingMode::Zpy, 4)),
        0x98 => Some(entry(Operation::Tya, AddressingMode::Imp, 2)),
        0x99 => Some(entry(Operation::Sta, AddressingMode::Aby, 5)),
        0x9A => Some(entry(Operation::Txs, AddressingMode::Imp, 2)),
        0x9D => Some(entry(Operation::Sta, AddressingMode::Abx, 5)),
        0xA0 => Some(entry(Operation::Ldy, AddressingMode::Imm, 2)),
        0xA1 => Some(entry(Operation::Lda, AddressingMode::Inx, 6)),
        0xA2 => Some(entry(Operation::Ldx, AddressingMode::Imm, 2)),
        0xA4 => Some(entry(Operation::Ldy, AddressingMode::Zp0, 3)),
        0xA5 => Some(entry(Operation::Lda, AddressingMode::Zp0, 3)),
        0xA6 => Some(entry(Operation::Ldx, AddressingMode::Zp0, 3)),
        0xA8 => Some(entry(Operation::Tay, AddressingMode::Imp, 2)),
        0xA9 => Some(entry(Operation::Lda, AddressingMode::Imm, 2)),
        0xAA => Some(entry(Operation::Tax, AddressingMode::Imp, 2)),
        0xAC => Some(entry(Operation::Ldy, AddressingMode::Abs, 4)),
        0xAD => Some(entry(Operation::Lda, AddressingMode::Abs, 4)),
        0xAE => Some(entry(Operation::Ldx, AddressingMode::Abs, 4)),
        0xB0 => Some(entry(Operation::Bcs, AddressingMode::Rel, 2)),
        0xB1 => Some(entry(Operation::Lda, AddressingMode::Iny, 5)),
        0xB4 => Some(entry(Operation::Ldy, AddressingMode::Zpx, 4)),
        0xB5 => Some(entry(Operation::Lda, AddressingMode::Zpx, 4)),
        0xB6 => Some(entry(Operation::Ldx, AddressingMode::Zpy, 4)),
        0xB8 => Some(entry(Operation::Clv, AddressingMode::Imp, 2)),
        0xB9 => Some(entry(Operation::Lda, AddressingMode::Aby, 4)),
        0xBA => Some(entry(Operation::Tsx, AddressingMode::Imp, 2)),
        0xBC => Some(entry(Operation::Ldy, AddressingMode::Abx, 4)),
        0xBD => Some(entry(Operation::Lda, AddressingMode::Abx, 4)),
        0xBE => Some(entry(Operation::Ldx, AddressingMode::Aby, 4)),
        0xC0 => Some(entry(Operation::Cpy, AddressingMode::Imm, 2)),
        0xC1 => Some(entry(Operation::Cmp, AddressingMode::Inx, 6)),
        0xC4 => Some(entry(Operation::Cpy, AddressingMode::Zp0, 3)),
        0xC5 => Some(entry(Operation::Cmp, AddressingMode::Zp0, 3)),
        0xC6 => Some(entry(Operation::Dec, AddressingMode::Zp0, 5)),
        0xC8 => Some(entry(Operation::Iny, AddressingMode::Imp, 2)),
        0xC9 => Some(entry(Operation::Cmp, AddressingMode::Imm, 2)),
        0xCA => Some(entry(Operation::Dex, AddressingMode::Imp, 2)),
        0xCC => Some(entry(Operation::Cpy, AddressingMode::Abs, 4)),
        0xCD => Some(entry(Operation::Cmp, AddressingMode::Abs, 4)),
        0xCE => Some(entry(Operation::Dec, AddressingMode::Abs, 6)),
        0xD0 => Some(entry(Operation::Bne, AddressingMode::Rel, 2)),
        0xD1 => Some(entry(Operation::Cmp, AddressingMode::Iny, 5)),
        0xD5 => Some(entry(Operation::Cmp, AddressingMode::Zpx, 4)),
        0xD6 => Some(entry(Operation::Dec, AddressingMode::Zpx, 6)),
        0xD8 => Some(entry(Operation::Cld, AddressingMode::Imp, 2)),
        0xD9 => Some(entry(Operation::Cmp, AddressingMode::Aby, 4)),
        0xDD => Some(entry(Operation::Cmp, AddressingMode::Abx, 4)),
        0xDE => Some(entry(Operation::Dec, AddressingMode::Abx, 7)),
        0xE0 => Some(entry(Operation::Cpx, AddressingMode::Imm, 2)),
        0xE1 => Some(entry(Operation::Sbc, AddressingMode::Inx, 6)),
        0xE4 => Some(entry(Operation::Cpx, AddressingMode::Zp0, 3)),
        0xE5 => Some(entry(Operation::Sbc, AddressingMode::Zp0, 3)),
        0xE6 => Some(entry(Operation::Inc, AddressingMode::Zp0, 5)),
        0xE8 => Some(entry(Operation::Inx, AddressingMode::Imp, 2)),
        0xE9 => Some(entry(Operation::Sbc, AddressingMode::Imm, 2)),
        0xEA => Some(entry(Operation::Nop, AddressingMode::Imp, 2)),
        0xEC => Some(entry(Operation::Cpx, AddressingMode::Abs, 4)),
        0xED => Some(entry(Operation::Sbc, AddressingMode::Abs, 4)),
        0xEE => Some(entry(Operation::Inc, AddressingMode::Abs, 6)),
        0xF0 => Some(entry(Operation::Beq, AddressingMode::Rel, 2)),
        0xF1 => Some(entry(Operation::Sbc, AddressingMode::Iny, 5)),
        0xF5 => Some(entry(Operation::Sbc, AddressingMode::Zpx, 4)),
        0xF6 => Some(entry(Operation::Inc, AddressingMode::Zpx, 6)),
        0xF8 => Some(entry(Operation::Sed, AddressingMode::Imp, 2)),
        0xF9 => Some(entry(Operation::Sbc, AddressingMode::Aby, 4)),
        0xFD => Some(entry(Operation::Sbc, AddressingMode::Abx, 4)),
        0xFE => Some(entry(Operation::Inc, AddressingMode::Abx, 7)),
            _ => None,
    }
}

} // verus!
