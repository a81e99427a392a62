use vstd::prelude::*;
use vstd::string::StringExecFns;
use crate::bus::run_end;
use crate::cpu::{Cpu, CpuState};
use crate::execution::{load_operand, operand_at};
use crate::instruction::{AddressingMode, Instruction};

verus! {

/// The lower-case hex digit of `d`, for `d` below 16.
pub open spec fn hex_digit(d: u8) -> Seq<char> {
    match d {
        0 => "0"@,
        1 => "1"@,
        2 => "2"@,
        3 => "3"@,
        4 => "4"@,
        5 => "5"@,
        6 => "6"@,
        7 => "7"@,
        8 => "8"@,
        9 => "9"@,
        10 => "a"@,
        11 => "b"@,
        12 => "c"@,
        13 => "d"@,
        14 => "e"@,
        _ => "f"@,
    }
}

/// The lower-case hex digits of `v`, without leading zeros ("0" for zero).
pub open spec fn hex_digits(v: nat) -> Seq<char>
    decreases v,
{
    if v < 16 {
        hex_digit(v as u8)
    } else {
        hex_digits(v / 16) + hex_digit((v % 16) as u8)
    }
}

/// How many hex digits `v` has.
pub open spec fn hex_len(v: u16) -> int {
    if v < 0x10 {
        1
    } else if v < 0x100 {
        2
    } else if v < 0x1000 {
        3
    } else {
        4
    }
}

/// `n` spaces.
pub open spec fn spaces(n: int) -> Seq<char>
    decreases n,
{
    if n <= 0 {
        Seq::empty()
    } else {
        spaces(n - 1) + " "@
    }
}

/// `v` in hex with a `0x` prefix, right-aligned with spaces to `width`.
pub open spec fn hex_field(v: u16, width: int) -> Seq<char> {
    spaces(width - 2 - hex_len(v)) + "0x"@ + hex_digits(v as nat)
}

/// What stands before the operand in each mode.
pub open spec fn operand_prefix(amode: AddressingMode) -> Seq<char> {
    match amode {
        AddressingMode::Imm => "#"@,
        AddressingMode::Ind | AddressingMode::Iny | AddressingMode::Inx => "("@,
        _ => ""@,
    }
}

/// What stands after the operand in each mode.
pub open spec fn operand_suffix(amode: AddressingMode) -> Seq<char> {
    match amode {
        AddressingMode::Ind => ")"@,
        AddressingMode::Abx | AddressingMode::Zpx => ", X"@,
        AddressingMode::Aby | AddressingMode::Zpy => ", Y"@,
        AddressingMode::Iny => "), Y"@,
        AddressingMode::Inx => ", X)"@,
        _ => ""@,
    }
}

/// The listing line of one instruction: its address, a tab, its mnemonic, a
/// tab, its operand between the mode's prefix and suffix, a tab, `; ` and
/// the mode's name, and a newline.
pub open spec fn line_of(i: Instruction) -> Seq<char> {
    hex_field(i.loaded_from, 6) + "\t"@ + i.op.spec_name() + "\t"@ + operand_prefix(i.amode) + (match i.operand {
        Some(n) => hex_field(n, 4),
        None => Seq::empty(),
    }) + operand_suffix(i.amode) + "\t; "@ + i.amode.spec_name() + "\n"@
}

/// The lines of a sequence of instructions, in order.
pub open spec fn listing(code: Seq<Instruction>) -> Seq<char>
    decreases code.len(),
{
    if code.len() == 0 {
        Seq::empty()
    } else {
        listing(code.drop_last()) + line_of(code.last())
    }
}

/// The instructions decoded from `address` up to `end`, each with its
/// operand loaded; a byte that is no documented opcode is stepped over.
pub open spec fn disasm(s: CpuState, address: int, end: int) -> Seq<Instruction>
    decreases 0x10004 - address,
{
    if address >= end || address > 0xffff {
        Seq::empty()
    } else {
        match Instruction::decoded(s.read(address as u16)) {
            Some(t) => seq![Instruction { loaded_from: address as u16, operand: operand_at(s, address as u16, t.amode), ..t }]
                + disasm(s, address + 1 + t.amode.operand_bytes(), end),
            None => disasm(s, address + 1, end),
        }
    }
}

/// Every line ends in a newline, so a listing of some instruction is not empty.
proof fn lemma_listing_nonempty(code: Seq<Instruction>)
    requires
        code.len() > 0,
    ensures
        listing(code).len() > 0,
{
    reveal_strlit("\n");
}

fn digit_text(d: u16) -> (r: &'static str)
    ensures
        r@ == hex_digit((d % 16) as u8),
{
    match (d % 16) as u8 {
        0 => "0",
        1 => "1",
        2 => "2",
        3 => "3",
        4 => "4",
        5 => "5",
        6 => "6",
        7 => "7",
        8 => "8",
        9 => "9",
        10 => "a",
        11 => "b",
        12 => "c",
        13 => "d",
        14 => "e",
        _ => "f",
    }
}

fn append_hex_digits(out: &mut String, v: u16)
    ensures
        final(out)@ == old(out)@ + hex_digits(v as nat),
    decreases v,
{
    if v >= 16 {
        append_hex_digits(out, v / 16);
    }
    out.append(digit_text(v % 16));
    assert(v >= 16 ==> hex_digits(v as nat) == hex_digits((v / 16) as nat) + hex_digit((v % 16) as u8));
}

fn append_hex_field(out: &mut String, v: u16, width: u16)
    requires
        width <= 8,
    ensures
        final(out)@ == old(out)@ + hex_field(v, width as int),
{
    let len: u16 = if v < 0x10 {
        1
    } else if v < 0x100 {
        2
    } else if v < 0x1000 {
        3
    } else {
        4
    };
    let mut pad: u16 = 0;
    while pad + 2 + len < width
        invariant
            width <= 8,
            len == hex_len(v),
            pad + 2 + len <= width || pad == 0,
            final(out)@ == final(out)@,
            out@ == old(out)@ + spaces(pad as int),
        decreases width - pad,
    {
        out.append(" ");
        pad = pad + 1;
    }
    assert(spaces(pad as int) == spaces(width - 2 - hex_len(v)));
    out.append("0x");
    append_hex_digits(out, v);
    assert(out@ =~= old(out)@ + hex_field(v, width as int));
}

fn prefix_text(amode: AddressingMode) -> (r: &'static str)
    ensures
        r@ == operand_prefix(amode),
{
    match amode {
        AddressingMode::Imm => "#",
        AddressingMode::Ind | AddressingMode::Iny | AddressingMode::Inx => "(",
        _ => "",
    }
}

fn suffix_text(amode: AddressingMode) -> (r: &'static str)
    ensures
        r@ == operand_suffix(amode),
{
    match amode {
        AddressingMode::Ind => ")",
        AddressingMode::Abx | AddressingMode::Zpx => ", X",
        AddressingMode::Aby | AddressingMode::Zpy => ", Y",
        AddressingMode::Iny => "), Y",
        AddressingMode::Inx => ", X)",
        _ => "",
    }
}

impl Instruction {
    /// The listing line of this instruction.
    pub fn to_line(&self) -> (r: String)
        ensures
            r@ == line_of(*self),
    {
        let mut out = String::new();
        append_hex_field(&mut out, self.loaded_from, 6);
        out.append("\t");
        out.append(self.op.name());
        out.append("\t");
        out.append(prefix_text(self.amode));
        if let Some(n) = self.operand {
            append_hex_field(&mut out, n, 4);
        }
        out.append(suffix_text(self.amode));
        out.append("\t; ");
        out.append(self.amode.name());
        out.append("\n");
        assert(out@ =~= line_of(*self));
        out
    }
}

/// A disassembly: decoded instructions with their operands and addresses.
#[derive(Debug, PartialEq, Default)]
pub struct Asm {
    pub code: Vec<Instruction>,
}

impl Asm {
    pub fn new(code: Vec<Instruction>) -> (r: Self)
        ensures
            r.code@ == code@,
    {
        Asm { code }
    }

    /// Decodes the memory from `begin_address` on, over `limit` bytes or up
    /// to the end of the address space.
    pub fn from_addr_range(cpu: &mut Cpu, begin_address: u16, limit: u16) -> (r: Asm)
        ensures
            final(cpu)@ == old(cpu)@,
            r.code@ == disasm(old(cpu)@, begin_address as int, run_end(begin_address, limit)),
    {
        let mut code: Vec<Instruction> = Vec::new();
        let end: u32 = if begin_address as u32 + limit as u32 > 0x10000 {
            0x10000
        } else {
            begin_address as u32 + limit as u32
        };
        let ghost s = cpu@;
        let mut address: u32 = begin_address as u32;
        while address < end
            invariant
                cpu@ == s,
                end == run_end(begin_address, limit),
                end <= 0x10000,
                begin_address <= address <= 0x10003,
                code@ + disasm(s, address as int, end as int) == disasm(s, begin_address as int, end as int),
            decreases 0x10004 - address,
        {
            let ghost before = code@;
            let opcode = cpu.read_byte(address as u16);
            match Instruction::decode_by(opcode) {
                Some(t) => {
                    assert(t.size == 1 + t.amode.operand_bytes());
                    let mut i = t;
                    load_operand(cpu, &mut i, address as u16);
                    code.push(i);
                    assert(before + (seq![i] + disasm(s, address + t.size, end as int)) =~= code@ + disasm(
                        s,
                        address + t.size,
                        end as int,
                    ));
                    address = address + t.size as u32;
                },
                None => {
                    address = address + 1;
                },
            }
        }
        Asm { code }
    }

    pub fn code(&self) -> (r: &Vec<Instruction>)
        ensures
            r@ == self.code@,
    {
        &self.code
    }

    /// The listing of the memory from `begin_address` on, over `limit` bytes;
    /// an error where it holds nothing.
    pub fn stringify_range(cpu: &mut Cpu, begin_address: u16, limit: u16) -> (r: Result<String, ()>)
        ensures
            final(cpu)@ == old(cpu)@,
            ({
                let code = disasm(old(cpu)@, begin_address as int, run_end(begin_address, limit));
                &&& r.is_ok() <==> code.len() > 0
                &&& r.is_ok() ==> r.unwrap()@ == listing(code)
            }),
    {
        let disassembly = Asm::from_addr_range(cpu, begin_address, limit);
        disassembly.stringify(true, true)
    }

    /// The listing of the instructions, one full line each (address and mode
    /// columns included, whatever the two flags say); an error where it
    /// holds nothing.
    pub fn stringify(&self, _address_column: bool, _addressing_mode: bool) -> (r: Result<String, ()>)
        ensures
            r.is_ok() <==> self.code@.len() > 0,
            r.is_ok() ==> r.unwrap()@ == listing(self.code@),
    {
        let mut res = String::new();
        let mut k: usize = 0;
        while k < self.code.len()
            invariant
                k <= self.code@.len(),
                res@ == listing(self.code@.take(k as int)),
            decreases self.code@.len() - k,
        {
            let line = self.code[k].to_line();
            res.append(line.as_str());
            assert(self.code@.take(k + 1).drop_last() =~= self.code@.take(k as int));
            k = k + 1;
        }
        assert(self.code@.take(k as int) =~= self.code@);
        if self.code.len() > 0 {
            proof {
                lemma_listing_nonempty(self.code@);
            }
            return Ok(res);
        }
        Err(())
    }
}

impl Cpu {
    /// Disassembles `limit` bytes from `begin` on; `None` without a bus or
    /// where no instruction was found.
    pub fn disassemble(&mut self, begin: u16, limit: u16) -> (r: Option<Asm>)
        ensures
            final(self)@ == old(self)@,
            old(self)@.mem.is_none() ==> r.is_none(),
            old(self)@.mem.is_some() ==> ({
                let code = disasm(old(self)@, begin as int, run_end(begin, limit));
                &&& r.is_some() <==> code.len() > 0
                &&& r.is_some() ==> r.unwrap().code@ == code
            }),
    {
        if self.bus_conn.is_none() {
            return None;
        }
        let disassembly = Asm::from_addr_range(self, begin, limit);
        if disassembly.code.len() > 0 {
            return Some(disassembly);
        }
        None
    }
}

} // verus!
