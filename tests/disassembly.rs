use mos6502::cpu::Cpu;
use mos6502::disasm::Asm;
use mos6502::instruction::Instruction;

fn cpu_with(program: &[u8], at: u16) -> Cpu {
    let mut cpu = Cpu::default();
    let bytes: Vec<u8> = program.to_vec();
    cpu.load_program(&bytes, at, bytes.len(), false).unwrap();
    cpu
}

#[test]
fn listing_of_immediate_load() {
    let mut cpu = cpu_with(&[0xA9, 0x05], 0x8000);
    let text = Asm::stringify_range(&mut cpu, 0x8000, 2).unwrap();
    assert_eq!(text, "0x8000\tlda\t# 0x5\t; Imm\n");
}

#[test]
fn listing_of_modes() {
    let mut cpu = cpu_with(
        &[0x6C, 0x34, 0x12, 0xB1, 0x10, 0x81, 0x20, 0x9D, 0x00, 0x02, 0x96, 0x44, 0xEA, 0xD0, 0xFE],
        0x0010,
    );
    let text = Asm::stringify_range(&mut cpu, 0x0010, 15).unwrap();
    let expected = [
        "  0x10\tjmp\t(0x1234)\t; Ind\n",
        "  0x13\tlda\t(0x10), Y\t; Iny\n",
        "  0x15\tsta\t(0x20, X)\t; Inx\n",
        "  0x17\tsta\t0x200, X\t; Abx\n",
        "  0x1a\tstx\t0x44, Y\t; Zpy\n",
        "  0x1c\tnop\t\t; Imp\n",
        "  0x1d\tbne\t0xfe\t; Rel\n",
    ]
    .join("");
    assert_eq!(text, expected);
}

#[test]
fn listing_flags_do_not_change_text() {
    let mut cpu = cpu_with(&[0xA9, 0x05, 0x0A], 0x8000);
    let listing = cpu.disassemble(0x8000, 3).unwrap();
    assert_eq!(listing.code().len(), 2);
    let full = "0x8000\tlda\t# 0x5\t; Imm\n0x8002\tasl\t\t; Imp\n";
    assert_eq!(listing.stringify(true, true).unwrap(), full);
    assert_eq!(listing.stringify(false, false).unwrap(), full);
    assert_eq!(listing.stringify(true, false).unwrap(), full);
}

#[test]
fn disassembly_skips_undocumented_bytes() {
    let mut cpu = cpu_with(&[0x02, 0xEA], 0x8000);
    let listing = cpu.disassemble(0x8000, 2).unwrap();
    assert_eq!(listing.code().len(), 1);
    assert_eq!(listing.code()[0].load_address(), 0x8001);
}

#[test]
fn disassembly_without_bus_or_code() {
    let mut cpu = Cpu::new();
    assert!(cpu.disassemble(0, 4).is_none());
    let mut cpu = Cpu::default();
    assert!(cpu.disassemble(0, 0).is_none());
    assert!(Asm::stringify_range(&mut cpu, 0, 0).is_err());
    assert!(Asm::new(Vec::new()).stringify(true, true).is_err());
}

#[test]
fn disassembly_stops_at_end_of_memory() {
    let mut cpu = cpu_with(&[0xAD, 0x34], 0xFFFE);
    let listing = cpu.disassemble(0xFFFE, 100).unwrap();
    assert_eq!(listing.code().len(), 1);
    assert_eq!(listing.code()[0].operand(), Some(0x0034));
    assert_eq!(cpu.pc(), 0);
}

#[test]
fn line_of_single_instruction() {
    let mut i = Instruction::decode_by(0x4C).unwrap();
    i.set_operand(Some(0xC000));
    assert_eq!(i.to_line(), "   0x0\tjmp\t0xc000\t; Abs\n");
}
