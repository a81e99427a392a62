use mos6502::bus::{CommunicationInterface, MainBus, RAM_SIZE};
use mos6502::cpu::{Cpu, CpuError};
use mos6502::execution::load_operand;
use mos6502::instruction::{AddressingMode, AddressingOutput, Instruction, Operation};
use mos6502::registers::{InterruptKind, RegisterSet};

fn cpu_with(program: &[u8], at: u16) -> Cpu {
    let mut cpu = Cpu::default();
    let bytes: Vec<u8> = program.to_vec();
    cpu.load_program(&bytes, at, bytes.len(), true).unwrap();
    cpu
}

#[test]
fn decode_size_matches_addressing_mode() {
    let mut documented = 0;
    for opcode in 0..=255u8 {
        if let Some(i) = Instruction::decode_by(opcode) {
            documented += 1;
            assert_eq!(i.size(), 1 + i.amode().num_operand_bytes());
        }
    }
    assert_eq!(documented, 151);
}

#[test]
fn decode_rows() {
    let lda = Instruction::decode_by(0xA9).unwrap();
    assert_eq!(lda.op, Operation::Lda);
    assert_eq!(lda.amode(), AddressingMode::Imm);
    assert_eq!(lda.time(), 2);
    assert_eq!(lda.size(), 2);
    assert_eq!(lda.mnemonic(), "lda");
    let ldx = Instruction::decode_by(0xA6).unwrap();
    assert_eq!(ldx.mnemonic(), "ldx");
    let ror_abs = Instruction::decode_by(0x6E).unwrap();
    assert_eq!((ror_abs.amode(), ror_abs.time(), ror_abs.size()), (AddressingMode::Abs, 6, 3));
    let ror_abx = Instruction::decode_by(0x7E).unwrap();
    assert_eq!((ror_abx.amode(), ror_abx.time(), ror_abx.size()), (AddressingMode::Abx, 7, 3));
    assert!(Instruction::decode_by(0x02).is_none());
    assert!(Instruction::decode_by(0xFF).is_none());
}

#[test]
fn new_cpu_registers() {
    let cpu = Cpu::new();
    let r = cpu.regset();
    assert_eq!(r, RegisterSet::new());
    assert_eq!((r.accumulator(), r.x_index(), r.y_index()), (0, 0, 0));
    assert_eq!(r.stk_ptr(), 0xFD);
    assert_eq!(r.status(), 0x24);
    assert!(r.irq_disabled() && r.unused());
    assert_eq!(cpu.pc(), 0);
    assert_eq!(Cpu::new_custompc(0x1234).pc(), 0x1234);
    assert!(!cpu.is_attached());
}

#[test]
fn flag_setters_touch_one_bit() {
    let mut r = RegisterSet::new();
    r.set_carry(true);
    assert_eq!(r.status(), 0x25);
    r.set_negative(true);
    assert_eq!(r.status(), 0xA5);
    r.set_irq_disabled(false);
    assert_eq!(r.status(), 0xA1);
    assert!(r.carry() && r.negative() && !r.irq_disabled() && !r.zero());
}

#[test]
fn zero_and_negative_follow_result() {
    let mut cpu = cpu_with(&[0xA9, 0x80, 0xA9, 0x00, 0xA9, 0x7F], 0x8000);
    cpu.full_instruction();
    assert!(cpu.regset().negative() && !cpu.regset().zero());
    cpu.full_instruction();
    assert!(!cpu.regset().negative() && cpu.regset().zero());
    cpu.full_instruction();
    assert!(!cpu.regset().negative() && !cpu.regset().zero());
}

#[test]
fn stack_push_then_pop() {
    let mut cpu = Cpu::default();
    let sp = cpu.regset().stk_ptr();
    cpu.stk_push(0x42);
    assert_eq!(cpu.regset().stk_ptr(), sp.wrapping_sub(1));
    assert_eq!(cpu.read_byte(0x100 + sp as u16 - 1), 0x42);
    assert_eq!(cpu.read_byte(0x100 + sp as u16), 0x00);
    assert_eq!(cpu.stk_pop(), 0x42);
    assert_eq!(cpu.regset().stk_ptr(), sp);
}

#[test]
fn stack_pointer_wraps_within_page() {
    let mut cpu = Cpu::default();
    cpu.regset.stk_ptr = 0x00;
    cpu.stk_push(0x99);
    assert_eq!(cpu.regset().stk_ptr(), 0xFF);
    assert_eq!(cpu.read_byte(0x01FF), 0x99);
    assert_eq!(cpu.read_byte(0x0100), 0x00);
    assert_eq!(cpu.stk_pop(), 0x99);
    assert_eq!(cpu.regset().stk_ptr(), 0x00);
}

#[test]
fn stack_word_round_trip() {
    let mut cpu = Cpu::default();
    let sp = cpu.regset().stk_ptr();
    cpu.stk_doublepush(0x1234);
    assert_eq!(cpu.read_byte(0x100 + sp as u16 - 1), 0x12);
    assert_eq!(cpu.read_byte(0x100 + sp as u16 - 2), 0x34);
    assert_eq!(cpu.stk_doublepop(), 0x1234);
    assert_eq!(cpu.regset().stk_ptr(), sp);
}

#[test]
fn irq_masked_nmi_taken() {
    let mut cpu = Cpu::default();
    cpu.regset.prog_counter = 0x8000;
    assert!(cpu.regset().irq_disabled());
    assert!(!cpu.inthandle(InterruptKind::Irq));
    assert_eq!(cpu.pc(), 0x8000);
    assert_eq!(cpu.regset().stk_ptr(), 0xFD);
    assert!(cpu.inthandle(InterruptKind::Nmi));
}

#[test]
fn nmi_service_sequence() {
    let mut cpu = Cpu::default();
    cpu.writ_byte(0xFFFA, 0x00);
    cpu.writ_byte(0xFFFB, 0x90);
    cpu.regset.prog_counter = 0x8123;
    cpu.regset.status = 0x00;
    assert!(cpu.inthandle(InterruptKind::Nmi));
    assert_eq!(cpu.pc(), 0x9000);
    assert_eq!(cpu.time().residual(), 8);
    assert_eq!(cpu.read_byte(0x01FC), 0x81);
    assert_eq!(cpu.read_byte(0x01FB), 0x23);
    assert_eq!(cpu.read_byte(0x01FA), 0x20);
    assert_eq!(cpu.regset().stk_ptr(), 0xFA);
    assert!(cpu.regset().irq_disabled());
}

#[test]
fn irq_taken_when_enabled() {
    let mut cpu = Cpu::default();
    cpu.writ_byte(0xFFFE, 0x34);
    cpu.writ_byte(0xFFFF, 0x12);
    cpu.regset.set_irq_disabled(false);
    assert!(cpu.inthandle(InterruptKind::Irq));
    assert_eq!(cpu.pc(), 0x1234);
    assert_eq!(cpu.time().residual(), 7);
}

#[test]
fn pending_interrupt_serviced_at_boundary() {
    let mut cpu = cpu_with(&[0xEA], 0x8000);
    cpu.writ_byte(0xFFFA, 0x00);
    cpu.writ_byte(0xFFFB, 0x90);
    cpu.set_pending(InterruptKind::Nmi, true);
    cpu.full_instruction();
    assert_eq!(cpu.pc(), 0x9000);
    assert!(cpu.interrupt_handles().pending_nmi());
    assert_eq!(cpu.time().elapsed(), 8);
    cpu.set_pending(InterruptKind::Nmi, false);
    assert!(!cpu.interrupt_handles().pending_nmi());
}

#[test]
fn stopped_cpu_takes_no_interrupt() {
    let mut cpu = cpu_with(&[0x02], 0x8000);
    cpu.full_instruction();
    assert_eq!(cpu.fault(), Some(CpuError::IllegalOpcode));
    assert!(!cpu.inthandle(InterruptKind::Nmi));
    assert_eq!(cpu.pc(), 0x8000);
    assert_eq!(cpu.regset().stk_ptr(), 0xFD);
    assert_eq!(cpu.time().residual(), 0);
}

#[test]
fn masked_irq_stays_pending() {
    let mut cpu = cpu_with(&[0xEA], 0x8000);
    cpu.set_pending(InterruptKind::Irq, true);
    cpu.full_instruction();
    assert_eq!(cpu.pc(), 0x8001);
    assert!(cpu.interrupt_handles().pending_irq());
}

#[test]
fn indirect_jump_page_wrap() {
    let mut cpu = cpu_with(&[0x6C, 0xFF, 0x30], 0x8000);
    cpu.writ_byte(0x30FF, 0x80);
    cpu.writ_byte(0x3000, 0x12);
    cpu.writ_byte(0x3100, 0x34);
    cpu.full_instruction();
    assert_eq!(cpu.pc(), 0x1280);
}

#[test]
fn indirect_jump_within_page() {
    let mut cpu = cpu_with(&[0x6C, 0x20, 0x30], 0x8000);
    cpu.writ_byte(0x3020, 0x80);
    cpu.writ_byte(0x3021, 0x12);
    assert_eq!(cpu.amode_ind(0x3020).0, AddressingOutput::AbsoluteAddress(0x1280));
    cpu.full_instruction();
    assert_eq!(cpu.pc(), 0x1280);
}

#[test]
fn lda_immediate_five() {
    let mut cpu = cpu_with(&[0xA9, 0x05], 0x8000);
    assert_eq!(cpu.pc(), 0x8000);
    cpu.full_instruction();
    assert_eq!(cpu.regset().accumulator(), 5);
    assert!(!cpu.regset().zero());
    assert!(!cpu.regset().negative());
    assert_eq!(cpu.time().elapsed(), 2);
    assert_eq!(cpu.time().residual(), 0);
    assert_eq!(cpu.pc(), 0x8002);
}

#[test]
fn lda_immediate_zero() {
    let mut cpu = cpu_with(&[0xA9, 0x00], 0x8000);
    cpu.full_instruction();
    assert!(cpu.regset().zero());
}

#[test]
fn jsr_then_rts() {
    let mut cpu = cpu_with(&[0x20, 0x00, 0x90], 0x8000);
    cpu.writ_byte(0x9000, 0x60);
    let sp = cpu.regset().stk_ptr();
    cpu.full_instruction();
    assert_eq!(cpu.pc(), 0x9000);
    assert_eq!(cpu.regset().stk_ptr(), sp.wrapping_sub(2));
    cpu.full_instruction();
    assert_eq!(cpu.pc(), 0x8003);
    assert_eq!(cpu.regset().stk_ptr(), sp);
    assert_eq!(cpu.time().elapsed(), 12);
}

#[test]
fn clock_cycle_counts_down() {
    let mut cpu = cpu_with(&[0xEA, 0xEA], 0x8000);
    cpu.clock_cycle();
    assert_eq!(cpu.pc(), 0x8001);
    assert_eq!(cpu.time().residual(), 1);
    cpu.clock_cycle();
    assert_eq!(cpu.time().residual(), 0);
    assert_eq!(cpu.pc(), 0x8001);
    cpu.clock_cycle();
    assert_eq!(cpu.pc(), 0x8002);
    assert_eq!(cpu.time().elapsed(), 3);
}

#[test]
fn adc_overflow_and_carry() {
    let mut cpu = cpu_with(&[0xA9, 0x50, 0x69, 0x50, 0x69, 0x70], 0x8000);
    cpu.full_instruction();
    cpu.full_instruction();
    let r = cpu.regset();
    assert_eq!(r.accumulator(), 0xA0);
    assert!(r.overflowed() && !r.carry() && r.negative() && !r.zero());
    cpu.full_instruction();
    let r = cpu.regset();
    assert_eq!(r.accumulator(), 0x10);
    assert!(r.carry() && !r.overflowed());
}

#[test]
fn sbc_with_borrow() {
    let mut cpu = cpu_with(&[0x38, 0xA9, 0x50, 0xE9, 0xF0], 0x8000);
    cpu.full_instruction();
    cpu.full_instruction();
    cpu.full_instruction();
    let r = cpu.regset();
    assert_eq!(r.accumulator(), 0x60);
    assert!(!r.carry() && !r.overflowed());
}

#[test]
fn compare_sets_carry_and_zero() {
    let mut cpu = cpu_with(&[0xA9, 0x40, 0xC9, 0x40, 0xC9, 0x41], 0x8000);
    cpu.full_instruction();
    cpu.full_instruction();
    assert!(cpu.regset().carry() && cpu.regset().zero());
    cpu.full_instruction();
    assert!(!cpu.regset().carry() && !cpu.regset().zero() && cpu.regset().negative());
    assert_eq!(cpu.regset().accumulator(), 0x40);
}

#[test]
fn shifts_and_rotates() {
    let mut cpu = cpu_with(&[0xA9, 0x81, 0x0A, 0x2A, 0x4A, 0x6A], 0x8000);
    cpu.full_instruction();
    cpu.full_instruction();
    assert_eq!(cpu.regset().accumulator(), 0x02);
    assert!(cpu.regset().carry());
    cpu.full_instruction();
    assert_eq!(cpu.regset().accumulator(), 0x05);
    assert!(!cpu.regset().carry());
    cpu.full_instruction();
    assert_eq!(cpu.regset().accumulator(), 0x02);
    assert!(cpu.regset().carry());
    cpu.full_instruction();
    assert_eq!(cpu.regset().accumulator(), 0x81);
    assert!(!cpu.regset().carry());
}

#[test]
fn memory_increment_and_store() {
    let mut cpu = cpu_with(&[0xE6, 0x10, 0xA2, 0x07, 0x8E, 0x00, 0x02, 0xC6, 0x11], 0x8000);
    cpu.writ_byte(0x10, 0xFF);
    cpu.full_instruction();
    assert_eq!(cpu.read_byte(0x10), 0x00);
    assert!(cpu.regset().zero());
    cpu.full_instruction();
    cpu.full_instruction();
    assert_eq!(cpu.read_byte(0x0200), 0x07);
    cpu.full_instruction();
    assert_eq!(cpu.read_byte(0x11), 0xFF);
    assert!(cpu.regset().negative());
}

#[test]
fn branch_cycles() {
    let mut cpu = cpu_with(&[0xA9, 0x01, 0xD0, 0x02], 0x8000);
    cpu.full_instruction();
    let before = cpu.time().elapsed();
    cpu.full_instruction();
    assert_eq!(cpu.pc(), 0x8006);
    assert_eq!(cpu.time().elapsed() - before, 3);

    let mut cpu = cpu_with(&[0xA9, 0x01, 0xD0, 0x10], 0x80F0);
    cpu.full_instruction();
    let before = cpu.time().elapsed();
    cpu.full_instruction();
    assert_eq!(cpu.pc(), 0x8104);
    assert_eq!(cpu.time().elapsed() - before, 4);

    let mut cpu = cpu_with(&[0xA9, 0x00, 0xD0, 0x10], 0x8000);
    cpu.full_instruction();
    let before = cpu.time().elapsed();
    cpu.full_instruction();
    assert_eq!(cpu.pc(), 0x8004);
    assert_eq!(cpu.time().elapsed() - before, 2);
}

#[test]
fn backward_branch() {
    let mut cpu = cpu_with(&[0xA9, 0x00, 0xF0, 0xFC], 0x8000);
    cpu.full_instruction();
    cpu.full_instruction();
    assert_eq!(cpu.pc(), 0x8000);
}

#[test]
fn page_cross_penalty_on_reads_only() {
    let mut cpu = cpu_with(&[0xA2, 0x01, 0xBD, 0xFF, 0x20, 0x9D, 0xFF, 0x20], 0x8000);
    cpu.writ_byte(0x2100, 0x77);
    cpu.full_instruction();
    let before = cpu.time().elapsed();
    cpu.full_instruction();
    assert_eq!(cpu.regset().accumulator(), 0x77);
    assert_eq!(cpu.time().elapsed() - before, 5);
    let before = cpu.time().elapsed();
    cpu.full_instruction();
    assert_eq!(cpu.time().elapsed() - before, 5);
}

#[test]
fn addressing_outcomes() {
    let mut cpu = Cpu::default();
    cpu.regset.x_index = 0x10;
    cpu.regset.y_index = 0x01;
    cpu.writ_byte(0x0005, 0xAA);
    cpu.writ_byte(0x00F5, 0x00);
    cpu.writ_byte(0x00F6, 0x30);
    cpu.writ_byte(0x3001, 0x5C);
    assert_eq!(cpu.amode_zpx(0xF5).0, AddressingOutput::Fetched { value: 0xAA, address: 0x0005 });
    assert_eq!(cpu.amode_inx(0xE5).0, AddressingOutput::Fetched { value: 0x00, address: 0x3000 });
    assert_eq!(cpu.amode_iny(0xF5), (AddressingOutput::Fetched { value: 0x5C, address: 0x3001 }, false));
    assert_eq!(cpu.amode_abx(0x20F8).1, true);
    assert_eq!(cpu.amode_imm(0x42).0, AddressingOutput::ValueOnly(0x42));
    assert_eq!(
        cpu.resolve_mode(AddressingMode::Abs, None),
        Err(CpuError::ExpectedOperandMissing)
    );
}

#[test]
fn illegal_opcode_stops_cpu() {
    let mut cpu = cpu_with(&[0x02, 0xEA], 0x8000);
    cpu.full_instruction();
    assert_eq!(cpu.fault(), Some(CpuError::IllegalOpcode));
    assert_eq!(cpu.pc(), 0x8000);
    cpu.clock_cycle();
    assert_eq!(cpu.pc(), 0x8000);
    assert_eq!(cpu.time().elapsed(), 0);
    cpu.reset();
    assert_eq!(cpu.fault(), None);
}

#[test]
fn reset_values() {
    let mut cpu = Cpu::default();
    cpu.regset.accumulator = 9;
    cpu.reset();
    let r = cpu.regset();
    assert_eq!(r.status(), 0x20);
    assert_eq!(r.accumulator(), 0);
    assert_eq!(r.stk_ptr(), 0xFD);
    assert_eq!(cpu.pc(), 0x8000);
    assert_eq!(cpu.time().residual(), 8);
    assert_eq!(cpu.time().elapsed(), 0);
}

#[test]
fn load_program_errors() {
    let mut cpu = Cpu::new();
    assert_eq!(cpu.load_program(&vec![1, 2], 0, 2, true), Err(CpuError::BusInterfaceMissing));
    let mut cpu = Cpu::default();
    assert_eq!(cpu.load_program(&vec![1, 2], 0, 3, true), Err(CpuError::FailedLoadingProgram));
    assert_eq!(cpu.load_program(&vec![1, 2], 0xFFFF, 2, true), Err(CpuError::FailedLoadingProgram));
    assert_eq!(cpu.load_program(&vec![1, 2], 0xFFFE, 2, false), Ok(0));
    assert_eq!(cpu.read_byte(0xFFFF), 2);
    assert_eq!(cpu.pc(), 0);
}

#[test]
fn bus_absent_reads_zero() {
    let mut cpu = Cpu::new();
    cpu.writ_byte(0x10, 5);
    assert_eq!(cpu.read_byte(0x10), 0);
    assert_eq!(cpu.read_word(0x10), 0);
    assert!(cpu.read_some(0x10, 4).is_empty());
    cpu.connect_to(MainBus::new());
    assert!(cpu.is_attached());
    cpu.writ_byte(0x10, 5);
    let mut other = MainBus::new();
    other.write(0x10, 9);
    cpu.connect_to(other);
    assert_eq!(cpu.read_byte(0x10), 5);
}

#[test]
fn read_word_and_ranges() {
    let mut cpu = Cpu::default();
    cpu.writ_byte(0xFFFF, 0x34);
    cpu.writ_byte(0x0000, 0x12);
    assert_eq!(cpu.read_word(0xFFFF), 0x1234);
    assert_eq!(cpu.read_some(0xFFFE, 4), vec![0, 0x34]);
    assert_eq!(cpu.read_some(0x0000, 2), vec![0x12, 0]);
}

#[test]
fn main_bus_reads() {
    let mut bus = MainBus::new();
    assert_eq!(bus.mem.len(), RAM_SIZE);
    bus.write(0x0001, 7);
    assert_eq!(bus.read(0x0001), Some(7));
    assert_eq!(bus.read_seq(0x0000, 3), Some(vec![0, 7, 0]));
    assert_eq!(bus.read_seq(0x0000, 0), None);
    let small = MainBus { mem: vec![1, 2, 3] };
    assert_eq!(small.read(5), None);
    assert_eq!(small.read_seq(1, 10), Some(vec![2, 3]));
    assert_eq!(small.read_seq(7, 2), None);
}

#[test]
fn load_operand_keeps_cpu() {
    let mut cpu = cpu_with(&[0xAD, 0x34, 0x12], 0x4000);
    cpu.regset.prog_counter = 0x8000;
    let mut i = Instruction::decode_by(0xAD).unwrap();
    load_operand(&mut cpu, &mut i, 0x4000);
    assert_eq!(i.operand(), Some(0x1234));
    assert_eq!(i.load_address(), 0x4000);
    assert_eq!(cpu.pc(), 0x8000);
    assert!(cpu.i().is_none());
}
