use mos6502::ppu::{LoopyReg, PpuDot, PpuRegSet, PpuStatus};

#[test]
fn register_set_starts_on_pre_render_line() {
    let regs = PpuRegSet::new();
    assert_eq!(regs.dot.scanline(), 261);
    assert_eq!(regs.dot.cycles(), 0);
    assert_eq!(regs.control_reg.0, 0);
}

#[test]
fn register_set_reset() {
    let mut regs = PpuRegSet::new();
    regs.status_reg.0 = 0xE0;
    regs.v_addr.set(0x1234);
    regs.reset();
    assert_eq!(regs.status_reg.0, 0);
    assert_eq!(regs.dot, PpuDot { scanline: -1, cycles: 0 });
    assert_eq!(regs.v_addr.0, 0x1234);
}

#[test]
fn dot_wraps_lines_and_frames() {
    let mut dot = PpuDot { scanline: 0, cycles: 339 };
    assert!(!dot.update());
    assert_eq!(dot.cycles(), 340);
    assert!(!dot.update());
    assert_eq!((dot.scanline(), dot.cycles()), (1, 0));
    let mut dot = PpuDot { scanline: 260, cycles: 340 };
    assert!(dot.update());
    assert_eq!((dot.scanline(), dot.cycles()), (-1, 0));
    let mut dot = PpuDot::new();
    let mut frames = 0;
    let mut ticks = 0;
    while frames == 0 {
        if dot.update() {
            frames += 1;
        }
        ticks += 1;
    }
    assert_eq!(ticks, 341);
}

#[test]
fn status_read_clears_vblank() {
    let mut status = PpuStatus(0xFF);
    assert_eq!(status.observe(), 0xE0);
    assert_eq!(status.0, 0x7F);
    assert!(!status.vblank());
}

#[test]
fn scroll_register_fields() {
    let reg = LoopyReg(0x7FFF);
    assert_eq!(reg.coarse_x(), 0x001F);
    assert_eq!(reg.coarse_y(), 0x03E0);
    assert_eq!(reg.nametbl_x(), 0x0400);
    assert_eq!(reg.nametbl_y(), 0x0800);
    assert_eq!(reg.fine_y(), 0x7000);
}
