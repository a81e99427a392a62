use vstd::prelude::*;
use crate::registers::{bit_of, with_bit};

verus! {

/// The last dot of a scanline, and the last scanline of a frame.
pub const HORIZONTAL_LIMIT: i32 = 340;
pub const VERTICAL_LIMIT: i32 = 260;
/// The scanline a fresh picture unit starts on (the pre-render line).
pub const PRE_RENDER_LINE: i32 = 261;

/// The picture unit's control register.
#[derive(Debug, Copy, Clone, PartialEq, Eq, Structural)]
pub struct PpuCtrl(pub u8);

impl PpuCtrl {
    pub fn new() -> (r: Self)
        ensures
            r.0 == 0,
    {
        PpuCtrl(0)
    }

    pub fn reset(&mut self)
        ensures
            final(self).0 == 0,
    {
        self.0 = 0;
    }

    /// Whether the data port steps by a row (32) rather than by one.
    pub fn vram_increment_mode(&self) -> (r: bool)
        ensures
            r == bit_of(self.0, 2),
    {
        (self.0 & (1u8 << 2u8)) != 0
    }

    /// Whether a non-maskable interrupt is raised at vertical blank.
    pub fn nmi_enabled(&self) -> (r: bool)
        ensures
            r == bit_of(self.0, 7),
    {
        (self.0 & (1u8 << 7u8)) != 0
    }
}

/// The picture unit's mask register.
#[derive(Debug, Copy, Clone, PartialEq, Eq, Structural)]
pub struct PpuMask(pub u8);

impl PpuMask {
    pub fn new() -> (r: Self)
        ensures
            r.0 == 0,
    {
        PpuMask(0)
    }

    pub fn reset(&mut self)
        ensures
            final(self).0 == 0,
    {
        self.0 = 0;
    }
}

/// The picture unit's status register.
#[derive(Debug, Copy, Clone, PartialEq, Eq, Structural)]
pub struct PpuStatus(pub u8);

impl PpuStatus {
    pub fn new() -> (r: Self)
        ensures
            r.0 == 0,
    {
        PpuStatus(0)
    }

    pub fn reset(&mut self)
        ensures
            final(self).0 == 0,
    {
        self.0 = 0;
    }

    /// A read of the status: its top three bits; the vertical-blank flag is
    /// cleared by the read.
    pub fn observe(&mut self) -> (r: u8)
        ensures
            r == old(self).0 & 0xe0,
            final(self).0 == with_bit(old(self).0, 7, false),
    {
        let data: u8 = self.0 & 0xe0;
        self.set_vblank(false);
        data
    }

    pub fn vblank(&self) -> (r: bool)
        ensures
            r == bit_of(self.0, 7),
    {
        (self.0 & (1u8 << 7u8)) != 0
    }

    pub fn set_vblank(&mut self, value: bool)
        ensures
            final(self).0 == with_bit(old(self).0, 7, value),
    {
        if value {
            self.0 = self.0 | (1u8 << 7u8);
        } else {
            self.0 = self.0 & !(1u8 << 7u8);
        }
    }
}

/// The dot being drawn: its scanline and its cycle within the line.
#[derive(Debug, Copy, Clone, PartialEq, Eq, Structural)]
pub struct PpuDot {
    pub scanline: i32,
    pub cycles: i32,
}

impl PpuDot {
    /// The dot stays within a frame: cycles within a line, the scanline from
    /// the line before the frame up to the pre-render line.
    pub open spec fn wf(self) -> bool {
        0 <= self.cycles <= HORIZONTAL_LIMIT && -1 <= self.scanline <= PRE_RENDER_LINE
    }

    pub fn new() -> (r: Self)
        ensures
            r == (PpuDot { scanline: PRE_RENDER_LINE, cycles: 0 }),
            r.wf(),
    {
        PpuDot { scanline: PRE_RENDER_LINE, cycles: 0 }
    }

    pub fn cycles(&self) -> (r: i32)
        ensures
            r == self.cycles,
    {
        self.cycles
    }

    pub fn scanline(&self) -> (r: i32)
        ensures
            r == self.scanline,
    {
        self.scanline
    }

    /// Moves to the next dot: past the last cycle of a line to the start of
    /// the next line, past the last line to line -1; says whether that
    /// ended the frame.
    pub fn update(&mut self) -> (r: bool)
        requires
            old(self).wf(),
        ensures
            final(self).wf(),
            old(self).cycles < HORIZONTAL_LIMIT ==> !r && *final(self) == (PpuDot { cycles: (old(self).cycles + 1) as i32, ..*old(self) }),
            old(self).cycles == HORIZONTAL_LIMIT && old(self).scanline < VERTICAL_LIMIT ==> !r && *final(self) == (PpuDot { cycles: 0i32, scanline: (old(self).scanline + 1) as i32 }),
            old(self).cycles == HORIZONTAL_LIMIT && old(self).scanline >= VERTICAL_LIMIT ==> r && *final(self) == (PpuDot { cycles: 0i32, scanline: -1i32 }),
    {
        self.cycles = self.cycles + 1;
        if self.cycles > HORIZONTAL_LIMIT {
            self.cycles = 0;
            self.scanline = self.scanline + 1;
            if self.scanline > VERTICAL_LIMIT {
                self.scanline = -1;
                return true;
            }
        }
        false
    }

    pub fn reset_cycles(&mut self)
        ensures
            *final(self) == (PpuDot { cycles: 0i32, ..*old(self) }),
    {
        self.cycles = 0;
    }

    pub fn reset_scanline(&mut self)
        ensures
            *final(self) == (PpuDot { scanline: -1i32, ..*old(self) }),
    {
        self.scanline = -1;
    }

    pub fn reset(&mut self)
        ensures
            *final(self) == (PpuDot { cycles: 0i32, scanline: -1i32 }),
    {
        self.reset_cycles();
        self.reset_scanline();
    }
}

/// The fifteen-bit scroll address register: coarse X in bits 0-4, coarse Y
/// in bits 5-9, the name table in bits 10-11, fine Y in bits 12-14.
#[derive(Debug, Copy, Clone, PartialEq, Eq, Structural)]
pub struct LoopyReg(pub u16);

impl LoopyReg {
    pub fn new() -> (r: Self)
        ensures
            r.0 == 0,
    {
        LoopyReg(0)
    }

    pub fn set(&mut self, value: u16)
        ensures
            final(self).0 == value,
    {
        self.0 = value;
    }

    pub fn coarse_x(&self) -> (r: u16)
        ensures
            r == self.0 & 0x001f,
    {
        self.0 & 0x001f
    }

    pub fn coarse_y(&self) -> (r: u16)
        ensures
            r == self.0 & 0x03e0,
    {
        self.0 & 0x03e0
    }

    pub fn nametbl_x(&self) -> (r: u16)
        ensures
            r == self.0 & 0x0400,
    {
        self.0 & 0x0400
    }

    pub fn nametbl_y(&self) -> (r: u16)
        ensures
            r == self.0 & 0x0800,
    {
        self.0 & 0x0800
    }

    pub fn fine_y(&self) -> (r: u16)
        ensures
            r == self.0 & 0x7000,
    {
        self.0 & 0x7000
    }
}

/// The registers of the picture unit.
pub struct PpuRegSet {
    pub control_reg: PpuCtrl,
    pub mask_reg: PpuMask,
    pub status_reg: PpuStatus,
    pub dot: PpuDot,
    pub t_addr: LoopyReg,
    pub v_addr: LoopyReg,
}

impl PpuRegSet {
    pub open spec fn wf(&self) -> bool {
        self.dot.wf()
    }

    pub fn new() -> (r: Self)
        ensures
            r.control_reg.0 == 0 && r.mask_reg.0 == 0 && r.status_reg.0 == 0,
            r.dot == (PpuDot { scanline: PRE_RENDER_LINE, cycles: 0 }),
            r.t_addr.0 == 0 && r.v_addr.0 == 0,
            r.wf(),
    {
        PpuRegSet {
            dot: PpuDot::new(),
            status_reg: PpuStatus::new(),
            mask_reg: PpuMask::new(),
            control_reg: PpuCtrl::new(),
            t_addr: LoopyReg::new(),
            v_addr: LoopyReg::new(),
        }
    }

    /// Clears the control, mask and status registers and puts the dot at the
    /// start of line -1; the scroll addresses are kept.
    pub fn reset(&mut self)
        ensures
            final(self).control_reg.0 == 0 && final(self).mask_reg.0 == 0 && final(self).status_reg.0 == 0,
            final(self).dot == (PpuDot { cycles: 0i32, scanline: -1i32 }),
            final(self).t_addr == old(self).t_addr && final(self).v_addr == old(self).v_addr,
            final(self).wf(),
    {
        self.control_reg.reset();
        self.mask_reg.reset();
        self.status_reg.reset();
        self.dot.reset();
    }
}

} // verus!
