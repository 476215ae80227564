//! Interrupt controller: holds the IE (interrupt enable) and IF (interrupt
//! flag) registers. Only the low 5 bits are defined, in this order from
//! bit 0: VBlank, LCDStat, Timer, Serial, Joypad.

use vstd::prelude::*;

verus! {

/// Interrupt line numbers, bit 0 having the highest priority.
pub const INTERRUPT_LINE_VBLANK: u8 = 0;
pub const INTERRUPT_LINE_LCDSTAT: u8 = 1;
pub const INTERRUPT_LINE_TIMER: u8 = 2;
pub const INTERRUPT_LINE_SERIAL: u8 = 3;
pub const INTERRUPT_LINE_JOYPAD: u8 = 4;

/// The interrupt controller. IE lives at 0xFFFF, IF at 0xFF0F.
pub struct Nvic {
    pub interrupt_enable: u8,
    pub interrupt_flag: u8,
}

impl Nvic {
    pub fn new() -> (r: Nvic)
        ensures
            r.interrupt_enable == 0,
            r.interrupt_flag == 0,
    {
        Nvic { interrupt_enable: 0, interrupt_flag: 0 }
    }

    /// Raise the interrupt line `line` by setting its bit in IF.
    pub fn request(&mut self, line: u8)
        requires
            line < 5,
        ensures
            final(self).interrupt_flag == old(self).interrupt_flag | (1u8 << line),
            final(self).interrupt_enable == old(self).interrupt_enable,
    {
        self.interrupt_flag = self.interrupt_flag | (1u8 << line);
    }

    /// The set of interrupt lines that are both enabled and raised.
    pub fn pending(&self) -> (r: u8)
        ensures
            r == (self.interrupt_enable & self.interrupt_flag & 0x1f),
    {
        self.interrupt_enable & self.interrupt_flag & 0x1f
    }
}

} // verus!
