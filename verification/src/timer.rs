//! Timer: DIV increments every 256 master cycles; TIMA increments at the
//! frequency TAC selects when TAC bit 2 is set, and on overflow reloads
//! from TMA and raises the timer interrupt line.

use vstd::prelude::*;

verus! {

/// TIMA's period in master cycles for a TAC value: the selected
/// frequencies are {4096, 262144, 65536, 16384} Hz of the 4194304 Hz
/// master clock.
pub open spec fn spec_timer_period(control: u8) -> int {
    if control & 3 == 0 {
        1024
    } else if control & 3 == 1 {
        16
    } else if control & 3 == 2 {
        64
    } else {
        256
    }
}

pub open spec fn spec_timer_enabled(control: u8) -> bool {
    control & 4 == 4
}

/// TIMA after `cycles` pending cycles tick it with period `period`: each
/// period consumed increments the counter; 0xFF wraps to the TMA value
/// and raises the interrupt. Returns (counter, pending cycles, raised).
pub open spec fn spec_tima_run(counter: u8, modulo: u8, cycles: int, period: int, raised: bool)
    -> (u8, int, bool)
    decreases cycles,
{
    if cycles >= period && period >= 1 {
        if counter == 255 {
            spec_tima_run(modulo, modulo, cycles - period, period, true)
        } else {
            spec_tima_run((counter + 1) as u8, modulo, cycles - period, period, raised)
        }
    } else {
        (counter, cycles, raised)
    }
}

pub struct Timer {
    /// 0xFF04: DIV.
    pub divider: u8,
    /// 0xFF05: TIMA.
    pub counter: u8,
    /// 0xFF06: TMA.
    pub modulo: u8,
    /// 0xFF07: TAC.
    pub control: u8,
    /// Master cycles accumulated toward the next DIV increment.
    pub div_cycles: u16,
    /// Master cycles accumulated toward the next TIMA increment.
    pub tima_cycles: u16,
}

impl Timer {
    /// Between advances each accumulator is below its period.
    pub open spec fn wf(self) -> bool {
        &&& self.div_cycles < 256
        &&& self.tima_cycles < spec_timer_period(self.control)
    }

    pub fn new() -> (t: Timer)
        ensures
            t.wf(),
            t.divider == 0,
            t.counter == 0,
            t.modulo == 0,
            t.control == 0,
            t.div_cycles == 0,
            t.tima_cycles == 0,
    {
        Timer { divider: 0, counter: 0, modulo: 0, control: 0, div_cycles: 0, tima_cycles: 0 }
    }

    /// TIMA's period in master cycles under the current TAC value.
    fn period(&self) -> (p: u16)
        ensures
            p == spec_timer_period(self.control),
            p >= 16,
    {
        if self.control & 3 == 0 {
            1024
        } else if self.control & 3 == 1 {
            16
        } else if self.control & 3 == 2 {
            64
        } else {
            256
        }
    }

    /// Advance the timer by `cycles` master cycles; true when TIMA
    /// overflowed and the timer interrupt is to be raised.
    pub fn advance(&mut self, cycles: u8) -> (raised: bool)
        requires
            old(self).wf(),
        ensures
            final(self).wf(),
            final(self).modulo == old(self).modulo,
            final(self).control == old(self).control,
            final(self).div_cycles == (old(self).div_cycles + cycles) % 256,
            final(self).divider == (if old(self).div_cycles + cycles >= 256 {
                ((old(self).divider + 1) % 256) as u8
            } else {
                old(self).divider
            }),
            ({
                let out = spec_tima_run(
                    old(self).counter,
                    old(self).modulo,
                    old(self).tima_cycles + cycles,
                    spec_timer_period(old(self).control),
                    false,
                );
                if spec_timer_enabled(old(self).control) {
                    &&& final(self).counter == out.0
                    &&& final(self).tima_cycles == out.1
                    &&& raised == out.2
                } else {
                    &&& final(self).counter == old(self).counter
                    &&& final(self).tima_cycles == old(self).tima_cycles
                    &&& raised == false
                }
            }),
    {
        self.div_cycles = self.div_cycles + cycles as u16;
        if self.div_cycles >= 256 {
            self.divider = self.divider.wrapping_add(1);
            self.div_cycles = self.div_cycles - 256;
        }
        let mut raised = false;
        if self.control & 4 == 4 {
            let ghost snap = *self;
            let ghost cyc0 = self.tima_cycles + cycles;
            self.tima_cycles = self.tima_cycles + cycles as u16;
            let period = self.period();
            while self.tima_cycles >= period
                invariant
                    period == spec_timer_period(snap.control),
                    period >= 16,
                    self.control == snap.control,
                    self.modulo == snap.modulo,
                    self.divider == snap.divider,
                    self.div_cycles == snap.div_cycles,
                    spec_tima_run(snap.counter, snap.modulo, cyc0, period as int, false)
                        == spec_tima_run(
                        self.counter,
                        self.modulo,
                        self.tima_cycles as int,
                        period as int,
                        raised,
                    ),
                decreases self.tima_cycles,
            {
                self.tima_cycles = self.tima_cycles - period;
                if self.counter == 255 {
                    self.counter = self.modulo;
                    raised = true;
                } else {
                    self.counter = self.counter + 1;
                }
            }
        }
        raised
    }

    /// Read one of the four timer registers (0xFF04..=0xFF07).
    pub fn read_register(&self, address: u16) -> (r: u8)
        requires
            0xFF04 <= address <= 0xFF07,
        ensures
            address == 0xFF04 ==> r == self.divider,
            address == 0xFF05 ==> r == self.counter,
            address == 0xFF06 ==> r == self.modulo,
            address == 0xFF07 ==> r == self.control,
    {
        if address == 0xFF04 {
            self.divider
        } else if address == 0xFF05 {
            self.counter
        } else if address == 0xFF06 {
            self.modulo
        } else {
            self.control
        }
    }

    /// Write one of the four timer registers. Any write to DIV resets it
    /// and its accumulator; a TAC write restarts the TIMA accumulator so
    /// the new frequency starts a fresh period.
    pub fn write_register(&mut self, address: u16, data: u8)
        requires
            old(self).wf(),
            0xFF04 <= address <= 0xFF07,
        ensures
            final(self).wf(),
            address == 0xFF04 ==> *final(self) == (Timer {
                divider: 0,
                div_cycles: 0,
                ..*old(self)
            }),
            address == 0xFF05 ==> *final(self) == (Timer { counter: data, ..*old(self) }),
            address == 0xFF06 ==> *final(self) == (Timer { modulo: data, ..*old(self) }),
            address == 0xFF07 ==> *final(self) == (Timer {
                control: data,
                tima_cycles: 0,
                ..*old(self)
            }),
    {
        if address == 0xFF04 {
            self.divider = 0;
            self.div_cycles = 0;
        } else if address == 0xFF05 {
            self.counter = data;
        } else if address == 0xFF06 {
            self.modulo = data;
        } else {
            self.control = data;
            self.tima_cycles = 0;
        }
    }
}

} // verus!
