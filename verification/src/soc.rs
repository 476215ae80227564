//! SoC aggregate: owns the bus with every subsystem behind it and
//! propagates one instruction's cycle budget to the timer and the GPU,
//! forwarding the interrupts they raise to the interrupt controller.
//! The processor itself is external: each `run` call takes the cycle
//! count its last instruction consumed.

use vstd::prelude::*;
use crate::bus::{Bus, spec_reset_bus};
use crate::gpu::{
    Gpu, GpuInterruptRequest, spec_run_outcome, spec_same_static, timing_of,
};
use crate::nvic::{INTERRUPT_LINE_VBLANK, INTERRUPT_LINE_LCDSTAT, INTERRUPT_LINE_TIMER};
use crate::timer::{spec_tima_run, spec_timer_enabled, spec_timer_period, Timer};

verus! {

/// Whether advancing the timer by `cycles` overflows TIMA.
pub open spec fn spec_timer_raised(t: Timer, cycles: u8) -> bool {
    spec_timer_enabled(t.control) && spec_tima_run(
        t.counter,
        t.modulo,
        t.tima_cycles + cycles,
        spec_timer_period(t.control),
        false,
    ).2
}

/// IF after one step: the timer line when TIMA overflowed, then the
/// GPU's joined request.
pub open spec fn spec_flags_after(flag: u8, timer_raised: bool, req: GpuInterruptRequest) -> u8 {
    let f1: u8 = if timer_raised {
        (flag | 4) as u8
    } else {
        flag
    };
    match req {
        GpuInterruptRequest::NoRequest => f1,
        GpuInterruptRequest::VBlank => (f1 | 1) as u8,
        GpuInterruptRequest::LCDStat => (f1 | 2) as u8,
        GpuInterruptRequest::Both => (f1 | 3) as u8,
    }
}

/// How one SoC step relates the state before and after: the timer and
/// the GPU advanced by the instruction's cycles, their interrupts
/// gathered in IF, everything else untouched.
pub open spec fn spec_soc_step_rel(pre: Soc, post: Soc, cycles: u8) -> bool {
    &&& post.bus.boot_rom@ == pre.bus.boot_rom@
    &&& post.bus.cart_rom@ == pre.bus.cart_rom@
    &&& post.bus.wram@ == pre.bus.wram@
    &&& post.bus.hram@ == pre.bus.hram@
    &&& post.bus.boot_rom_latch == pre.bus.boot_rom_latch
    &&& spec_same_static(post.bus.gpu, pre.bus.gpu)
    &&& timing_of(post.bus.gpu) == spec_run_outcome(pre.bus.gpu, cycles).st
    &&& ({
        let t = pre.bus.timer;
        let out = spec_tima_run(
            t.counter,
            t.modulo,
            t.tima_cycles + cycles,
            spec_timer_period(t.control),
            false,
        );
        &&& post.bus.timer.modulo == t.modulo
        &&& post.bus.timer.control == t.control
        &&& post.bus.timer.div_cycles == (t.div_cycles + cycles) % 256
        &&& post.bus.timer.divider == (if t.div_cycles + cycles >= 256 {
            ((t.divider + 1) % 256) as u8
        } else {
            t.divider
        })
        &&& (if spec_timer_enabled(t.control) {
            post.bus.timer.counter == out.0 && post.bus.timer.tima_cycles == out.1
        } else {
            post.bus.timer.counter == t.counter && post.bus.timer.tima_cycles == t.tima_cycles
        })
    })
    &&& post.bus.nvic.interrupt_enable == pre.bus.nvic.interrupt_enable
    &&& post.bus.nvic.interrupt_flag == spec_flags_after(
        pre.bus.nvic.interrupt_flag,
        spec_timer_raised(pre.bus.timer, cycles),
        spec_run_outcome(pre.bus.gpu, cycles).req,
    )
}

pub struct Soc {
    pub bus: Bus,
}

impl Soc {
    pub fn new() -> (s: Soc)
        ensures
            s.bus.wf(),
            spec_reset_bus(s.bus),
            s.bus.boot_rom@ == Seq::new(0x100, |i: int| 0u8),
            s.bus.cart_rom@ == Seq::new(0x8000, |i: int| 0u8),
    {
        Soc { bus: Bus::new() }
    }

    /// Install the boot program and the cartridge image.
    pub fn load(&mut self, boot_rom: &[u8], rom: &[u8])
        requires
            old(self).bus.wf(),
        ensures
            final(self).bus.wf(),
            final(self).bus.boot_rom@ == crate::bus::spec_padded(boot_rom@, 0x100),
            final(self).bus.cart_rom@ == crate::bus::spec_padded(rom@, 0x8000),
            final(self).bus == (Bus {
                boot_rom: final(self).bus.boot_rom,
                cart_rom: final(self).bus.cart_rom,
                ..old(self).bus
            }),
    {
        self.bus.load(boot_rom, rom);
    }

    /// One step of the system around an executed instruction: advance the
    /// timer, then the GPU, by the instruction's `cpu_cycles`; raise the
    /// interrupts they report; hand the cycle count back.
    pub fn run(&mut self, cpu_cycles: u8) -> (c: u8)
        requires
            old(self).bus.wf(),
        ensures
            final(self).bus.wf(),
            c == cpu_cycles,
            spec_soc_step_rel(*old(self), *final(self), cpu_cycles),
    {
        proof {
            assert((1u8 << 0u8) == 1 && (1u8 << 1u8) == 2 && (1u8 << 2u8) == 4) by (bit_vector);
        }
        let timer_raised = self.bus.timer.advance(cpu_cycles);
        if timer_raised {
            self.bus.nvic.request(INTERRUPT_LINE_TIMER);
        }
        let req = self.bus.gpu.run(cpu_cycles);
        match req {
            GpuInterruptRequest::NoRequest => {},
            GpuInterruptRequest::VBlank => {
                self.bus.nvic.request(INTERRUPT_LINE_VBLANK);
            },
            GpuInterruptRequest::LCDStat => {
                self.bus.nvic.request(INTERRUPT_LINE_LCDSTAT);
            },
            GpuInterruptRequest::Both => {
                self.bus.nvic.request(INTERRUPT_LINE_VBLANK);
                self.bus.nvic.request(INTERRUPT_LINE_LCDSTAT);
                proof {
                    let f = old(self).bus.nvic.interrupt_flag;
                    assert(forall|x: u8| ((x | 1) | 2) == (x | 3) as u8) by (bit_vector);
                }
            },
        }
        cpu_cycles
    }

    /// One pixel of the GPU's frame buffer.
    pub fn get_frame_buffer(&self, pixel_index: usize) -> (r: u8)
        requires
            self.bus.wf(),
            pixel_index < 160 * 144,
        ensures
            r == self.bus.gpu.frame_buffer@[pixel_index as int],
    {
        self.bus.gpu.frame_buffer[pixel_index]
    }
}

} // verus!
