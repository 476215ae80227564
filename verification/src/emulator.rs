//! Frame pacer: a four-state machine that batches emulated cycles into
//! frames and clocks them to wall time. The host hands each tick the
//! cycle count the processor reported and the current monotonic time in
//! nanoseconds; the pacer never sleeps, it only compares timestamps.

use vstd::prelude::*;
use crate::soc::{Soc, spec_soc_step_rel};

verus! {

pub const SCREEN_HEIGHT: usize = 144;
pub const SCREEN_WIDTH: usize = 160;

pub const ONE_FRAME_IN_CYCLES: usize = 70224;

/// One frame of 70224 cycles at the 4194304 Hz master clock, in
/// nanoseconds, rounded down.
pub const ONE_FRAME_IN_NS: u64 = 16742706;

#[derive(Copy, Clone, Debug, PartialEq, Eq, Structural)]
pub enum EmulatorState {
    GetTime,
    RunMachine,
    WaitNextFrame,
    DisplayFrame,
}

pub struct Emulator {
    /// The emulated hardware.
    pub soc: Soc,
    /// Where the pacer stands: record the frame's start time, run the
    /// machine for one frame of cycles, wait the frame's wall time out,
    /// signal the frame, again.
    pub state: EmulatorState,
    /// Cycles run so far in the current frame, always below one frame.
    pub cycles_elapsed_in_frame: usize,
    /// The monotonic timestamp recorded when the frame began.
    pub frame_start_ns: u64,
}


/// How one pacer tick relates the machine before (`pre`) and after
/// (`post`), given the processor's reported cycle count and the host's
/// monotonic clock.
pub open spec fn spec_pacer_rel(pre: Emulator, post: Emulator, cpu_cycles: u8, now_ns: u64)
    -> bool {
    &&& (pre.state == EmulatorState::GetTime ==> {
        &&& post.state == EmulatorState::RunMachine
        &&& post.frame_start_ns == now_ns
        &&& post.soc == pre.soc
        &&& post.cycles_elapsed_in_frame == pre.cycles_elapsed_in_frame
    })
    &&& (pre.state == EmulatorState::RunMachine ==> {
        &&& spec_soc_step_rel(pre.soc, post.soc, cpu_cycles)
        &&& post.frame_start_ns == pre.frame_start_ns
        &&& (if pre.cycles_elapsed_in_frame + cpu_cycles >= ONE_FRAME_IN_CYCLES {
            post.state == EmulatorState::WaitNextFrame && post.cycles_elapsed_in_frame == 0
        } else {
            post.state == EmulatorState::RunMachine && post.cycles_elapsed_in_frame
                == pre.cycles_elapsed_in_frame + cpu_cycles
        })
    })
    &&& (pre.state == EmulatorState::WaitNextFrame ==> {
        &&& post.soc == pre.soc
        &&& post.cycles_elapsed_in_frame == pre.cycles_elapsed_in_frame
        &&& post.frame_start_ns == pre.frame_start_ns
        &&& post.state == (if now_ns >= pre.frame_start_ns + ONE_FRAME_IN_NS {
            EmulatorState::DisplayFrame
        } else {
            EmulatorState::WaitNextFrame
        })
    })
    &&& (pre.state == EmulatorState::DisplayFrame ==> {
        &&& post.soc == pre.soc
        &&& post.cycles_elapsed_in_frame == pre.cycles_elapsed_in_frame
        &&& post.frame_start_ns == pre.frame_start_ns
        &&& post.state == EmulatorState::GetTime
    })
}

impl Emulator {
    pub open spec fn wf(self) -> bool {
        &&& self.soc.bus.wf()
        &&& self.cycles_elapsed_in_frame < ONE_FRAME_IN_CYCLES
    }

    /// A fresh machine with the boot program and cartridge installed,
    /// ready to record its first frame's start time.
    pub fn new(boot_rom: &[u8], rom: &[u8]) -> (e: Emulator)
        ensures
            e.wf(),
            e.state == EmulatorState::GetTime,
            e.cycles_elapsed_in_frame == 0,
            e.frame_start_ns == 0,
            crate::bus::spec_reset_bus(e.soc.bus),
            e.soc.bus.boot_rom@ == crate::bus::spec_padded(boot_rom@, 0x100),
            e.soc.bus.cart_rom@ == crate::bus::spec_padded(rom@, 0x8000),
    {
        let mut soc = Soc::new();
        soc.load(boot_rom, rom);
        Emulator {
            soc,
            state: EmulatorState::GetTime,
            cycles_elapsed_in_frame: 0,
            frame_start_ns: 0,
        }
    }

    /// One pacer tick. `cpu_cycles` is the cycle count the processor
    /// reported for its last instruction, used only while the machine
    /// runs; `now_ns` is the host's monotonic clock, read only when a
    /// frame's start time is recorded and while waiting it out.
    pub fn run(&mut self, cpu_cycles: u8, now_ns: u64)
        requires
            old(self).wf(),
        ensures
            final(self).wf(),
            spec_pacer_rel(*old(self), *final(self), cpu_cycles, now_ns),
    {
        match self.state {
            EmulatorState::GetTime => {
                self.frame_start_ns = now_ns;
                self.state = EmulatorState::RunMachine;
            },
            EmulatorState::RunMachine => {
                let c = self.soc.run(cpu_cycles);
                self.cycles_elapsed_in_frame = self.cycles_elapsed_in_frame + c as usize;
                if self.cycles_elapsed_in_frame >= ONE_FRAME_IN_CYCLES {
                    self.cycles_elapsed_in_frame = 0;
                    self.state = EmulatorState::WaitNextFrame;
                }
            },
            EmulatorState::WaitNextFrame => {
                if now_ns >= self.frame_start_ns && now_ns - self.frame_start_ns
                    >= ONE_FRAME_IN_NS {
                    self.state = EmulatorState::DisplayFrame;
                }
            },
            EmulatorState::DisplayFrame => {
                self.state = EmulatorState::GetTime;
            },
        }
    }

    /// True exactly while the pacer stands on a freshly finished frame:
    /// one tick per frame.
    pub fn frame_ready(&self) -> (r: bool)
        ensures
            r == (self.state == EmulatorState::DisplayFrame),
    {
        if self.state == EmulatorState::DisplayFrame {
            true
        } else {
            false
        }
    }

    /// One pixel of the finished frame.
    pub fn get_frame_buffer(&self, pixel_index: usize) -> (r: u8)
        requires
            self.wf(),
            pixel_index < SCREEN_WIDTH * SCREEN_HEIGHT,
        ensures
            r == self.soc.bus.gpu.frame_buffer@[pixel_index as int],
    {
        self.soc.get_frame_buffer(pixel_index)
    }
}


/// The tick taken while a frame is ready leaves DisplayFrame at once:
/// the ready flag holds for exactly one tick per frame.
pub proof fn lemma_frame_ready_one_tick(pre: Emulator, post: Emulator, cpu_cycles: u8, now_ns: u64)
    requires
        spec_pacer_rel(pre, post, cpu_cycles, now_ns),
        pre.state == EmulatorState::DisplayFrame,
    ensures
        post.state == EmulatorState::GetTime,
{
}

/// A frame becomes ready only out of the waiting state, and only once
/// the frame's wall time has elapsed since the recorded start: the
/// pacer never over-runs the 59.73 Hz cadence.
pub proof fn lemma_frame_ready_needs_wait(
    pre: Emulator,
    post: Emulator,
    cpu_cycles: u8,
    now_ns: u64,
)
    requires
        spec_pacer_rel(pre, post, cpu_cycles, now_ns),
        pre.state != EmulatorState::DisplayFrame,
        post.state == EmulatorState::DisplayFrame,
    ensures
        pre.state == EmulatorState::WaitNextFrame,
        now_ns >= pre.frame_start_ns + ONE_FRAME_IN_NS,
{
}

/// The machine leaves RunMachine only on the tick that completes a full
/// frame of 70224 emulated cycles.
pub proof fn lemma_wait_needs_frame_of_cycles(
    pre: Emulator,
    post: Emulator,
    cpu_cycles: u8,
    now_ns: u64,
)
    requires
        spec_pacer_rel(pre, post, cpu_cycles, now_ns),
        pre.state == EmulatorState::RunMachine,
        post.state == EmulatorState::WaitNextFrame,
    ensures
        pre.cycles_elapsed_in_frame + cpu_cycles >= ONE_FRAME_IN_CYCLES,
{
}

} // verus!
