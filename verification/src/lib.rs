//! Core of a Game Boy (DMG) emulator: the GPU mode machine and scanline
//! renderer, the memory bus with its mirroring rules, the interrupt
//! controller, the timer, and the frame pacer that clocks emulated cycles
//! to wall time.

use vstd::prelude::*;

pub mod bus;
pub mod debug;
pub mod emulator;
pub mod gpu;
pub mod nvic;
pub mod soc;
pub mod timer;

verus! {

} // verus!
