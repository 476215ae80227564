//! Memory bus: decodes 16-bit addresses onto the boot ROM, the cartridge
//! ROM, WRAM with its echo, HRAM, the GPU's VRAM/OAM/registers, the timer
//! and the interrupt controller. Unmapped reads yield 0xFF; unmapped
//! writes are discarded.

use vstd::prelude::*;
use crate::gpu::{Gpu, spec_read_lcd, spec_reset_gpu, spec_write_lcd};
use crate::nvic::Nvic;
use crate::timer::Timer;

verus! {

pub const VRAM_BEGIN: u16 = 0x8000;
pub const VRAM_END: u16 = 0x9FFF;
pub const VRAM_SIZE: usize = 0x2000;
pub const OAM_BEGIN: u16 = 0xFE00;
pub const OAM_SIZE: usize = 0xA0;
pub const WRAM_SIZE: usize = 0x2000;
pub const HRAM_SIZE: usize = 0x7F;
pub const BOOT_ROM_SIZE: usize = 0x100;
pub const CART_ROM_SIZE: usize = 0x8000;

pub struct Bus {
    /// The 256-byte boot program, overlaid on 0x0000..0x0100 while the
    /// latch at 0xFF50 still reads 0.
    pub boot_rom: Vec<u8>,
    /// The flat 32 KiB cartridge image at 0x0000..0x8000.
    pub cart_rom: Vec<u8>,
    /// Work RAM at 0xC000..0xE000, echoed at 0xE000..0xFE00.
    pub wram: Vec<u8>,
    /// High RAM at 0xFF80..0xFFFF.
    pub hram: Vec<u8>,
    /// The boot ROM latch at 0xFF50: nonzero once the boot program is
    /// unmapped.
    pub boot_rom_latch: u8,
    pub gpu: Gpu,
    pub nvic: Nvic,
    pub timer: Timer,
}

impl Bus {
    pub open spec fn wf(self) -> bool {
        &&& self.boot_rom@.len() == BOOT_ROM_SIZE
        &&& self.cart_rom@.len() == CART_ROM_SIZE
        &&& self.wram@.len() == WRAM_SIZE
        &&& self.hram@.len() == HRAM_SIZE
        &&& self.gpu.wf()
        &&& self.timer.wf()
    }

    /// What a read of `address` returns: the address decoding table,
    /// priority top-down.
    pub open spec fn spec_read(self, address: u16) -> u8 {
        if address < 0x100 && self.boot_rom_latch == 0 {
            self.boot_rom@[address as int]
        } else if address < 0x8000 {
            self.cart_rom@[address as int]
        } else if address < 0xA000 {
            self.gpu.vram@[address - 0x8000]
        } else if address < 0xC000 {
            0xFF
        } else if address < 0xE000 {
            self.wram@[address - 0xC000]
        } else if address < 0xFE00 {
            self.wram@[address - 0xE000]
        } else if address < 0xFEA0 {
            self.gpu.oam@[address - 0xFE00]
        } else if address < 0xFF00 {
            0xFF
        } else if 0xFF04 <= address <= 0xFF07 {
            if address == 0xFF04 {
                self.timer.divider
            } else if address == 0xFF05 {
                self.timer.counter
            } else if address == 0xFF06 {
                self.timer.modulo
            } else {
                self.timer.control
            }
        } else if address == 0xFF0F {
            self.nvic.interrupt_flag
        } else if 0xFF40 <= address <= 0xFF4B {
            spec_read_lcd(self.gpu, address)
        } else if address == 0xFF50 {
            self.boot_rom_latch
        } else if address < 0xFF80 {
            0xFF
        } else if address < 0xFFFF {
            self.hram@[address - 0xFF80]
        } else {
            self.nvic.interrupt_enable
        }
    }

    /// How a write of `data` to `address` relates the bus before (`self`)
    /// and after (`post`): ROM and unmapped addresses discard the write;
    /// the echo region writes through to WRAM.
    pub open spec fn spec_write_rel(self, post: Bus, address: u16, data: u8) -> bool {
        if address < 0x8000 {
            post == self
        } else if address < 0xA000 {
            &&& post == (Bus { gpu: post.gpu, ..self })
            &&& post.gpu == (Gpu { vram: post.gpu.vram, ..self.gpu })
            &&& post.gpu.vram@ == self.gpu.vram@.update(address - 0x8000, data)
        } else if address < 0xC000 {
            post == self
        } else if address < 0xE000 {
            &&& post == (Bus { wram: post.wram, ..self })
            &&& post.wram@ == self.wram@.update(address - 0xC000, data)
        } else if address < 0xFE00 {
            &&& post == (Bus { wram: post.wram, ..self })
            &&& post.wram@ == self.wram@.update(address - 0xE000, data)
        } else if address < 0xFEA0 {
            &&& post == (Bus { gpu: post.gpu, ..self })
            &&& post.gpu == (Gpu { oam: post.gpu.oam, ..self.gpu })
            &&& post.gpu.oam@ == self.gpu.oam@.update(address - 0xFE00, data)
        } else if address < 0xFF00 {
            post == self
        } else if 0xFF04 <= address <= 0xFF07 {
            post == (Bus {
                timer: if address == 0xFF04 {
                    Timer { divider: 0, div_cycles: 0, ..self.timer }
                } else if address == 0xFF05 {
                    Timer { counter: data, ..self.timer }
                } else if address == 0xFF06 {
                    Timer { modulo: data, ..self.timer }
                } else {
                    Timer { control: data, tima_cycles: 0, ..self.timer }
                },
                ..self
            })
        } else if address == 0xFF0F {
            post == (Bus { nvic: Nvic { interrupt_flag: data, ..self.nvic }, ..self })
        } else if 0xFF40 <= address <= 0xFF4B {
            post == (Bus { gpu: spec_write_lcd(self.gpu, address, data), ..self })
        } else if address == 0xFF50 {
            post == (Bus { boot_rom_latch: data, ..self })
        } else if address < 0xFF80 {
            post == self
        } else if address < 0xFFFF {
            &&& post == (Bus { hram: post.hram, ..self })
            &&& post.hram@ == self.hram@.update(address - 0xFF80, data)
        } else {
            post == (Bus { nvic: Nvic { interrupt_enable: data, ..self.nvic }, ..self })
        }
    }

    /// Read one byte anywhere in the 16-bit address space.
    pub fn read(&self, address: u16) -> (r: u8)
        requires
            self.wf(),
        ensures
            r == self.spec_read(address),
    {
        if address < 0x100 && self.boot_rom_latch == 0 {
            self.boot_rom[address as usize]
        } else if address < 0x8000 {
            self.cart_rom[address as usize]
        } else if address < 0xA000 {
            self.gpu.read_vram(address - 0x8000)
        } else if address < 0xC000 {
            0xFF
        } else if address < 0xE000 {
            self.wram[(address - 0xC000) as usize]
        } else if address < 0xFE00 {
            // echo RAM aliases 0xC000..0xDE00
            self.wram[(address - 0xE000) as usize]
        } else if address < 0xFEA0 {
            self.gpu.read_oam((address - 0xFE00) as usize)
        } else if address < 0xFF00 {
            0xFF
        } else if 0xFF04 <= address && address <= 0xFF07 {
            self.timer.read_register(address)
        } else if address == 0xFF0F {
            self.nvic.interrupt_flag
        } else if 0xFF40 <= address && address <= 0xFF4B {
            self.gpu.read_lcd_register(address)
        } else if address == 0xFF50 {
            self.boot_rom_latch
        } else if address < 0xFF80 {
            0xFF
        } else if address < 0xFFFF {
            self.hram[(address - 0xFF80) as usize]
        } else {
            self.nvic.interrupt_enable
        }
    }

    /// Write one byte anywhere in the 16-bit address space.
    pub fn write(&mut self, address: u16, data: u8)
        requires
            old(self).wf(),
        ensures
            final(self).wf(),
            old(self).spec_write_rel(*final(self), address, data),
    {
        if address < 0x8000 {
            // ROM: discarded
        } else if address < 0xA000 {
            self.gpu.write_vram(address - 0x8000, data);
        } else if address < 0xC000 {
            // external cartridge RAM: unmapped here
        } else if address < 0xE000 {
            self.wram.set((address - 0xC000) as usize, data);
        } else if address < 0xFE00 {
            self.wram.set((address - 0xE000) as usize, data);
        } else if address < 0xFEA0 {
            self.gpu.write_oam((address - 0xFE00) as usize, data);
        } else if address < 0xFF00 {
            // unmapped I/O below the register file
        } else if 0xFF04 <= address && address <= 0xFF07 {
            self.timer.write_register(address, data);
        } else if address == 0xFF0F {
            self.nvic.interrupt_flag = data;
        } else if 0xFF40 <= address && address <= 0xFF4B {
            self.gpu.write_lcd_register(address, data);
        } else if address == 0xFF50 {
            self.boot_rom_latch = data;
        } else if address < 0xFF80 {
            // unmapped
        } else if address < 0xFFFF {
            self.hram.set((address - 0xFF80) as usize, data);
        } else {
            self.nvic.interrupt_enable = data;
        }
    }
}

/// `src` stretched or cut to length `n`: bytes past the end of `src`
/// read 0xFF, as a cartridge bus with nothing driving it does.
pub open spec fn spec_padded(src: Seq<u8>, n: int) -> Seq<u8> {
    Seq::new(
        n as nat,
        |i: int|
            if i < src.len() {
                src[i]
            } else {
                0xFF
            },
    )
}

fn padded_vec(src: &[u8], n: usize) -> (v: Vec<u8>)
    ensures
        v@ == spec_padded(src@, n as int),
{
    let mut v: Vec<u8> = Vec::new();
    let mut i: usize = 0;
    while i < n
        invariant
            i <= n,
            v@ == spec_padded(src@, i as int),
        decreases n - i,
    {
        if i < src.len() {
            v.push(src[i]);
        } else {
            v.push(0xFF);
        }
        i = i + 1;
        proof {
            assert(v@ =~= spec_padded(src@, i as int));
        }
    }
    v
}

fn byte_vec(n: usize, value: u8) -> (v: Vec<u8>)
    ensures
        v@ == Seq::new(n as nat, |i: int| value),
{
    let mut v: Vec<u8> = Vec::new();
    let mut i: usize = 0;
    while i < n
        invariant
            i <= n,
            v@ == Seq::new(i as nat, |j: int| value),
        decreases n - i,
    {
        v.push(value);
        i = i + 1;
        proof {
            assert(v@ =~= Seq::new(i as nat, |j: int| value));
        }
    }
    v
}

/// The machine exactly as `Bus::new` leaves it, apart from the two ROM
/// images: zeroed RAMs, the boot overlay still armed, and the GPU, the
/// timer and the interrupt controller in their reset states.
pub open spec fn spec_reset_bus(b: Bus) -> bool {
    &&& b.wram@ == Seq::new(WRAM_SIZE as nat, |i: int| 0u8)
    &&& b.hram@ == Seq::new(HRAM_SIZE as nat, |i: int| 0u8)
    &&& b.boot_rom_latch == 0
    &&& spec_reset_gpu(b.gpu)
    &&& b.nvic.interrupt_enable == 0
    &&& b.nvic.interrupt_flag == 0
    &&& b.timer == (Timer {
        divider: 0,
        counter: 0,
        modulo: 0,
        control: 0,
        div_cycles: 0,
        tima_cycles: 0,
    })
}

impl Bus {
    /// A bus over zeroed memories, an unwritten boot ROM latch and a
    /// freshly reset GPU, timer and interrupt controller.
    pub fn new() -> (b: Bus)
        ensures
            b.wf(),
            spec_reset_bus(b),
            b.boot_rom@ == Seq::new(BOOT_ROM_SIZE as nat, |i: int| 0u8),
            b.cart_rom@ == Seq::new(CART_ROM_SIZE as nat, |i: int| 0u8),
    {
        Bus {
            boot_rom: byte_vec(BOOT_ROM_SIZE, 0),
            cart_rom: byte_vec(CART_ROM_SIZE, 0),
            wram: byte_vec(WRAM_SIZE, 0),
            hram: byte_vec(HRAM_SIZE, 0),
            boot_rom_latch: 0,
            gpu: Gpu::new(),
            nvic: Nvic::new(),
            timer: Timer::new(),
        }
    }

    /// Install the boot program and the cartridge image: the boot ROM is
    /// 256 bytes, the cartridge 32 KiB; missing bytes read 0xFF, extra
    /// bytes are ignored.
    pub fn load(&mut self, boot_rom: &[u8], rom: &[u8])
        requires
            old(self).wf(),
        ensures
            final(self).wf(),
            final(self).boot_rom@ == spec_padded(boot_rom@, BOOT_ROM_SIZE as int),
            final(self).cart_rom@ == spec_padded(rom@, CART_ROM_SIZE as int),
            *final(self) == (Bus {
                boot_rom: final(self).boot_rom,
                cart_rom: final(self).cart_rom,
                ..*old(self)
            }),
    {
        self.boot_rom = padded_vec(boot_rom, BOOT_ROM_SIZE);
        self.cart_rom = padded_vec(rom, CART_ROM_SIZE);
    }
}

/// Echo RAM, reads: every address in [0xE000, 0xFE00) reads the same
/// byte as the address 0x2000 below it, in every reachable bus state ---
/// so in particular after any sequence of writes.
pub proof fn lemma_echo_read(b: Bus, address: u16)
    requires
        b.wf(),
        0xE000 <= address < 0xFE00,
    ensures
        b.spec_read(address) == b.spec_read((address - 0x2000) as u16),
{
}

/// Echo RAM, writes: a write into [0xE000, 0xFE00) changes the bus
/// exactly as the same write 0x2000 below does.
pub proof fn lemma_echo_write(b: Bus, post: Bus, address: u16, data: u8)
    requires
        b.wf(),
        0xE000 <= address < 0xFE00,
    ensures
        b.spec_write_rel(post, address, data) == b.spec_write_rel(
            post,
            (address - 0x2000) as u16,
            data,
        ),
{
}

} // verus!
