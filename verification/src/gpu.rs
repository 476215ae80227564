//! GPU (PPU): the mode state machine that paces scanlines, the background
//! scanline renderer that turns VRAM tile data into pixels, and the LCD
//! registers that configure both.

use vstd::prelude::*;
use crate::bus::{VRAM_SIZE, OAM_SIZE};

verus! {

pub const SCREEN_WIDTH: usize = 160;
pub const SCREEN_HEIGHT: usize = 144;

/// Cycles one visible scanline spends in each mode, and one whole frame.
pub const OAM_SCAN_CYCLES: u16 = 80;
pub const DRAW_PIXEL_CYCLES: u16 = 172;
pub const HORIZONTAL_BLANK_CYCLES: u16 = 204;
/// One vertical-blank line; ten of them make the 4560-cycle vertical blank.
pub const VERTICAL_BLANK_LINE_CYCLES: u16 = 456;
pub const ONE_FRAME_IN_CYCLES: u32 = 70224;

pub const LAST_LINE_TO_DRAW: u8 = 143;
pub const LAST_VERTICAL_BLANK_LINE: u8 = 153;

/// The four shades the LCD can show, as the grayscale byte each one maps to.
#[allow(non_camel_case_types)]
#[derive(Copy, Clone, Debug, PartialEq, Eq, Structural)]
pub enum PixelColor {
    WHITE,
    LIGHT_GRAY,
    DARK_GRAY,
    BLACK,
}

impl PixelColor {
    /// Grayscale byte of this shade: 255, 192, 96 or 0.
    pub open spec fn spec_byte(self) -> u8 {
        match self {
            PixelColor::WHITE => 255,
            PixelColor::LIGHT_GRAY => 192,
            PixelColor::DARK_GRAY => 96,
            PixelColor::BLACK => 0,
        }
    }

    #[verifier::when_used_as_spec(spec_byte)]
    pub fn as_byte(self) -> (r: u8)
        ensures
            r == self.spec_byte(),
    {
        match self {
            PixelColor::WHITE => 255,
            PixelColor::LIGHT_GRAY => 192,
            PixelColor::DARK_GRAY => 96,
            PixelColor::BLACK => 0,
        }
    }

    /// The 2-bit code of this shade in a packed palette register.
    pub open spec fn spec_bits(self) -> u8 {
        match self {
            PixelColor::WHITE => 0,
            PixelColor::LIGHT_GRAY => 1,
            PixelColor::DARK_GRAY => 2,
            PixelColor::BLACK => 3,
        }
    }

    pub open spec fn spec_of_bits(b: u8) -> PixelColor {
        if b == 0 {
            PixelColor::WHITE
        } else if b == 1 {
            PixelColor::LIGHT_GRAY
        } else if b == 2 {
            PixelColor::DARK_GRAY
        } else {
            PixelColor::BLACK
        }
    }

    #[verifier::when_used_as_spec(spec_of_bits)]
    pub fn of_bits(b: u8) -> (c: PixelColor)
        ensures
            c == PixelColor::spec_of_bits(b),
    {
        if b == 0 {
            PixelColor::WHITE
        } else if b == 1 {
            PixelColor::LIGHT_GRAY
        } else if b == 2 {
            PixelColor::DARK_GRAY
        } else {
            PixelColor::BLACK
        }
    }

    #[verifier::when_used_as_spec(spec_bits)]
    pub fn bits(self) -> (r: u8)
        ensures
            r == self.spec_bits(),
    {
        match self {
            PixelColor::WHITE => 0,
            PixelColor::LIGHT_GRAY => 1,
            PixelColor::DARK_GRAY => 2,
            PixelColor::BLACK => 3,
        }
    }
}

/// True of the bytes a background pixel may take: the four shades.
pub open spec fn is_screen_color(b: u8) -> bool {
    b == 0 || b == 96 || b == 192 || b == 255
}

/// An ordered quadruple of shades, indexed by the 2-bit color codes 0..3.
#[derive(Copy, Clone, Debug, PartialEq, Eq, Structural)]
pub struct Palette(pub PixelColor, pub PixelColor, pub PixelColor, pub PixelColor);

impl Palette {
    /// The identity palette: code 0 is white, .., code 3 is black.
    pub open spec fn spec_initial() -> Palette {
        Palette(PixelColor::WHITE, PixelColor::LIGHT_GRAY, PixelColor::DARK_GRAY, PixelColor::BLACK)
    }

    pub fn new() -> (p: Palette)
        ensures
            p == Palette::spec_initial(),
    {
        Palette(PixelColor::WHITE, PixelColor::LIGHT_GRAY, PixelColor::DARK_GRAY, PixelColor::BLACK)
    }

    /// Decoding of a packed palette register: two bits per color slot,
    /// slot 0 in the low bits.
    pub open spec fn spec_decode(b: u8) -> Palette {
        Palette(
            PixelColor::spec_of_bits(b & 3),
            PixelColor::spec_of_bits((b >> 2) & 3),
            PixelColor::spec_of_bits((b >> 4) & 3),
            PixelColor::spec_of_bits((b >> 6) & 3),
        )
    }

    /// Re-encoding of a palette into the packed register byte.
    pub open spec fn spec_encode(self) -> u8 {
        (self.0.spec_bits() | (self.1.spec_bits() << 2) | (self.2.spec_bits() << 4) | (
        self.3.spec_bits() << 6)) as u8
    }

    pub fn decode(b: u8) -> (p: Palette)
        ensures
            p == Palette::spec_decode(b),
    {
        Palette(
            PixelColor::of_bits(b & 3),
            PixelColor::of_bits((b >> 2) & 3),
            PixelColor::of_bits((b >> 4) & 3),
            PixelColor::of_bits((b >> 6) & 3),
        )
    }

    pub fn encode(self) -> (b: u8)
        ensures
            b == self.spec_encode(),
    {
        self.0.bits() | (self.1.bits() << 2) | (self.2.bits() << 4) | (self.3.bits() << 6)
    }
}


/// Writing a palette register and reading it back yields the byte written.
pub proof fn lemma_palette_byte_round_trip(b: u8)
    ensures
        Palette::spec_decode(b).spec_encode() == b,
{
    assert(((b & 3) | (((b >> 2) & 3) << 2) | (((b >> 4) & 3) << 4) | (((b >> 6) & 3) << 6)) as u8
        == b) by (bit_vector);
    assert((b & 3) < 4 && ((b >> 2) & 3) < 4 && ((b >> 4) & 3) < 4 && ((b >> 6) & 3) < 4)
        by (bit_vector);
}

/// Reserved data model for object (sprite) rendering.
#[derive(Copy, Clone, Debug, PartialEq, Eq, Structural)]
pub struct ObjectData {
    pub x: i16,
    pub y: i16,
    pub tile: u8,
    pub palette: Palette,
    pub xflip: bool,
    pub yflip: bool,
    pub priority: bool,
}

/// Fixed offsets applied to an object's raw coordinates.
pub const OBJECT_X_OFFSET: i16 = -8;
pub const OBJECT_Y_OFFSET: i16 = -16;

/// The two VRAM offsets a tile map may start at: 0x1800 (address 0x9800)
/// or 0x1C00 (address 0x9C00).
#[derive(Copy, Clone, Eq, PartialEq, Structural)]
pub enum TileMapArea {
    X9800,
    X9C00,
}

impl TileMapArea {
    pub open spec fn spec_base(self) -> u16 {
        match self {
            TileMapArea::X9800 => 0x1800,
            TileMapArea::X9C00 => 0x1C00,
        }
    }

    #[verifier::when_used_as_spec(spec_base)]
    pub fn base(self) -> (r: u16)
        ensures
            r == self.spec_base(),
    {
        match self {
            TileMapArea::X9800 => 0x1800,
            TileMapArea::X9C00 => 0x1C00,
        }
    }
}

#[derive(Copy, Clone, Eq, PartialEq, Structural)]
pub enum ObjectSize {
    OS8X8,
    OS8X16,
}

/// The mode the GPU stands in; the machine starts in horizontal blank at
/// line 0.
#[derive(Copy, Clone, Debug, Eq, PartialEq, Structural)]
pub enum Mode {
    HorizontalBlank,
    VerticalBlank,
    OAMScan,
    DrawPixel,
}

impl Mode {
    /// The cycle budget a single stay in this mode consumes; for vertical
    /// blank, the budget of one of its ten lines.
    pub open spec fn spec_cycles(self) -> u16 {
        match self {
            Mode::HorizontalBlank => HORIZONTAL_BLANK_CYCLES,
            Mode::VerticalBlank => VERTICAL_BLANK_LINE_CYCLES,
            Mode::OAMScan => OAM_SCAN_CYCLES,
            Mode::DrawPixel => DRAW_PIXEL_CYCLES,
        }
    }

    /// The 2-bit encoding of the mode in the STAT register.
    pub open spec fn spec_stat_bits(self) -> u8 {
        match self {
            Mode::HorizontalBlank => 0,
            Mode::VerticalBlank => 1,
            Mode::OAMScan => 2,
            Mode::DrawPixel => 3,
        }
    }

    #[verifier::when_used_as_spec(spec_stat_bits)]
    pub fn stat_bits(self) -> (r: u8)
        ensures
            r == self.spec_stat_bits(),
    {
        match self {
            Mode::HorizontalBlank => 0,
            Mode::VerticalBlank => 1,
            Mode::OAMScan => 2,
            Mode::DrawPixel => 3,
        }
    }
}

/// The interrupts one GPU advance asks the interrupt controller to raise:
/// a join semilattice over the set {VBlank, LCDStat}.
#[derive(Copy, Clone, Debug, Eq, PartialEq, Structural)]
pub enum GpuInterruptRequest {
    NoRequest,
    VBlank,
    LCDStat,
    Both,
}

/// Join of two interrupt requests: the union of the requested sets.
pub open spec fn spec_join(a: GpuInterruptRequest, b: GpuInterruptRequest) -> GpuInterruptRequest {
    match (a, b) {
        (GpuInterruptRequest::NoRequest, _) => b,
        (_, GpuInterruptRequest::NoRequest) => a,
        (GpuInterruptRequest::Both, _) => GpuInterruptRequest::Both,
        (_, GpuInterruptRequest::Both) => GpuInterruptRequest::Both,
        (GpuInterruptRequest::VBlank, GpuInterruptRequest::LCDStat) => GpuInterruptRequest::Both,
        (GpuInterruptRequest::LCDStat, GpuInterruptRequest::VBlank) => GpuInterruptRequest::Both,
        (GpuInterruptRequest::VBlank, GpuInterruptRequest::VBlank) => GpuInterruptRequest::VBlank,
        (GpuInterruptRequest::LCDStat, GpuInterruptRequest::LCDStat)
            => GpuInterruptRequest::LCDStat,
    }
}

impl GpuInterruptRequest {
    /// Fold another request into this one.
    pub fn add(&mut self, other: GpuInterruptRequest)
        ensures
            *final(self) == spec_join(*old(self), other),
    {
        match (*self, other) {
            (GpuInterruptRequest::NoRequest, _) => {
                *self = other;
            },
            (_, GpuInterruptRequest::NoRequest) => {
            },
            (GpuInterruptRequest::Both, _) => {
            },
            (_, GpuInterruptRequest::Both) => {
                *self = GpuInterruptRequest::Both;
            },
            (GpuInterruptRequest::VBlank, GpuInterruptRequest::LCDStat) => {
                *self = GpuInterruptRequest::Both;
            },
            (GpuInterruptRequest::LCDStat, GpuInterruptRequest::VBlank) => {
                *self = GpuInterruptRequest::Both;
            },
            _ => {
            },
        }
    }
}

/// The join of interrupt requests is commutative.
pub proof fn lemma_join_commutative(a: GpuInterruptRequest, b: GpuInterruptRequest)
    ensures
        spec_join(a, b) == spec_join(b, a),
{
}

/// The join of interrupt requests is idempotent.
pub proof fn lemma_join_idempotent(a: GpuInterruptRequest)
    ensures
        spec_join(a, a) == a,
{
}

/// The join of interrupt requests is associative.
pub proof fn lemma_join_associative(
    a: GpuInterruptRequest,
    b: GpuInterruptRequest,
    c: GpuInterruptRequest,
)
    ensures
        spec_join(spec_join(a, b), c) == spec_join(a, spec_join(b, c)),
{
}

pub struct Gpu {
    /// VRAM: tile data and tile maps, offsets 0x0000..0x2000 (addresses
    /// 0x8000..0xA000).
    pub vram: Vec<u8>,
    /// OAM: object attributes (addresses 0xFE00..0xFEA0).
    pub oam: Vec<u8>,
    // 0xFF40, the LCD control register, decoded.
    pub lcd_display_enabled: bool,
    pub window_tile_map: TileMapArea,
    pub window_display_enabled: bool,
    pub background_tile_data_area: bool,
    pub background_tile_map_area: TileMapArea,
    pub object_size: ObjectSize,
    pub object_display_enabled: bool,
    pub background_display_enabled: bool,
    // 0xFF41, the LCD status register, decoded.
    pub line_compare_it_enable: bool,
    pub oam_interrupt_enabled: bool,
    pub vblank_interrupt_enabled: bool,
    pub hblank_interrupt_enabled: bool,
    pub line_compare_state: bool,
    pub mode: Mode,
    // 0xFF42 - 0xFF43: viewport offsets into the 256x256 background.
    pub viewport_y_offset: u8,
    pub viewport_x_offset: u8,
    // 0xFF44: LY, read-only to the CPU.
    pub current_line: u8,
    // 0xFF45: LYC.
    pub compare_line: u8,
    // 0xFF47 - 0xFF49: palettes, held decoded.
    pub background_palette: Palette,
    pub object_palette_0: Palette,
    pub object_palette_1: Palette,
    // 0xFF4A - 0xFF4B: window position.
    pub window_x_offset: u8,
    pub window_y_offset: u8,
    /// Cycles accumulated toward the current mode's budget.
    pub cycles: u16,
    /// Output: one grayscale byte per screen pixel, row by row.
    pub frame_buffer: Vec<u8>,
}

/// Where the two bytes of a tile row sit in VRAM. `base` is the byte
/// offset of the row within $8000-addressed tile data; $8800 addressing
/// relocates the first 2 KiB (tile ids with the sign bit clear) behind
/// offset 0x1000.
pub open spec fn spec_tile_row_addr(data_area: bool, base: int) -> int {
    if data_area {
        base
    } else if base < 0x800 {
        0x1000 + base
    } else {
        base
    }
}

/// The 2-bit color code of point (fx, fy) on the 256x256 background
/// plane: tile id from the tile map, two bit planes from tile data, one
/// bit from each.
pub open spec fn spec_bg_code(
    vram: Seq<u8>,
    data_area: bool,
    map_base: int,
    fy: u8,
    fx: u8,
) -> u8 {
    let tile_id = vram[map_base + (fy / 8) * 32 + (fx / 8)];
    let addr = spec_tile_row_addr(data_area, tile_id * 16 + (fy % 8) * 2);
    let d0 = vram[addr];
    let d1 = vram[addr + 1];
    let k = (7 - fx % 8) as u8;
    (((d1 >> k) & 1) << 1) | ((d0 >> k) & 1)
}

/// Look a 2-bit color code up in a palette; codes above 3 fall back to
/// slot 0.
pub open spec fn spec_palette_shade(p: Palette, code: u8) -> u8 {
    if code == 0 {
        p.0.spec_byte()
    } else if code == 1 {
        p.1.spec_byte()
    } else if code == 2 {
        p.2.spec_byte()
    } else if code == 3 {
        p.3.spec_byte()
    } else {
        p.0.spec_byte()
    }
}

/// Everything the mode machine reads but never writes while it advances:
/// the memories and the decoded registers.
pub ghost struct FrameEnv {
    pub vram: Seq<u8>,
    pub data_area: bool,
    pub map_base: int,
    pub scx: u8,
    pub scy: u8,
    pub bg_enabled: bool,
    pub palette: Palette,
    pub oam_int: bool,
    pub hblank_int: bool,
    pub vblank_int: bool,
    pub lyc_int: bool,
    pub compare_line: u8,
}

pub open spec fn env_of(g: Gpu) -> FrameEnv {
    FrameEnv {
        vram: g.vram@,
        data_area: g.background_tile_data_area,
        map_base: g.background_tile_map_area.spec_base() as int,
        scx: g.viewport_x_offset,
        scy: g.viewport_y_offset,
        bg_enabled: g.background_display_enabled,
        palette: g.background_palette,
        oam_int: g.oam_interrupt_enabled,
        hblank_int: g.hblank_interrupt_enabled,
        vblank_int: g.vblank_interrupt_enabled,
        lyc_int: g.line_compare_it_enable,
        compare_line: g.compare_line,
    }
}

/// The shade drawn at visible row `y`, column `x`: the viewport offsets
/// wrap the background plane at 256.
pub open spec fn spec_env_shade(env: FrameEnv, y: int, x: int) -> u8 {
    let fy = (y + env.scy) % 256;
    let fx = (x + env.scx) % 256;
    spec_palette_shade(
        env.palette,
        spec_bg_code(env.vram, env.data_area, env.map_base, fy as u8, fx as u8),
    )
}

pub open spec fn spec_bg_shade(g: Gpu, y: int, x: int) -> u8 {
    spec_env_shade(env_of(g), y, x)
}

/// The fields an advance of the mode machine never changes: the
/// renderer's environment, OAM, and the fields the mode machine does not
/// read at all.
pub open spec fn spec_same_static(a: Gpu, b: Gpu) -> bool {
    &&& a.vram@ == b.vram@
    &&& a.background_tile_data_area == b.background_tile_data_area
    &&& a.background_tile_map_area == b.background_tile_map_area
    &&& a.viewport_x_offset == b.viewport_x_offset
    &&& a.viewport_y_offset == b.viewport_y_offset
    &&& a.background_display_enabled == b.background_display_enabled
    &&& a.background_palette == b.background_palette
    &&& a.oam_interrupt_enabled == b.oam_interrupt_enabled
    &&& a.hblank_interrupt_enabled == b.hblank_interrupt_enabled
    &&& a.vblank_interrupt_enabled == b.vblank_interrupt_enabled
    &&& a.line_compare_it_enable == b.line_compare_it_enable
    &&& a.compare_line == b.compare_line
    &&& a.oam@ == b.oam@
    &&& a.lcd_display_enabled == b.lcd_display_enabled
    &&& a.window_tile_map == b.window_tile_map
    &&& a.window_display_enabled == b.window_display_enabled
    &&& a.object_size == b.object_size
    &&& a.object_display_enabled == b.object_display_enabled
    &&& a.object_palette_0 == b.object_palette_0
    &&& a.object_palette_1 == b.object_palette_1
    &&& a.window_x_offset == b.window_x_offset
    &&& a.window_y_offset == b.window_y_offset
}

/// The frame buffer after the line `line` finishes drawing: row
/// line - 1 is repainted when the background layer is enabled and the
/// line is in range; line 0 has no completed row yet and paints nothing.
#[verifier::opaque]
pub open spec fn spec_drawn_row(fb: Seq<u8>, env: FrameEnv, line: int) -> Seq<u8> {
    if env.bg_enabled && 1 <= line <= 144 {
        let y = line - 1;
        Seq::new(
            fb.len(),
            |j: int|
                if y * 160 <= j < y * 160 + 160 {
                    spec_env_shade(env, y, j - y * 160)
                } else {
                    fb[j]
                },
        )
    } else {
        fb
    }
}

/// The frame buffer after one draw_line call.
pub open spec fn spec_draw_line_fb(g: Gpu) -> Seq<u8> {
    spec_drawn_row(g.frame_buffer@, env_of(g), g.current_line as int)
}

/// Every palette lookup lands on one of the four shades.
pub proof fn lemma_palette_shade_is_screen_color(p: Palette, code: u8)
    ensures
        is_screen_color(spec_palette_shade(p, code)),
{
}

/// The GPU exactly as `new` leaves it: zeroed memories and frame
/// buffer, every register cleared, the identity palettes, horizontal
/// blank at line 0 with no cycles pending.
pub open spec fn spec_reset_gpu(g: Gpu) -> bool {
    &&& g.vram@ == Seq::new(VRAM_SIZE as nat, |i: int| 0u8)
    &&& g.oam@ == Seq::new(OAM_SIZE as nat, |i: int| 0u8)
    &&& g.frame_buffer@ == Seq::new((SCREEN_WIDTH * SCREEN_HEIGHT) as nat, |i: int| 0u8)
    &&& g.lcd_display_enabled == false
    &&& g.window_tile_map == TileMapArea::X9800
    &&& g.window_display_enabled == false
    &&& g.background_tile_data_area == false
    &&& g.background_tile_map_area == TileMapArea::X9800
    &&& g.object_size == ObjectSize::OS8X8
    &&& g.object_display_enabled == false
    &&& g.background_display_enabled == false
    &&& g.line_compare_it_enable == false
    &&& g.oam_interrupt_enabled == false
    &&& g.vblank_interrupt_enabled == false
    &&& g.hblank_interrupt_enabled == false
    &&& g.line_compare_state == false
    &&& g.mode == Mode::HorizontalBlank
    &&& g.viewport_y_offset == 0
    &&& g.viewport_x_offset == 0
    &&& g.current_line == 0
    &&& g.compare_line == 0
    &&& g.background_palette == Palette::spec_initial()
    &&& g.object_palette_0 == Palette::spec_initial()
    &&& g.object_palette_1 == Palette::spec_initial()
    &&& g.window_x_offset == 0
    &&& g.window_y_offset == 0
    &&& g.cycles == 0
}

fn zero_vec(n: usize) -> (v: Vec<u8>)
    ensures
        v@ == Seq::new(n as nat, |i: int| 0u8),
{
    let mut v: Vec<u8> = Vec::new();
    let mut i: usize = 0;
    while i < n
        invariant
            i <= n,
            v@ == Seq::new(i as nat, |j: int| 0u8),
        decreases n - i,
    {
        v.push(0);
        i += 1;
        proof {
            assert(v@ =~= Seq::new(i as nat, |j: int| 0u8));
        }
    }
    v
}

impl Gpu {
    /// The memories have their fixed sizes.
    pub open spec fn wf_data(self) -> bool {
        &&& self.vram@.len() == VRAM_SIZE
        &&& self.oam@.len() == OAM_SIZE
        &&& self.frame_buffer@.len() == SCREEN_WIDTH * SCREEN_HEIGHT
    }

    /// Between advances the mode budget is not yet met and the line
    /// matches the mode: vertical blank owns lines 144..153, every other
    /// mode a visible line.
    pub open spec fn wf_timing(self) -> bool {
        &&& self.cycles < self.mode.spec_cycles()
        &&& (self.mode == Mode::VerticalBlank ==> 144 <= self.current_line <= 153)
        &&& (self.mode != Mode::VerticalBlank ==> self.current_line <= 143)
    }

    pub open spec fn wf(self) -> bool {
        self.wf_data() && self.wf_timing()
    }

    pub fn new() -> (g: Gpu)
        ensures
            g.wf(),
            spec_reset_gpu(g),
    {
        Gpu {
            vram: zero_vec(VRAM_SIZE),
            oam: zero_vec(OAM_SIZE),
            lcd_display_enabled: false,
            window_tile_map: TileMapArea::X9800,
            window_display_enabled: false,
            background_tile_data_area: false,
            background_tile_map_area: TileMapArea::X9800,
            object_size: ObjectSize::OS8X8,
            object_display_enabled: false,
            background_display_enabled: false,
            line_compare_it_enable: false,
            oam_interrupt_enabled: false,
            vblank_interrupt_enabled: false,
            hblank_interrupt_enabled: false,
            line_compare_state: false,
            mode: Mode::HorizontalBlank,
            viewport_y_offset: 0,
            viewport_x_offset: 0,
            current_line: 0,
            compare_line: 0,
            background_palette: Palette::new(),
            object_palette_0: Palette::new(),
            object_palette_1: Palette::new(),
            window_x_offset: 0,
            window_y_offset: 0,
            cycles: 0,
            frame_buffer: zero_vec(SCREEN_WIDTH * SCREEN_HEIGHT),
        }
    }

    /// Read one byte of VRAM at an offset in [0, 0x2000).
    pub fn read_vram(&self, address: u16) -> (r: u8)
        requires
            self.wf_data(),
            address < 0x2000,
        ensures
            r == self.vram@[address as int],
    {
        self.vram[address as usize]
    }

    /// Write one byte of VRAM at an offset in [0, 0x2000).
    pub fn write_vram(&mut self, address: u16, data: u8)
        requires
            old(self).wf_data(),
            address < 0x2000,
        ensures
            final(self).vram@ == old(self).vram@.update(address as int, data),
            *final(self) == (Gpu { vram: final(self).vram, ..*old(self) }),
    {
        self.vram.set(address as usize, data);
    }

    /// Write one byte of OAM at an index in [0, 160).
    pub fn write_oam(&mut self, index: usize, data: u8)
        requires
            old(self).wf_data(),
            index < OAM_SIZE,
        ensures
            final(self).oam@ == old(self).oam@.update(index as int, data),
            *final(self) == (Gpu { oam: final(self).oam, ..*old(self) }),
    {
        self.oam.set(index, data);
    }

    /// Read one byte of OAM at an index in [0, 160).
    pub fn read_oam(&self, address: usize) -> (r: u8)
        requires
            self.wf_data(),
            address < OAM_SIZE,
        ensures
            r == self.oam@[address as int],
    {
        self.oam[address]
    }

    /// Fetch the two bit planes of one tile row, high plane first.
    /// `tile_mem_addr` is the tile's base offset within tile data,
    /// `tile_row_offset` the byte offset of the row inside the tile.
    pub fn get_tile_data(&self, tile_mem_addr: u16, tile_row_offset: u16) -> (r: (u8, u8))
        requires
            self.wf_data(),
            tile_mem_addr <= 0xFF0,
            tile_row_offset <= 14,
        ensures
            r.0 == self.vram@[spec_tile_row_addr(
                self.background_tile_data_area,
                tile_mem_addr + tile_row_offset,
            ) + 1],
            r.1 == self.vram@[spec_tile_row_addr(
                self.background_tile_data_area,
                tile_mem_addr + tile_row_offset,
            )],
    {
        if self.background_tile_data_area {
            // $8000 method addressing
            let data_0 = self.read_vram(tile_mem_addr + tile_row_offset);
            let data_1 = self.read_vram(tile_mem_addr + tile_row_offset + 1);
            (data_1, data_0)
        } else {
            // $8800 method addressing
            if tile_mem_addr + tile_row_offset < 0x0800 {
                let data_0 = self.read_vram(0x1000 + tile_mem_addr + tile_row_offset);
                let data_1 = self.read_vram(0x1000 + tile_mem_addr + tile_row_offset + 1);
                (data_1, data_0)
            } else {
                let data_0 = self.read_vram(tile_mem_addr + tile_row_offset);
                let data_1 = self.read_vram(tile_mem_addr + tile_row_offset + 1);
                (data_1, data_0)
            }
        }
    }

    /// Look a 2-bit background color code up in the background palette.
    pub fn get_bg_pixel_color_from_palette(&self, pixel_value: u8) -> (r: u8)
        ensures
            r == spec_palette_shade(self.background_palette, pixel_value),
    {
        match pixel_value {
            0 => self.background_palette.0.as_byte(),
            1 => self.background_palette.1.as_byte(),
            2 => self.background_palette.2.as_byte(),
            3 => self.background_palette.3.as_byte(),
            _ => self.background_palette.0.as_byte(),
        }
    }

    /// Paint the row that the line just completed --- row
    /// current_line - 1 --- from the background tile map, tile data and
    /// viewport. With the background layer disabled, or at line 0, the
    /// frame buffer is left as it is.
    pub fn draw_line(&mut self)
        requires
            old(self).wf_data(),
        ensures
            final(self).wf_data(),
            *final(self) == (Gpu { frame_buffer: final(self).frame_buffer, ..*old(self) }),
            final(self).frame_buffer@ == spec_draw_line_fb(*old(self)),
            forall|j: int|
                0 <= j < final(self).frame_buffer@.len() ==> final(self).frame_buffer@[j] == old(
                    self,
                ).frame_buffer@[j] || is_screen_color(final(self).frame_buffer@[j]),
    {
        let ghost g0 = *self;
        if self.background_display_enabled && self.current_line >= 1 && self.current_line <= 144 {
            let pixel_y_index: u8 = self.current_line - 1;
            let mut pixel_x_index: usize = 0;
            while pixel_x_index < SCREEN_WIDTH
                invariant
                    self.wf_data(),
                    *self == (Gpu { frame_buffer: self.frame_buffer, ..g0 }),
                    g0.wf_data(),
                    g0.background_display_enabled,
                    1 <= g0.current_line <= 144,
                    pixel_y_index == g0.current_line - 1,
                    pixel_x_index <= SCREEN_WIDTH,
                    forall|j: int|
                        0 <= j < self.frame_buffer@.len() ==> self.frame_buffer@[j] == (
                        if pixel_y_index * 160 <= j < pixel_y_index * 160 + pixel_x_index {
                            spec_bg_shade(g0, pixel_y_index as int, j - pixel_y_index * 160)
                        } else {
                            g0.frame_buffer@[j]
                        }),
                decreases SCREEN_WIDTH - pixel_x_index,
            {
                let fy: u8 = pixel_y_index.wrapping_add(self.viewport_y_offset);
                let fx: u8 = (pixel_x_index as u8).wrapping_add(self.viewport_x_offset);
                proof {
                    assert(fy == (pixel_y_index + g0.viewport_y_offset) % 256);
                    assert(fx == (pixel_x_index + g0.viewport_x_offset) % 256);
                }
                // tile index in the tile map
                let tile_map_index: u16 = (fy as u16 / 8) * 32 + (fx as u16 / 8);
                // tile id from the tile map, then its tile-data base offset
                let tile_mem_index: u8 = self.read_vram(
                    self.background_tile_map_area.base() + tile_map_index,
                );
                let tile_mem_addr: u16 = (tile_mem_index as u16) * 16;
                // byte offset of the row inside the tile
                let tile_row_offset: u16 = (fy as u16 % 8) * 2;
                let (data_1, data_0) = self.get_tile_data(tile_mem_addr, tile_row_offset);
                // one bit of each plane selects the color code
                let bit: u8 = 7 - (fx % 8);
                let bit_0: u8 = (data_0 >> bit) & 0x01;
                let bit_1: u8 = (data_1 >> bit) & 0x01;
                let pixel_value: u8 = (bit_1 << 1) | bit_0;
                let pixel_color: u8 = self.get_bg_pixel_color_from_palette(pixel_value);
                proof {
                    assert(pixel_color == spec_bg_shade(g0, pixel_y_index as int,
                        pixel_x_index as int));
                }
                let idx: usize = (pixel_y_index as usize) * SCREEN_WIDTH + pixel_x_index;
                self.frame_buffer.set(idx, pixel_color);
                pixel_x_index += 1;
            }
            proof {
                reveal(spec_drawn_row);
                assert(self.frame_buffer@ =~= spec_draw_line_fb(g0));
                assert forall|j: int| 0 <= j < self.frame_buffer@.len() implies (
                self.frame_buffer@[j] == g0.frame_buffer@[j] || is_screen_color(
                    self.frame_buffer@[j],
                )) by {
                    if pixel_y_index * 160 <= j < pixel_y_index * 160 + 160 {
                        lemma_palette_shade_is_screen_color(
                            g0.background_palette,
                            spec_bg_code(
                                g0.vram@,
                                g0.background_tile_data_area,
                                g0.background_tile_map_area.spec_base() as int,
                                (((pixel_y_index as int) + g0.viewport_y_offset) % 256) as u8,
                                (((j - pixel_y_index * 160) + g0.viewport_x_offset) % 256) as u8,
                            ),
                        );
                    }
                }
            }
        } else {
            proof {
                reveal(spec_drawn_row);
            }
        }
    }

    /// Advance the mode machine by `cycles` master cycles. Transitions
    /// are taken while the pending cycles meet the current mode's budget;
    /// each completed DrawPixel stay paints one row. Returns the join of
    /// the interrupt requests the transitions raised.
    pub fn run(&mut self, cycles: u8) -> (req: GpuInterruptRequest)
        requires
            old(self).wf(),
        ensures
            final(self).wf(),
            spec_same_static(*final(self), *old(self)),
            final(self).frame_buffer@.len() == old(self).frame_buffer@.len(),
            timing_of(*final(self)) == spec_run_outcome(*old(self), cycles).st,
            req == spec_run_outcome(*old(self), cycles).req,
    {
        let ghost g0 = *self;
        let ghost env = env_of(*self);
        let ghost t0 = TimingState {
            mode: g0.mode,
            line: g0.current_line as int,
            cycles: g0.cycles + cycles,
            lyc_flag: g0.line_compare_state,
            fb: g0.frame_buffer@,
        };
        self.cycles = self.cycles + cycles as u16;
        let mut req = GpuInterruptRequest::NoRequest;
        loop
            invariant
                env == env_of(g0),
                self.wf_data(),
                self.mode == Mode::VerticalBlank ==> 144 <= self.current_line <= 153,
                self.mode != Mode::VerticalBlank ==> self.current_line <= 143,
                env_of(*self) == env,
                self.background_tile_map_area == g0.background_tile_map_area,
                self.oam@ == g0.oam@,
                self.frame_buffer@.len() == g0.frame_buffer@.len(),
                self.lcd_display_enabled == g0.lcd_display_enabled,
                self.window_tile_map == g0.window_tile_map,
                self.window_display_enabled == g0.window_display_enabled,
                self.object_size == g0.object_size,
                self.object_display_enabled == g0.object_display_enabled,
                self.object_palette_0 == g0.object_palette_0,
                self.object_palette_1 == g0.object_palette_1,
                self.window_x_offset == g0.window_x_offset,
                self.window_y_offset == g0.window_y_offset,
                spec_advance(t0, env).st == spec_advance(timing_of(*self), env).st,
                spec_advance(t0, env).req == spec_join(
                    req,
                    spec_advance(timing_of(*self), env).req,
                ),
            ensures
                self.wf(),
                env_of(*self) == env,
                self.background_tile_map_area == g0.background_tile_map_area,
                self.oam@ == g0.oam@,
                self.frame_buffer@.len() == g0.frame_buffer@.len(),
                self.lcd_display_enabled == g0.lcd_display_enabled,
                self.window_tile_map == g0.window_tile_map,
                self.window_display_enabled == g0.window_display_enabled,
                self.object_size == g0.object_size,
                self.object_display_enabled == g0.object_display_enabled,
                self.object_palette_0 == g0.object_palette_0,
                self.object_palette_1 == g0.object_palette_1,
                self.window_x_offset == g0.window_x_offset,
                self.window_y_offset == g0.window_y_offset,
                !spec_budget_met(timing_of(*self)),
                spec_advance(t0, env).st == spec_advance(timing_of(*self), env).st,
                spec_advance(t0, env).req == spec_join(
                    req,
                    spec_advance(timing_of(*self), env).req,
                ),
            decreases self.cycles,
        {
            let ghost t_cur = timing_of(*self);
            let ghost req0 = req;
            let budget = match self.mode {
                Mode::HorizontalBlank => HORIZONTAL_BLANK_CYCLES,
                Mode::VerticalBlank => VERTICAL_BLANK_LINE_CYCLES,
                Mode::OAMScan => OAM_SCAN_CYCLES,
                Mode::DrawPixel => DRAW_PIXEL_CYCLES,
            };
            if self.cycles < budget {
                break ;
            }
            self.advance_one(&mut req, Ghost(env));
            proof {
                lemma_advance_unfold(t_cur, env);
                lemma_join_associative(
                    req0,
                    spec_step(t_cur, env).req,
                    spec_advance(timing_of(*self), env).req,
                );
            }
        }
        proof {
            lemma_advance_done(timing_of(*self), env);
        }
        req
    }

    /// Take the one transition whose budget is met.
    #[verifier::rlimit(100)]
    fn advance_one(&mut self, req: &mut GpuInterruptRequest, Ghost(env): Ghost<FrameEnv>)
        requires
            old(self).wf_data(),
            old(self).mode == Mode::VerticalBlank ==> 144 <= old(self).current_line <= 153,
            old(self).mode != Mode::VerticalBlank ==> old(self).current_line <= 143,
            env == env_of(*old(self)),
            spec_budget_met(timing_of(*old(self))),
        ensures
            final(self).wf_data(),
            final(self).mode == Mode::VerticalBlank ==> 144 <= final(self).current_line <= 153,
            final(self).mode != Mode::VerticalBlank ==> final(self).current_line <= 143,
            env_of(*final(self)) == env,
            final(self).background_tile_map_area == old(self).background_tile_map_area,
            final(self).oam@ == old(self).oam@,
            final(self).frame_buffer@.len() == old(self).frame_buffer@.len(),
            final(self).lcd_display_enabled == old(self).lcd_display_enabled,
            final(self).window_tile_map == old(self).window_tile_map,
            final(self).window_display_enabled == old(self).window_display_enabled,
            final(self).object_size == old(self).object_size,
            final(self).object_display_enabled == old(self).object_display_enabled,
            final(self).object_palette_0 == old(self).object_palette_0,
            final(self).object_palette_1 == old(self).object_palette_1,
            final(self).window_x_offset == old(self).window_x_offset,
            final(self).window_y_offset == old(self).window_y_offset,
            final(self).cycles < old(self).cycles,
            timing_of(*final(self)) == spec_step(timing_of(*old(self)), env).st,
            *final(req) == spec_join(*old(req), spec_step(timing_of(*old(self)), env).req),
    {
        match self.mode {
            Mode::HorizontalBlank => self.step_horizontal_blank(req),
            Mode::VerticalBlank => self.step_vertical_blank(req),
            Mode::OAMScan => self.step_oam_scan(req),
            Mode::DrawPixel => self.step_draw_pixel(req),
        }
    }

    /// Leave horizontal blank: on to the next line's OAM scan, or into
    /// vertical blank after the last visible line.
    #[verifier::rlimit(100)]
    #[verifier::spinoff_prover]
    fn step_horizontal_blank(&mut self, req: &mut GpuInterruptRequest)
        requires
            old(self).wf_data(),
            old(self).mode == Mode::HorizontalBlank,
            old(self).current_line <= 143,
            old(self).cycles >= HORIZONTAL_BLANK_CYCLES,
        ensures
            final(self).wf_data(),
            final(self).vram@ == old(self).vram@,
            final(self).oam@ == old(self).oam@,
            final(self).frame_buffer@ == old(self).frame_buffer@,
            final(self).background_tile_data_area == old(self).background_tile_data_area,
            final(self).background_tile_map_area == old(self).background_tile_map_area,
            final(self).viewport_x_offset == old(self).viewport_x_offset,
            final(self).viewport_y_offset == old(self).viewport_y_offset,
            final(self).background_display_enabled == old(self).background_display_enabled,
            final(self).background_palette == old(self).background_palette,
            final(self).oam_interrupt_enabled == old(self).oam_interrupt_enabled,
            final(self).hblank_interrupt_enabled == old(self).hblank_interrupt_enabled,
            final(self).vblank_interrupt_enabled == old(self).vblank_interrupt_enabled,
            final(self).line_compare_it_enable == old(self).line_compare_it_enable,
            final(self).compare_line == old(self).compare_line,
            final(self).lcd_display_enabled == old(self).lcd_display_enabled,
            final(self).window_tile_map == old(self).window_tile_map,
            final(self).window_display_enabled == old(self).window_display_enabled,
            final(self).object_size == old(self).object_size,
            final(self).object_display_enabled == old(self).object_display_enabled,
            final(self).object_palette_0 == old(self).object_palette_0,
            final(self).object_palette_1 == old(self).object_palette_1,
            final(self).window_x_offset == old(self).window_x_offset,
            final(self).window_y_offset == old(self).window_y_offset,
            timing_of(*final(self)) == spec_step(timing_of(*old(self)), env_of(*old(self))).st,
            *final(req) == spec_join(
                *old(req),
                spec_step(timing_of(*old(self)), env_of(*old(self))).req,
            ),
    {
        self.cycles = self.cycles - HORIZONTAL_BLANK_CYCLES;
        if self.current_line < LAST_LINE_TO_DRAW {
            self.current_line = self.current_line + 1;
            self.mode = Mode::OAMScan;
        } else {
            self.current_line = 144;
            self.mode = Mode::VerticalBlank;
            req.add(GpuInterruptRequest::VBlank);
            if self.vblank_interrupt_enabled {
                req.add(GpuInterruptRequest::LCDStat);
            }
        }
        let rose = self.current_line == self.compare_line && !self.line_compare_state;
        self.line_compare_state = self.current_line == self.compare_line;
        if rose && self.line_compare_it_enable {
            req.add(GpuInterruptRequest::LCDStat);
        }
        proof {
            let t = timing_of(*old(self));
            let e = env_of(*old(self));
            let st = spec_step(t, e).st;
            assert(self.mode == st.mode);
            assert(self.current_line as int == st.line);
            assert(self.cycles as int == st.cycles);
            assert(self.line_compare_state == st.lyc_flag);
            assert(self.frame_buffer@ == st.fb);
            assert(timing_of(*self) == st);
        }
    }

    /// Finish one vertical-blank line; after the last one the frame is
    /// over and the machine returns to line 0.
    #[verifier::rlimit(100)]
    #[verifier::spinoff_prover]
    fn step_vertical_blank(&mut self, req: &mut GpuInterruptRequest)
        requires
            old(self).wf_data(),
            old(self).mode == Mode::VerticalBlank,
            144 <= old(self).current_line <= 153,
            old(self).cycles >= VERTICAL_BLANK_LINE_CYCLES,
        ensures
            final(self).wf_data(),
            final(self).vram@ == old(self).vram@,
            final(self).oam@ == old(self).oam@,
            final(self).frame_buffer@ == old(self).frame_buffer@,
            final(self).background_tile_data_area == old(self).background_tile_data_area,
            final(self).background_tile_map_area == old(self).background_tile_map_area,
            final(self).viewport_x_offset == old(self).viewport_x_offset,
            final(self).viewport_y_offset == old(self).viewport_y_offset,
            final(self).background_display_enabled == old(self).background_display_enabled,
            final(self).background_palette == old(self).background_palette,
            final(self).oam_interrupt_enabled == old(self).oam_interrupt_enabled,
            final(self).hblank_interrupt_enabled == old(self).hblank_interrupt_enabled,
            final(self).vblank_interrupt_enabled == old(self).vblank_interrupt_enabled,
            final(self).line_compare_it_enable == old(self).line_compare_it_enable,
            final(self).compare_line == old(self).compare_line,
            final(self).lcd_display_enabled == old(self).lcd_display_enabled,
            final(self).window_tile_map == old(self).window_tile_map,
            final(self).window_display_enabled == old(self).window_display_enabled,
            final(self).object_size == old(self).object_size,
            final(self).object_display_enabled == old(self).object_display_enabled,
            final(self).object_palette_0 == old(self).object_palette_0,
            final(self).object_palette_1 == old(self).object_palette_1,
            final(self).window_x_offset == old(self).window_x_offset,
            final(self).window_y_offset == old(self).window_y_offset,
            timing_of(*final(self)) == spec_step(timing_of(*old(self)), env_of(*old(self))).st,
            *final(req) == spec_join(
                *old(req),
                spec_step(timing_of(*old(self)), env_of(*old(self))).req,
            ),
    {
        self.cycles = self.cycles - VERTICAL_BLANK_LINE_CYCLES;
        if self.current_line < LAST_VERTICAL_BLANK_LINE {
            self.current_line = self.current_line + 1;
        } else {
            self.current_line = 0;
            self.mode = Mode::OAMScan;
        }
        let rose = self.current_line == self.compare_line && !self.line_compare_state;
        self.line_compare_state = self.current_line == self.compare_line;
        if rose && self.line_compare_it_enable {
            req.add(GpuInterruptRequest::LCDStat);
        }
        proof {
            let t = timing_of(*old(self));
            let e = env_of(*old(self));
            let st = spec_step(t, e).st;
            assert(self.mode == st.mode);
            assert(self.current_line as int == st.line);
            assert(self.cycles as int == st.cycles);
            assert(self.line_compare_state == st.lyc_flag);
            assert(self.frame_buffer@ == st.fb);
            assert(timing_of(*self) == st);
        }
    }




    /// Leave the OAM scan for pixel drawing.
    #[verifier::rlimit(100)]
    fn step_oam_scan(&mut self, req: &mut GpuInterruptRequest)
        requires
            old(self).wf_data(),
            old(self).mode == Mode::OAMScan,
            old(self).cycles >= OAM_SCAN_CYCLES,
        ensures
            final(self).wf_data(),
            final(self).vram@ == old(self).vram@,
            final(self).oam@ == old(self).oam@,
            final(self).frame_buffer@ == old(self).frame_buffer@,
            final(self).background_tile_data_area == old(self).background_tile_data_area,
            final(self).background_tile_map_area == old(self).background_tile_map_area,
            final(self).viewport_x_offset == old(self).viewport_x_offset,
            final(self).viewport_y_offset == old(self).viewport_y_offset,
            final(self).background_display_enabled == old(self).background_display_enabled,
            final(self).background_palette == old(self).background_palette,
            final(self).oam_interrupt_enabled == old(self).oam_interrupt_enabled,
            final(self).hblank_interrupt_enabled == old(self).hblank_interrupt_enabled,
            final(self).vblank_interrupt_enabled == old(self).vblank_interrupt_enabled,
            final(self).line_compare_it_enable == old(self).line_compare_it_enable,
            final(self).compare_line == old(self).compare_line,
            final(self).lcd_display_enabled == old(self).lcd_display_enabled,
            final(self).window_tile_map == old(self).window_tile_map,
            final(self).window_display_enabled == old(self).window_display_enabled,
            final(self).object_size == old(self).object_size,
            final(self).object_display_enabled == old(self).object_display_enabled,
            final(self).object_palette_0 == old(self).object_palette_0,
            final(self).object_palette_1 == old(self).object_palette_1,
            final(self).window_x_offset == old(self).window_x_offset,
            final(self).window_y_offset == old(self).window_y_offset,
            timing_of(*final(self)) == spec_step(timing_of(*old(self)), env_of(*old(self))).st,
            *final(req) == spec_join(
                *old(req),
                spec_step(timing_of(*old(self)), env_of(*old(self))).req,
            ),
    {
        self.cycles = self.cycles - OAM_SCAN_CYCLES;
        self.mode = Mode::DrawPixel;
        if self.oam_interrupt_enabled {
            req.add(GpuInterruptRequest::LCDStat);
        }
    }

    /// Finish drawing: paint the completed row and enter horizontal
    /// blank.
    #[verifier::rlimit(100)]
    fn step_draw_pixel(&mut self, req: &mut GpuInterruptRequest)
        requires
            old(self).wf_data(),
            old(self).mode == Mode::DrawPixel,
            old(self).cycles >= DRAW_PIXEL_CYCLES,
        ensures
            final(self).wf_data(),
            spec_same_static(*final(self), *old(self)),
            forall|k: int|
                0 <= k < final(self).frame_buffer@.len() ==> final(self).frame_buffer@[k] == old(
                    self,
                ).frame_buffer@[k] || is_screen_color(final(self).frame_buffer@[k]),
            timing_of(*final(self)) == spec_step(timing_of(*old(self)), env_of(*old(self))).st,
            *final(req) == spec_join(
                *old(req),
                spec_step(timing_of(*old(self)), env_of(*old(self))).req,
            ),
    {
        self.cycles = self.cycles - DRAW_PIXEL_CYCLES;
        self.draw_line();
        self.mode = Mode::HorizontalBlank;
        if self.hblank_interrupt_enabled {
            req.add(GpuInterruptRequest::LCDStat);
        }
        proof {
            assert(self.frame_buffer@ == spec_drawn_row(
                old(self).frame_buffer@,
                env_of(*old(self)),
                old(self).current_line as int,
            ));
            assert(timing_of(*self) == spec_step(timing_of(*old(self)), env_of(*old(self))).st);
        }
    }

}

/// The LCD control byte (0xFF40), re-encoded from the decoded fields.
pub open spec fn spec_control_byte(g: Gpu) -> u8 {
    ((if g.lcd_display_enabled { 0x80u8 } else { 0u8 })
    | (if g.window_tile_map == TileMapArea::X9C00 { 0x40u8 } else { 0u8 })
    | (if g.window_display_enabled { 0x20u8 } else { 0u8 })
    | (if g.background_tile_data_area { 0x10u8 } else { 0u8 })
    | (if g.background_tile_map_area == TileMapArea::X9C00 { 0x08u8 } else { 0u8 })
    | (if g.object_size == ObjectSize::OS8X16 { 0x04u8 } else { 0u8 })
    | (if g.object_display_enabled { 0x02u8 } else { 0u8 })
    | (if g.background_display_enabled { 0x01u8 } else { 0u8 })) as u8
}

/// The STAT byte (0xFF41): interrupt enables, the LYC=LY flag and the
/// 2-bit mode.
pub open spec fn spec_stat_byte(g: Gpu) -> u8 {
    ((if g.line_compare_it_enable { 0x40u8 } else { 0u8 })
    | (if g.oam_interrupt_enabled { 0x20u8 } else { 0u8 })
    | (if g.vblank_interrupt_enabled { 0x10u8 } else { 0u8 })
    | (if g.hblank_interrupt_enabled { 0x08u8 } else { 0u8 })
    | (if g.line_compare_state { 0x04u8 } else { 0u8 })
    | g.mode.spec_stat_bits()) as u8
}

/// What a CPU read of LCD register `address` (0xFF40..=0xFF4B) returns.
/// 0xFF46 (OAM DMA) is not modeled and reads 0xFF.
pub open spec fn spec_read_lcd(g: Gpu, address: u16) -> u8 {
    if address == 0xFF40 {
        spec_control_byte(g)
    } else if address == 0xFF41 {
        spec_stat_byte(g)
    } else if address == 0xFF42 {
        g.viewport_y_offset
    } else if address == 0xFF43 {
        g.viewport_x_offset
    } else if address == 0xFF44 {
        g.current_line
    } else if address == 0xFF45 {
        g.compare_line
    } else if address == 0xFF47 {
        g.background_palette.spec_encode()
    } else if address == 0xFF48 {
        g.object_palette_0.spec_encode()
    } else if address == 0xFF49 {
        g.object_palette_1.spec_encode()
    } else if address == 0xFF4A {
        g.window_y_offset
    } else if address == 0xFF4B {
        g.window_x_offset
    } else {
        0xFF
    }
}

/// The GPU after a CPU write of `data` to LCD register `address`. LY
/// (0xFF44) is read-only; of STAT only the four interrupt enables are
/// writable; 0xFF46 is not modeled.
pub open spec fn spec_write_lcd(g: Gpu, address: u16, data: u8) -> Gpu {
    if address == 0xFF40 {
        Gpu {
            lcd_display_enabled: data & 0x80 == 0x80,
            window_tile_map: if data & 0x40 == 0x40 {
                TileMapArea::X9C00
            } else {
                TileMapArea::X9800
            },
            window_display_enabled: data & 0x20 == 0x20,
            background_tile_data_area: data & 0x10 == 0x10,
            background_tile_map_area: if data & 0x08 == 0x08 {
                TileMapArea::X9C00
            } else {
                TileMapArea::X9800
            },
            object_size: if data & 0x04 == 0x04 {
                ObjectSize::OS8X16
            } else {
                ObjectSize::OS8X8
            },
            object_display_enabled: data & 0x02 == 0x02,
            background_display_enabled: data & 0x01 == 0x01,
            ..g
        }
    } else if address == 0xFF41 {
        Gpu {
            line_compare_it_enable: data & 0x40 == 0x40,
            oam_interrupt_enabled: data & 0x20 == 0x20,
            vblank_interrupt_enabled: data & 0x10 == 0x10,
            hblank_interrupt_enabled: data & 0x08 == 0x08,
            ..g
        }
    } else if address == 0xFF42 {
        Gpu { viewport_y_offset: data, ..g }
    } else if address == 0xFF43 {
        Gpu { viewport_x_offset: data, ..g }
    } else if address == 0xFF45 {
        Gpu { compare_line: data, ..g }
    } else if address == 0xFF47 {
        Gpu { background_palette: Palette::spec_decode(data), ..g }
    } else if address == 0xFF48 {
        Gpu { object_palette_0: Palette::spec_decode(data), ..g }
    } else if address == 0xFF49 {
        Gpu { object_palette_1: Palette::spec_decode(data), ..g }
    } else if address == 0xFF4A {
        Gpu { window_y_offset: data, ..g }
    } else if address == 0xFF4B {
        Gpu { window_x_offset: data, ..g }
    } else {
        g
    }
}

impl Gpu {
    /// Read an LCD register (0xFF40..=0xFF4B).
    pub fn read_lcd_register(&self, address: u16) -> (r: u8)
        requires
            0xFF40 <= address <= 0xFF4B,
        ensures
            r == spec_read_lcd(*self, address),
    {
        if address == 0xFF40 {
            (if self.lcd_display_enabled { 0x80u8 } else { 0u8 })
            | (if self.window_tile_map == TileMapArea::X9C00 { 0x40u8 } else { 0u8 })
            | (if self.window_display_enabled { 0x20u8 } else { 0u8 })
            | (if self.background_tile_data_area { 0x10u8 } else { 0u8 })
            | (if self.background_tile_map_area == TileMapArea::X9C00 { 0x08u8 } else { 0u8 })
            | (if self.object_size == ObjectSize::OS8X16 { 0x04u8 } else { 0u8 })
            | (if self.object_display_enabled { 0x02u8 } else { 0u8 })
            | (if self.background_display_enabled { 0x01u8 } else { 0u8 })
        } else if address == 0xFF41 {
            (if self.line_compare_it_enable { 0x40u8 } else { 0u8 })
            | (if self.oam_interrupt_enabled { 0x20u8 } else { 0u8 })
            | (if self.vblank_interrupt_enabled { 0x10u8 } else { 0u8 })
            | (if self.hblank_interrupt_enabled { 0x08u8 } else { 0u8 })
            | (if self.line_compare_state { 0x04u8 } else { 0u8 })
            | self.mode.stat_bits()
        } else if address == 0xFF42 {
            self.viewport_y_offset
        } else if address == 0xFF43 {
            self.viewport_x_offset
        } else if address == 0xFF44 {
            self.current_line
        } else if address == 0xFF45 {
            self.compare_line
        } else if address == 0xFF47 {
            self.background_palette.encode()
        } else if address == 0xFF48 {
            self.object_palette_0.encode()
        } else if address == 0xFF49 {
            self.object_palette_1.encode()
        } else if address == 0xFF4A {
            self.window_y_offset
        } else if address == 0xFF4B {
            self.window_x_offset
        } else {
            0xFF
        }
    }

    /// Write an LCD register (0xFF40..=0xFF4B).
    #[verifier::rlimit(100)]
    #[verifier::spinoff_prover]
    pub fn write_lcd_register(&mut self, address: u16, data: u8)
        requires
            0xFF40 <= address <= 0xFF4B,
        ensures
            *final(self) == spec_write_lcd(*old(self), address, data),
    {
        if address == 0xFF40 {
            self.lcd_display_enabled = data & 0x80 == 0x80;
            self.window_tile_map = if data & 0x40 == 0x40 {
                TileMapArea::X9C00
            } else {
                TileMapArea::X9800
            };
            self.window_display_enabled = data & 0x20 == 0x20;
            self.background_tile_data_area = data & 0x10 == 0x10;
            self.background_tile_map_area = if data & 0x08 == 0x08 {
                TileMapArea::X9C00
            } else {
                TileMapArea::X9800
            };
            self.object_size = if data & 0x04 == 0x04 {
                ObjectSize::OS8X16
            } else {
                ObjectSize::OS8X8
            };
            self.object_display_enabled = data & 0x02 == 0x02;
            self.background_display_enabled = data & 0x01 == 0x01;
        } else if address == 0xFF41 {
            self.line_compare_it_enable = data & 0x40 == 0x40;
            self.oam_interrupt_enabled = data & 0x20 == 0x20;
            self.vblank_interrupt_enabled = data & 0x10 == 0x10;
            self.hblank_interrupt_enabled = data & 0x08 == 0x08;
        } else if address == 0xFF42 {
            self.viewport_y_offset = data;
        } else if address == 0xFF43 {
            self.viewport_x_offset = data;
        } else if address == 0xFF45 {
            self.compare_line = data;
        } else if address == 0xFF47 {
            self.background_palette = Palette::decode(data);
        } else if address == 0xFF48 {
            self.object_palette_0 = Palette::decode(data);
        } else if address == 0xFF49 {
            self.object_palette_1 = Palette::decode(data);
        } else if address == 0xFF4A {
            self.window_y_offset = data;
        } else if address == 0xFF4B {
            self.window_x_offset = data;
        }
    }
}

/// Reading a VRAM offset after writing it returns the byte written, and
/// no other offset changes.
pub proof fn lemma_vram_read_after_write(g: Gpu, address: u16, data: u8, other: u16)
    requires
        g.wf_data(),
        address < 0x2000,
        other < 0x2000,
    ensures
        g.vram@.update(address as int, data)[address as int] == data,
        other != address ==> g.vram@.update(address as int, data)[other as int]
            == g.vram@.index(other as int),
{
}

/// The mode machine's mutable state, as the timing model sees it.
pub ghost struct TimingState {
    pub mode: Mode,
    pub line: int,
    pub cycles: int,
    pub lyc_flag: bool,
    pub fb: Seq<u8>,
}

/// What normalizing the pending cycles did: the state reached, how often
/// each mode was entered, and the joined interrupt requests. Vertical
/// blank is counted once per line it spans.
pub ghost struct TimingOutcome {
    pub st: TimingState,
    pub n_oam: int,
    pub n_draw: int,
    pub n_hblank: int,
    pub n_vblank: int,
    pub req: GpuInterruptRequest,
}

pub open spec fn timing_of(g: Gpu) -> TimingState {
    TimingState {
        mode: g.mode,
        line: g.current_line as int,
        cycles: g.cycles as int,
        lyc_flag: g.line_compare_state,
        fb: g.frame_buffer@,
    }
}

/// The LCDStat request a line change raises when the LYC=LY flag rises
/// with the compare interrupt enabled.
pub open spec fn spec_lyc_req(new_flag: bool, old_flag: bool, env: FrameEnv)
    -> GpuInterruptRequest {
    if new_flag && !old_flag && env.lyc_int {
        GpuInterruptRequest::LCDStat
    } else {
        GpuInterruptRequest::NoRequest
    }
}

pub open spec fn spec_budget_met(t: TimingState) -> bool {
    t.cycles >= t.mode.spec_cycles()
}

/// One mode transition, taken when the current mode's budget is met.
pub open spec fn spec_step(t: TimingState, env: FrameEnv) -> TimingOutcome {
    match t.mode {
        Mode::OAMScan => TimingOutcome {
            st: TimingState { mode: Mode::DrawPixel, cycles: t.cycles - 80, ..t },
            n_oam: 0,
            n_draw: 1,
            n_hblank: 0,
            n_vblank: 0,
            req: if env.oam_int {
                GpuInterruptRequest::LCDStat
            } else {
                GpuInterruptRequest::NoRequest
            },
        },
        Mode::DrawPixel => TimingOutcome {
            st: TimingState {
                mode: Mode::HorizontalBlank,
                cycles: t.cycles - 172,
                fb: spec_drawn_row(t.fb, env, t.line),
                ..t
            },
            n_oam: 0,
            n_draw: 0,
            n_hblank: 1,
            n_vblank: 0,
            req: if env.hblank_int {
                GpuInterruptRequest::LCDStat
            } else {
                GpuInterruptRequest::NoRequest
            },
        },
        Mode::HorizontalBlank => {
            if t.line < 143 {
                let flag = t.line + 1 == env.compare_line;
                TimingOutcome {
                    st: TimingState {
                        mode: Mode::OAMScan,
                        line: t.line + 1,
                        cycles: t.cycles - 204,
                        lyc_flag: flag,
                        ..t
                    },
                    n_oam: 1,
                    n_draw: 0,
                    n_hblank: 0,
                    n_vblank: 0,
                    req: spec_lyc_req(flag, t.lyc_flag, env),
                }
            } else {
                let flag = 144 == env.compare_line;
                TimingOutcome {
                    st: TimingState {
                        mode: Mode::VerticalBlank,
                        line: 144,
                        cycles: t.cycles - 204,
                        lyc_flag: flag,
                        ..t
                    },
                    n_oam: 0,
                    n_draw: 0,
                    n_hblank: 0,
                    n_vblank: 1,
                    req: spec_join(
                        if env.vblank_int {
                            GpuInterruptRequest::Both
                        } else {
                            GpuInterruptRequest::VBlank
                        },
                        spec_lyc_req(flag, t.lyc_flag, env),
                    ),
                }
            }
        },
        Mode::VerticalBlank => {
            if t.line < 153 {
                let flag = t.line + 1 == env.compare_line;
                TimingOutcome {
                    st: TimingState {
                        mode: Mode::VerticalBlank,
                        line: t.line + 1,
                        cycles: t.cycles - 456,
                        lyc_flag: flag,
                        ..t
                    },
                    n_oam: 0,
                    n_draw: 0,
                    n_hblank: 0,
                    n_vblank: 1,
                    req: spec_lyc_req(flag, t.lyc_flag, env),
                }
            } else {
                let flag = 0 == env.compare_line;
                TimingOutcome {
                    st: TimingState {
                        mode: Mode::OAMScan,
                        line: 0,
                        cycles: t.cycles - 456,
                        lyc_flag: flag,
                        ..t
                    },
                    n_oam: 1,
                    n_draw: 0,
                    n_hblank: 0,
                    n_vblank: 0,
                    req: spec_lyc_req(flag, t.lyc_flag, env),
                }
            }
        },
    }
}

/// Prepend one transition's contribution to the outcome of the rest.
pub open spec fn spec_outcome_after(first: TimingOutcome, rest: TimingOutcome) -> TimingOutcome {
    TimingOutcome {
        st: rest.st,
        n_oam: first.n_oam + rest.n_oam,
        n_draw: first.n_draw + rest.n_draw,
        n_hblank: first.n_hblank + rest.n_hblank,
        n_vblank: first.n_vblank + rest.n_vblank,
        req: spec_join(first.req, rest.req),
    }
}

/// Take mode transitions while the pending cycles meet the current
/// mode's budget, collecting mode entries, drawn rows and interrupt
/// requests.
#[verifier::opaque]
pub open spec fn spec_advance(t: TimingState, env: FrameEnv) -> TimingOutcome
    decreases t.cycles,
{
    if spec_budget_met(t) {
        let first = spec_step(t, env);
        spec_outcome_after(first, spec_advance(first.st, env))
    } else {
        TimingOutcome {
            st: t,
            n_oam: 0,
            n_draw: 0,
            n_hblank: 0,
            n_vblank: 0,
            req: GpuInterruptRequest::NoRequest,
        }
    }
}

/// Unfolding: when the budget is met, normalizing is one step followed
/// by normalizing the rest.
pub proof fn lemma_advance_unfold(t: TimingState, env: FrameEnv)
    requires
        spec_budget_met(t),
    ensures
        spec_advance(t, env) == spec_outcome_after(
            spec_step(t, env),
            spec_advance(spec_step(t, env).st, env),
        ),
{
    reveal_with_fuel(spec_advance, 1);
}

/// When the budget is not met, normalizing changes nothing.
pub proof fn lemma_advance_done(t: TimingState, env: FrameEnv)
    requires
        !spec_budget_met(t),
    ensures
        spec_advance(t, env).st == t,
        spec_advance(t, env).req == GpuInterruptRequest::NoRequest,
        spec_advance(t, env).n_oam == 0,
        spec_advance(t, env).n_draw == 0,
        spec_advance(t, env).n_hblank == 0,
        spec_advance(t, env).n_vblank == 0,
{
    reveal_with_fuel(spec_advance, 1);
}

/// The outcome of one `run(cycles)` call on `g`.
pub open spec fn spec_run_outcome(g: Gpu, cycles: u8) -> TimingOutcome {
    spec_advance(
        TimingState { cycles: g.cycles + cycles, ..timing_of(g) },
        env_of(g),
    )
}




/// A reset GPU stands at the start of the frame timeline: horizontal
/// blank on line 0 with no cycles pending, the LYC flag clear, and the
/// background layer disabled.
pub proof fn lemma_reset_gpu_timing(g: Gpu)
    requires
        spec_reset_gpu(g),
    ensures
        timing_of(g) == (TimingState {
            mode: Mode::HorizontalBlank,
            line: 0,
            cycles: 0,
            lyc_flag: false,
            fb: g.frame_buffer@,
        }),
        !env_of(g).bg_enabled,
{
}

/// One visible scanline at a time, background layer disabled (as at
/// reset): from the start of line `t.line`'s OAM scan, each line
/// consumes 456 cycles, enters DrawPixel and horizontal blank once, and
/// hands the next line on until vertical blank begins at line 144.
#[verifier::rlimit(100)]
proof fn lemma_frame_lines(t: TimingState, env: FrameEnv)
    requires
        !env.bg_enabled,
        t.mode == Mode::OAMScan,
        1 <= t.line <= 143,
        t.cycles >= 456 * (144 - t.line),
    ensures
        ({
            let out = spec_advance(t, env);
            let outv = spec_advance(
                TimingState {
                    mode: Mode::VerticalBlank,
                    line: 144,
                    cycles: t.cycles - 456 * (144 - t.line),
                    lyc_flag: (144 == env.compare_line),
                    fb: t.fb,
                },
                env,
            );
            &&& out.st == outv.st
            &&& out.n_oam == 143 - t.line + outv.n_oam
            &&& out.n_draw == 144 - t.line + outv.n_draw
            &&& out.n_hblank == 144 - t.line + outv.n_hblank
            &&& out.n_vblank == 1 + outv.n_vblank
        }),
    decreases 144 - t.line,
{
    reveal(spec_drawn_row);
    let s1 = spec_step(t, env);
    let s2 = spec_step(s1.st, env);
    let s3 = spec_step(s2.st, env);
    lemma_advance_unfold(t, env);
    lemma_advance_unfold(s1.st, env);
    lemma_advance_unfold(s2.st, env);
    // the draw is a no-op: the background layer is disabled
    assert(s2.st.fb == t.fb);
    if t.line < 143 {
        lemma_frame_lines(s3.st, env);
    }
}

/// The ten vertical-blank lines, 456 cycles each; after line 153 the
/// machine returns to line 0's OAM scan.
#[verifier::rlimit(100)]
proof fn lemma_frame_vblank(t: TimingState, env: FrameEnv)
    requires
        t.mode == Mode::VerticalBlank,
        144 <= t.line <= 153,
        t.cycles >= 456 * (154 - t.line),
    ensures
        ({
            let out = spec_advance(t, env);
            let outo = spec_advance(
                TimingState {
                    mode: Mode::OAMScan,
                    line: 0,
                    cycles: t.cycles - 456 * (154 - t.line),
                    lyc_flag: (0 == env.compare_line),
                    fb: t.fb,
                },
                env,
            );
            &&& out.st == outo.st
            &&& out.n_oam == 1 + outo.n_oam
            &&& out.n_draw == outo.n_draw
            &&& out.n_hblank == outo.n_hblank
            &&& out.n_vblank == 153 - t.line + outo.n_vblank
        }),
    decreases 154 - t.line,
{
    lemma_advance_unfold(t, env);
    let s1 = spec_step(t, env);
    if t.line < 153 {
        lemma_frame_vblank(s1.st, env);
    }
}

/// One frame of cycles from the reset state returns the machine to
/// horizontal blank at line 0 with no cycles pending, having entered
/// OAMScan, DrawPixel and HorizontalBlank 144 times each and
/// VerticalBlank once per its ten lines, and leaves the frame buffer
/// untouched (the background layer starts disabled). By `run`'s
/// contract and `lemma_advance_split`, this holds however the 70224
/// cycles are split across `run` calls.
#[verifier::rlimit(100)]
pub proof fn lemma_one_frame_from_reset(t: TimingState, env: FrameEnv)
    requires
        !env.bg_enabled,
        t.mode == Mode::HorizontalBlank,
        t.line == 0,
        t.cycles == 70224,
    ensures
        ({
            let out = spec_advance(t, env);
            &&& out.st.mode == Mode::HorizontalBlank
            &&& out.st.line == 0
            &&& out.st.cycles == 0
            &&& out.st.fb == t.fb
            &&& out.n_oam == 144
            &&& out.n_draw == 144
            &&& out.n_hblank == 144
            &&& out.n_vblank == 10
        }),
{
    reveal(spec_drawn_row);
    lemma_advance_unfold(t, env);
    let s1 = spec_step(t, env);
    assert(s1.st == (TimingState {
        mode: Mode::OAMScan,
        line: 1,
        cycles: 70020,
        lyc_flag: (1 == env.compare_line),
        fb: t.fb,
    }));
    lemma_frame_lines(s1.st, env);
    let tv = TimingState {
        mode: Mode::VerticalBlank,
        line: 144,
        cycles: 4812,
        lyc_flag: (144 == env.compare_line),
        fb: t.fb,
    };
    assert(s1.st.cycles - 456 * (144 - s1.st.line) == 4812);
    lemma_frame_vblank(tv, env);
    let to = TimingState {
        mode: Mode::OAMScan,
        line: 0,
        cycles: 252,
        lyc_flag: (0 == env.compare_line),
        fb: t.fb,
    };
    lemma_advance_unfold(to, env);
    let s2 = spec_step(to, env);
    lemma_advance_unfold(s2.st, env);
    let s3 = spec_step(s2.st, env);
    // the frame's last transition paints nothing: line 0 has no
    // completed row
    assert(s3.st.fb == t.fb);
    lemma_advance_done(s3.st, env);
}

/// Splitting an advance changes nothing: normalizing after `t.cycles`
/// pending cycles and then adding `c` more reaches the same state as
/// one advance of all the cycles together, with the mode entries adding
/// up and the interrupt requests joining. So a sequence of `run` calls
/// is accounted for by the sum of its cycle arguments.
#[verifier::rlimit(100)]
pub proof fn lemma_advance_split(t: TimingState, env: FrameEnv, c: int)
    requires
        c >= 0,
    ensures
        ({
            let mid = spec_advance(t, env);
            let whole = spec_advance(TimingState { cycles: t.cycles + c, ..t }, env);
            let rest = spec_advance(TimingState { cycles: mid.st.cycles + c, ..mid.st }, env);
            &&& whole.st == rest.st
            &&& whole.n_oam == mid.n_oam + rest.n_oam
            &&& whole.n_draw == mid.n_draw + rest.n_draw
            &&& whole.n_hblank == mid.n_hblank + rest.n_hblank
            &&& whole.n_vblank == mid.n_vblank + rest.n_vblank
            &&& whole.req == spec_join(mid.req, rest.req)
        }),
    decreases t.cycles,
{
    if spec_budget_met(t) {
        let s = spec_step(t, env);
        let sc = spec_step(TimingState { cycles: t.cycles + c, ..t }, env);
        assert(sc.st == (TimingState { cycles: s.st.cycles + c, ..s.st }));
        assert(sc.req == s.req);
        assert(sc.n_oam == s.n_oam && sc.n_draw == s.n_draw && sc.n_hblank == s.n_hblank
            && sc.n_vblank == s.n_vblank);
        lemma_advance_unfold(t, env);
        lemma_advance_unfold(TimingState { cycles: t.cycles + c, ..t }, env);
        lemma_advance_split(s.st, env, c);
        let mid_rest = spec_advance(s.st, env);
        let rest = spec_advance(
            TimingState { cycles: mid_rest.st.cycles + c, ..mid_rest.st },
            env,
        );
        lemma_join_associative(s.req, mid_rest.req, rest.req);
    } else {
        lemma_advance_done(t, env);
        assert((TimingState {
            cycles: spec_advance(t, env).st.cycles + c,
            ..spec_advance(t, env).st
        }) == (TimingState { cycles: t.cycles + c, ..t }));
    }
}

} // verus!
