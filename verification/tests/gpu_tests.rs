use rustboy::bus::Bus;
use rustboy::emulator::{Emulator, EmulatorState, ONE_FRAME_IN_NS};
use rustboy::gpu::{Gpu, GpuInterruptRequest, Mode, Palette, PixelColor, TileMapArea};
use rustboy::timer::Timer;

#[test]
fn test_read_write_vram() {
    let mut gpu = Gpu::new();
    gpu.write_vram(0x0001, 0xAA);
    gpu.write_vram(0x0002, 0x55);
    gpu.write_vram(0x0010, 0xAA);
    assert_eq!(gpu.read_vram(0x0001), 0xAA);
    assert_eq!(gpu.read_vram(0x0002), 0x55);
    assert_eq!(gpu.read_vram(0x0010), 0xAA);
}

#[test]
fn test_draw_line() {
    let mut gpu = Gpu::new();

    // init GPU
    gpu.background_display_enabled = true;
    gpu.background_tile_data_area = true;
    gpu.background_tile_map_area = TileMapArea::X9800;
    gpu.current_line = 9; // first line of the second tile row

    // init VRAM
    // here we're looking for tile at index 32 and 33
    gpu.write_vram(0x0200, 0x80);
    gpu.write_vram(0x0201, 0x80);
    gpu.write_vram(0x0210, 0x80);
    gpu.write_vram(0x0211, 0x80);

    // set tile map
    // here we're looking for tile at index 32 and 33
    gpu.write_vram(0x1820, 0x20);
    gpu.write_vram(0x1821, 0x21);

    // draw the line in the frame buffer
    gpu.draw_line();

    // check frame buffer
    // line 8 * 160 = 1280 / 0x0500
    assert_eq!(gpu.frame_buffer[0x0500], PixelColor::BLACK.as_byte());
    assert_eq!(gpu.frame_buffer[0x0508], PixelColor::BLACK.as_byte());
}

#[test]
fn test_tile_data_area() {
    let mut gpu = Gpu::new();

    // init GPU
    gpu.background_display_enabled = true;
    gpu.background_tile_data_area = false;
    gpu.background_tile_map_area = TileMapArea::X9800;

    // init VRAM
    // here we're looking for tile at index 32 and 33
    gpu.write_vram(0x1200, 0x80);
    gpu.write_vram(0x1201, 0x80);
    gpu.write_vram(0x1210, 0x80);
    gpu.write_vram(0x1211, 0x80);

    // here we're looking for tile at index 128 and 129
    gpu.write_vram(0x0800, 0x80);
    gpu.write_vram(0x0801, 0x80);
    gpu.write_vram(0x0810, 0x80);
    gpu.write_vram(0x0811, 0x80);

    // set tile map
    // here we're looking for tile map at index 32 and 33 / line 9
    // which redirects to tile data index 32 and 33
    gpu.write_vram(0x1820, 0x20);
    gpu.write_vram(0x1821, 0x21);
    // here we're looking for tile map at index 512 and 513 / line 129
    // which redirects to tile data index 128 and 129
    gpu.write_vram(0x1A00, 0x80);
    gpu.write_vram(0x1A01, 0x81);

    // draw the line in the frame buffer
    gpu.current_line = 9; // first line of the second tile row -> line 9
    gpu.draw_line();

    gpu.current_line = 129; // first line of the 16th tile row -> line 129
    gpu.draw_line();

    // check frame buffer
    // line 8 * 160 = 1280 / 0x0500
    assert_eq!(gpu.frame_buffer[0x0500], PixelColor::BLACK.as_byte());
    assert_eq!(gpu.frame_buffer[0x0508], PixelColor::BLACK.as_byte());
    // line 128 * 160 = 20480 / 0x5000
    assert_eq!(gpu.frame_buffer[0x5000], PixelColor::BLACK.as_byte());
    assert_eq!(gpu.frame_buffer[0x5008], PixelColor::BLACK.as_byte());
}

#[test]
fn test_tile_map_area() {
    let mut gpu = Gpu::new();

    // init GPU
    gpu.background_display_enabled = true;
    gpu.background_tile_data_area = true;
    gpu.background_tile_map_area = TileMapArea::X9800;
    gpu.current_line = 9; // first line of the second tile row

    // init VRAM
    // here we're looking for tile at index 32 and 33
    gpu.write_vram(0x0200, 0x80);
    gpu.write_vram(0x0201, 0x80);
    gpu.write_vram(0x0210, 0x80);
    gpu.write_vram(0x0211, 0x80);

    // set tile map
    // here we're looking for tile at index 32 and 33
    gpu.write_vram(0x1820, 0x20);
    gpu.write_vram(0x1821, 0x21);

    // draw the line in the frame buffer
    gpu.draw_line();

    // check frame buffer
    // line 8 * 160 = 1280 / 0x0500
    assert_eq!(gpu.frame_buffer[0x0500], PixelColor::BLACK.as_byte());
    assert_eq!(gpu.frame_buffer[0x0508], PixelColor::BLACK.as_byte());
}

#[test]
fn test_scrolling() {
    let mut gpu = Gpu::new();

    // init GPU
    gpu.background_display_enabled = true;
    gpu.background_tile_data_area = true;
    gpu.background_tile_map_area = TileMapArea::X9C00;

    // init VRAM
    // here we're looking for tile at index 32 and 33
    gpu.write_vram(0x0200, 0x80);
    gpu.write_vram(0x0201, 0x80);
    gpu.write_vram(0x0210, 0x80);
    gpu.write_vram(0x0211, 0x80);

    // set tile map
    // here we're looking for tile at index 32 and 33
    gpu.write_vram(0x1C20, 0x20);
    gpu.write_vram(0x1C21, 0x21);

    // scroll on y axis and draw the line
    gpu.viewport_y_offset = 1;
    gpu.viewport_x_offset = 0;
    gpu.current_line = 8; // line 8 now corresponds to line 9
    gpu.draw_line();

    // check frame buffer
    // line 9 * 160 = 1440 / 0x05A0
    assert_eq!(gpu.frame_buffer[0x05A0], PixelColor::BLACK.as_byte());
    assert_eq!(gpu.frame_buffer[0x05A8], PixelColor::BLACK.as_byte());

    // scroll on x axis and draw the line
    gpu.viewport_y_offset = 0;
    gpu.viewport_x_offset = 1;
    gpu.current_line = 9;
    gpu.draw_line();

    // check frame buffer
    // line 8 * 160 = 1280 / 0x0500
    assert_eq!(gpu.frame_buffer[0x0507], PixelColor::BLACK.as_byte());
}

#[test]
fn test_draw_frame() {
    let mut gpu = Gpu::new();

    // init GPU
    gpu.background_display_enabled = true;
    gpu.background_tile_data_area = true;
    gpu.background_tile_map_area = TileMapArea::X9800;

    // init VRAM
    // here we're looking for tile at index 32 and 33
    gpu.write_vram(0x0200, 0x80);
    gpu.write_vram(0x0201, 0x80);

    // set tile map
    // here we're looking for tile at index 0 and 1
    gpu.write_vram(0x1800, 0x20);
    gpu.write_vram(0x1801, 0x20);
    // here we're looking for tile at index 32 and 33
    gpu.write_vram(0x1820, 0x20);
    gpu.write_vram(0x1821, 0x20);
    // here we're looking for tile map at index 512 and 513 / line 129
    gpu.write_vram(0x1A00, 0x20);
    gpu.write_vram(0x1A01, 0x20);

    // draw the line in the frame buffer
    while gpu.current_line < 143 {
        gpu.run(1);
    }

    // check frame buffer
    // line 0 * 160 = 0 / 0x0000
    assert_eq!(gpu.frame_buffer[0x0000], PixelColor::BLACK.as_byte());
    assert_eq!(gpu.frame_buffer[0x0008], PixelColor::BLACK.as_byte());
    // line 8 * 160 = 1280 / 0x0500
    assert_eq!(gpu.frame_buffer[0x0500], PixelColor::BLACK.as_byte());
    assert_eq!(gpu.frame_buffer[0x0508], PixelColor::BLACK.as_byte());
    // line 128 * 160 = 20480 / 0x5000
    assert_eq!(gpu.frame_buffer[0x5000], PixelColor::BLACK.as_byte());
    assert_eq!(gpu.frame_buffer[0x5008], PixelColor::BLACK.as_byte());
}

#[test]
fn test_pixel_colors() {
    assert_eq!(PixelColor::WHITE.as_byte(), 255);
    assert_eq!(PixelColor::LIGHT_GRAY.as_byte(), 192);
    assert_eq!(PixelColor::DARK_GRAY.as_byte(), 96);
    assert_eq!(PixelColor::BLACK.as_byte(), 0);
}

#[test]
fn test_palette_round_trip() {
    // 0b11100100: slot 0 white .. slot 3 black, the identity palette
    let p = Palette::decode(0b11100100);
    assert_eq!(p, Palette::new());
    assert_eq!(p.encode(), 0b11100100);
    // an arbitrary byte survives decode/encode
    let q = Palette::decode(0x5A);
    assert_eq!(q.encode(), 0x5A);
}

#[test]
fn test_interrupt_request_join() {
    // commutativity and idempotence on concrete values
    let mut a = GpuInterruptRequest::VBlank;
    a.add(GpuInterruptRequest::LCDStat);
    assert_eq!(a, GpuInterruptRequest::Both);
    let mut b = GpuInterruptRequest::LCDStat;
    b.add(GpuInterruptRequest::VBlank);
    assert_eq!(b, GpuInterruptRequest::Both);
    let mut c = GpuInterruptRequest::VBlank;
    c.add(GpuInterruptRequest::VBlank);
    assert_eq!(c, GpuInterruptRequest::VBlank);
    let mut d = GpuInterruptRequest::NoRequest;
    d.add(GpuInterruptRequest::LCDStat);
    assert_eq!(d, GpuInterruptRequest::LCDStat);
    let mut e = GpuInterruptRequest::Both;
    e.add(GpuInterruptRequest::VBlank);
    assert_eq!(e, GpuInterruptRequest::Both);
}

#[test]
fn test_draw_line_writes_shades_only() {
    let mut gpu = Gpu::new();
    gpu.background_display_enabled = true;
    gpu.background_tile_data_area = true;
    // a tile with mixed colors
    gpu.write_vram(0x0000, 0b10100101);
    gpu.write_vram(0x0001, 0b11000011);
    gpu.current_line = 1;
    gpu.draw_line();
    for x in 0..160 {
        let b = gpu.frame_buffer[x];
        assert!(b == 0 || b == 96 || b == 192 || b == 255);
    }
}

#[test]
fn test_gpu_frame_timing() {
    // from the initial state, one frame of cycles brings the machine
    // back to line 0 in horizontal blank
    let mut gpu = Gpu::new();
    let mut total: u32 = 0;
    while total < 70224 {
        gpu.run(8);
        total += 8;
    }
    assert_eq!(gpu.current_line, 0);
    assert!(matches!(gpu.mode, Mode::HorizontalBlank));
}

#[test]
fn test_bus_vram_echo_and_decode() {
    let mut bus = Bus::new();
    // WRAM write appears in the echo region and back
    bus.write(0xC000, 0x12);
    assert_eq!(bus.read(0xE000), 0x12);
    bus.write(0xE005, 0x34);
    assert_eq!(bus.read(0xC005), 0x34);
    // every echo address reads as the address 0x2000 below
    bus.write(0xDDFF, 0x56);
    assert_eq!(bus.read(0xFDFF), bus.read(0xDDFF));
    // VRAM through the bus
    bus.write(0x8001, 0xAA);
    assert_eq!(bus.read(0x8001), 0xAA);
    // unmapped cartridge RAM reads 0xFF and drops writes
    bus.write(0xA000, 0x77);
    assert_eq!(bus.read(0xA000), 0xFF);
    // interrupt enable at 0xFFFF
    bus.write(0xFFFF, 0x1F);
    assert_eq!(bus.read(0xFFFF), 0x1F);
}

#[test]
fn test_lcd_registers_round_trip() {
    let mut bus = Bus::new();
    bus.write(0xFF40, 0x91);
    assert_eq!(bus.read(0xFF40), 0x91);
    bus.write(0xFF42, 0x12);
    bus.write(0xFF43, 0x34);
    assert_eq!(bus.read(0xFF42), 0x12);
    assert_eq!(bus.read(0xFF43), 0x34);
    bus.write(0xFF47, 0xE4);
    assert_eq!(bus.read(0xFF47), 0xE4);
    // LY is read-only
    bus.write(0xFF44, 0x55);
    assert_eq!(bus.read(0xFF44), 0x00);
}

#[test]
fn test_timer_overflow() {
    let mut t = Timer::new();
    // enable at the fastest rate: one increment each 16 cycles
    t.write_register(0xFF07, 0b101);
    t.write_register(0xFF06, 0xF0); // TMA
    t.write_register(0xFF05, 0xFF); // TIMA on the edge
    let raised = t.advance(16);
    assert!(raised);
    assert_eq!(t.read_register(0xFF05), 0xF0);
    // DIV counts every 256 cycles and resets on write
    let mut t2 = Timer::new();
    for _ in 0..32 {
        t2.advance(8);
    }
    assert_eq!(t2.read_register(0xFF04), 1);
    t2.write_register(0xFF04, 0x99);
    assert_eq!(t2.read_register(0xFF04), 0);
}

#[test]
fn test_pacer_timing() {
    let boot = [0u8; 256];
    let rom = [0u8; 32768];
    let mut emu = Emulator::new(&boot, &rom);
    assert_eq!(emu.state, EmulatorState::GetTime);

    let t0: u64 = 1_000;
    emu.run(4, t0);
    assert_eq!(emu.state, EmulatorState::RunMachine);

    // run one frame's worth of cycles, 4 at a time
    while emu.state == EmulatorState::RunMachine {
        emu.run(4, t0);
    }
    assert_eq!(emu.state, EmulatorState::WaitNextFrame);
    assert_eq!(emu.cycles_elapsed_in_frame, 0);
    assert!(!emu.frame_ready());

    // too early: still waiting
    emu.run(4, t0 + ONE_FRAME_IN_NS - 1);
    assert_eq!(emu.state, EmulatorState::WaitNextFrame);

    // the frame's wall time has passed
    emu.run(4, t0 + ONE_FRAME_IN_NS);
    assert_eq!(emu.state, EmulatorState::DisplayFrame);
    assert!(emu.frame_ready());

    // frame_ready holds for exactly one tick
    emu.run(4, t0 + ONE_FRAME_IN_NS);
    assert_eq!(emu.state, EmulatorState::GetTime);
    assert!(!emu.frame_ready());
}

#[test]
fn test_boot_rom_overlay() {
    let mut boot = [0u8; 256];
    boot[0] = 0x31;
    let mut rom = [0u8; 32768];
    rom[0] = 0xC3;
    let mut emu = Emulator::new(&boot, &rom);
    // boot ROM is mapped while the latch is 0
    assert_eq!(emu.soc.bus.read(0x0000), 0x31);
    emu.soc.bus.write(0xFF50, 1);
    assert_eq!(emu.soc.bus.read(0x0000), 0xC3);
}
