use rustboy::cart::Cart;
use rustboy::lcd::{LcdScreen, Mode, VideoController};
use rustboy::memory::Memory;

fn bus(control: u8) -> Memory {
    let mut m = Memory::new([0u8; 256], Cart::new(vec![0u8; 0x8000]));
    m.write(0xFF40, control).unwrap();
    m
}

#[test]
fn oam_scan_to_pixel_transfer_to_next_line() {
    let mut m = bus(0x80);
    let mut v = VideoController { mode: Mode::OamScan, line: 0, clock: 0 };
    v.advance(&mut m, 80);
    assert_eq!(v.mode, Mode::PixelTransfer);
    assert_eq!(v.line, 0);
    v.advance(&mut m, 172);
    assert_eq!(v.mode, Mode::Hblank);
    assert_eq!(v.line, 0);
    v.advance(&mut m, 204);
    assert_eq!(v.mode, Mode::OamScan);
    assert_eq!(v.line, 1);
    assert_eq!(v.clock, 0);
    assert_eq!(m.read(0xFF44), Ok(1));
}

#[test]
fn one_large_advance_takes_every_transition() {
    let mut m = bus(0x80);
    let mut v = VideoController { mode: Mode::OamScan, line: 0, clock: 0 };
    v.advance(&mut m, 456);
    assert_eq!((v.mode, v.line, v.clock), (Mode::OamScan, 1, 0));
    v.advance(&mut m, 455);
    assert_eq!((v.mode, v.line, v.clock), (Mode::Hblank, 1, 203));
}

#[test]
fn small_advances_accumulate() {
    let mut m = bus(0x80);
    let mut v = VideoController { mode: Mode::OamScan, line: 0, clock: 0 };
    for _ in 0..19 {
        v.advance(&mut m, 4);
    }
    assert_eq!(v.mode, Mode::OamScan);
    assert_eq!(v.clock, 76);
    v.advance(&mut m, 4);
    assert_eq!(v.mode, Mode::PixelTransfer);
    assert_eq!(v.clock, 0);
}

#[test]
fn vblank_after_last_visible_line_then_wraps() {
    let mut m = bus(0x80);
    let mut v = VideoController { mode: Mode::Hblank, line: 143, clock: 0 };
    v.advance(&mut m, 204);
    assert_eq!((v.mode, v.line), (Mode::Vblank, 144));
    v.advance(&mut m, 4560 - 1);
    assert_eq!((v.mode, v.line, v.clock), (Mode::Vblank, 153, 455));
    v.advance(&mut m, 1);
    assert_eq!((v.mode, v.line, v.clock), (Mode::OamScan, 0, 0));
    assert_eq!(m.read(0xFF44), Ok(0));
}

#[test]
fn disabled_display_does_not_advance() {
    let mut m = bus(0x00);
    let mut v = VideoController::new();
    v.advance(&mut m, 1000);
    assert_eq!(v, VideoController { mode: Mode::Hblank, line: 0, clock: 0 });
}

#[test]
fn fresh_controller_is_hblank_at_line_zero() {
    let v = VideoController::new();
    assert_eq!((v.mode, v.line, v.clock), (Mode::Hblank, 0, 0));
}

#[test]
fn control_register_decoding() {
    let m = bus(0b1011_0101);
    let mut s = LcdScreen::new(4, 2);
    s.update(&m);
    assert_eq!(s.control, 0b1011_0101);
    assert!(s.enabled());
    assert!(s.window_display_enable());
    assert!(!s.obj_display_enable());
    assert!(s.bg_display());
    assert_eq!(s.window_tile_map_display_select(), (0x9800, 0x9BFF));
    assert_eq!(s.bg_and_window_tile_data_select(), (0x8000, 0x8FFF));
    assert_eq!(s.bg_tile_map_display_select(), (0x9800, 0x9BFF));
    assert_eq!(s.obj_size(), (8, 16));
}

#[test]
fn run_switches_display_on() {
    let mut m = bus(0x01);
    let mut s = LcdScreen::new(1, 1);
    s.run(&mut m);
    assert_eq!(m.read(0xFF40), Ok(0x81));
}

#[test]
fn draw_shows_bytes_as_grey() {
    let mut m = bus(0x80);
    m.write(0xC002, 0x10).unwrap();
    m.write(0xC001, 0xFF).unwrap();
    let mut s = LcdScreen::new(3, 1);
    s.scroll = 0xC002;
    s.draw(&m);
    assert_eq!(s.buffer, vec![0x101010, 0xFFFFFF, 0x7F7F7F]);
    s.scroll = 0xFE01;
    s.draw(&m);
    assert_eq!(s.buffer, vec![0, 0, 0x7F7F7F]);
}

#[test]
fn scrolling_and_pointing() {
    let m = bus(0x80);
    let mut s = LcdScreen::new(160, 144);
    s.scroll = 0xC100;
    s.scroll_rows(2);
    assert_eq!(s.scroll, 0xC240);
    s.point_at(3, 1);
    assert_eq!(s.offset, 163);
    assert_eq!(s.pointed(&m), (0xC240 - 163, 0x7F));
}
