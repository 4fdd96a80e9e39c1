use vstd::prelude::*;

use crate::cpu::add16;
use crate::interrupt::bit_set;
use crate::memory::{BusModel, Memory, LCDC_ADDR, LY_ADDR};

verus! {

/// The four phases of a scanline.
#[derive(Clone, Copy, Debug, PartialEq, Eq, Structural)]
pub enum Mode {
    Hblank,
    Vblank,
    OamScan,
    PixelTransfer,
}

/// Number of visible scanlines; Vblank starts at this line.
pub const VISIBLE_LINES: u8 = 144;

/// The last line of Vblank.
pub const LAST_LINE: u8 = 153;

/// Cycles a mode lasts before the next transition: a line is 80 + 172 + 204
/// = 456 cycles, and each Vblank line lasts a whole line.
pub open spec fn threshold(mode: Mode) -> nat {
    match mode {
        Mode::OamScan => 80,
        Mode::PixelTransfer => 172,
        Mode::Hblank => 204,
        Mode::Vblank => 456,
    }
}

/// The mode and line after `mode` has run its course at `line`.
pub open spec fn transition(mode: Mode, line: u8) -> (Mode, u8) {
    match mode {
        Mode::OamScan => (Mode::PixelTransfer, line),
        Mode::PixelTransfer => (Mode::Hblank, line),
        Mode::Hblank => if line + 1 >= VISIBLE_LINES {
            (Mode::Vblank, VISIBLE_LINES)
        } else {
            (Mode::OamScan, (line + 1) as u8)
        },
        Mode::Vblank => if line + 1 > LAST_LINE {
            (Mode::OamScan, 0u8)
        } else {
            (Mode::Vblank, (line + 1) as u8)
        },
    }
}

/// Mode, line and leftover clock once every transition that `clock`
/// cycles pay for has been taken.
pub open spec fn settle(mode: Mode, line: u8, clock: nat) -> (Mode, u8, nat)
    decreases clock,
{
    if clock >= threshold(mode) && threshold(mode) > 0 {
        let (m2, l2) = transition(mode, line);
        settle(m2, l2, (clock - threshold(mode)) as nat)
    } else {
        (mode, line, clock)
    }
}

/// Advancing by `c` cycles and then by `d` cycles ends where advancing by
/// `c + d` cycles at once does: the timing depends on the cycle total alone.
pub proof fn lemma_settle_additive(mode: Mode, line: u8, c: nat, d: nat)
    ensures
        settle(settle(mode, line, c).0, settle(mode, line, c).1, settle(mode, line, c).2 + d)
            == settle(mode, line, c + d),
    decreases c,
{
    if c >= threshold(mode) && threshold(mode) > 0 {
        let (m2, l2) = transition(mode, line);
        lemma_settle_additive(m2, l2, (c - threshold(mode)) as nat, d);
        assert((c + d - threshold(mode)) as nat == (c - threshold(mode)) as nat + d);
    }
}

/// Whether bit 7 of the display-control register is set.
pub open spec fn display_enabled(bus: BusModel) -> bool {
    bus.io[(LCDC_ADDR - 0xFF01) as int] >= 0x80
}

/// The scanline timing machine.
#[derive(Clone, Copy, Debug, PartialEq, Eq, Structural)]
pub struct VideoController {
    pub mode: Mode,
    pub line: u8,
    pub clock: u32,
}

impl VideoController {
    /// Lines 0 to 143 are visible, 144 to 153 are Vblank, and the clock is
    /// below the current mode's threshold.
    pub open spec fn wf(self) -> bool {
        &&& self.line <= LAST_LINE
        &&& (self.mode == Mode::Vblank) == (self.line >= VISIBLE_LINES)
        &&& self.clock < threshold(self.mode)
    }

    /// Line 0 in Hblank with an empty clock.
    pub fn new() -> (v: VideoController)
        ensures
            v.wf(),
            v.mode == Mode::Hblank,
            v.line == 0,
            v.clock == 0,
    {
        VideoController { mode: Mode::Hblank, line: 0, clock: 0 }
    }

    /// Adds `cycles` to the clock and takes every transition they pay for,
    /// then publishes the line at 0xFF44. While bit 7 of 0xFF40 is clear
    /// nothing changes.
    pub fn advance(&mut self, bus: &mut Memory, cycles: u32)
        requires
            old(self).wf(),
            old(bus).wf(),
        ensures
            final(self).wf(),
            final(bus).wf(),
            display_enabled(old(bus)@) ==> (final(self).mode, final(self).line,
                final(self).clock as nat) == settle(old(self).mode, old(self).line,
                (old(self).clock + cycles) as nat)
                && final(bus)@ == old(bus)@.write(LY_ADDR, final(self).line),
            !display_enabled(old(bus)@) ==> *final(self) == *old(self) && final(bus)@ == old(bus)@,
    {
        let control = match bus.read(LCDC_ADDR) {
            Ok(v) => v,
            Err(_) => {
                assert(false);
                0
            },
        };
        if control < 0x80 {
            return;
        }
        let ghost target = settle(self.mode, self.line, (self.clock + cycles) as nat);
        let mut mode = self.mode;
        let mut line = self.line;
        let mut clock: u64 = self.clock as u64 + cycles as u64;
        loop
            invariant
                settle(mode, line, clock as nat) == target,
                line <= LAST_LINE,
                (mode == Mode::Vblank) == (line >= VISIBLE_LINES),
                clock <= u32::MAX as u64 + 456,
            ensures
                settle(mode, line, clock as nat) == target,
                line <= LAST_LINE,
                (mode == Mode::Vblank) == (line >= VISIBLE_LINES),
                clock < threshold(mode),
            decreases clock,
        {
            let limit: u64 = match mode {
                Mode::OamScan => 80,
                Mode::PixelTransfer => 172,
                Mode::Hblank => 204,
                Mode::Vblank => 456,
            };
            if clock < limit {
                break;
            }
            clock = clock - limit;
            match mode {
                Mode::OamScan => {
                    mode = Mode::PixelTransfer;
                },
                Mode::PixelTransfer => {
                    mode = Mode::Hblank;
                },
                Mode::Hblank => {
                    if line + 1 >= VISIBLE_LINES {
                        mode = Mode::Vblank;
                        line = VISIBLE_LINES;
                    } else {
                        mode = Mode::OamScan;
                        line = line + 1;
                    }
                },
                Mode::Vblank => {
                    if line + 1 > LAST_LINE {
                        mode = Mode::OamScan;
                        line = 0;
                    } else {
                        line = line + 1;
                    }
                },
            }
        }
        self.mode = mode;
        self.line = line;
        self.clock = clock as u32;
        let _ = bus.write(LY_ADDR, line);
    }
}

/// The grey level shown for the byte that a read yields: the byte itself,
/// black where no region backs the address.
pub open spec fn shade(b: Option<u8>) -> u8 {
    match b {
        Some(v) => v,
        None => 0,
    }
}

/// A 0RGB pixel with all three channels at `g`.
pub open spec fn grey_pixel(g: u8) -> u32 {
    (g * 0x10000 + g * 0x100 + g) as u32
}

/// A window onto the address space: the display-control byte it last read,
/// and a pixel buffer that shows memory bytes as grey levels, one per
/// pixel, walking down from `scroll`.
pub struct LcdScreen {
    pub scroll: u16,
    pub control: u8,
    pub offset: u16,
    pub width: usize,
    pub buffer: Vec<u32>,
}

impl LcdScreen {
    /// A screen of `width * height` black pixels.
    pub fn new(width: usize, height: usize) -> (s: LcdScreen)
        requires
            width * height <= usize::MAX,
        ensures
            s.width == width,
            s.scroll == 0,
            s.offset == 0,
            s.control == 0,
            s.buffer@ == Seq::new((width * height) as nat, |_i: int| 0u32),
    {
        let n = width * height;
        let mut buffer: Vec<u32> = Vec::new();
        let mut i: usize = 0;
        while i < n
            invariant
                i <= n,
                buffer@ == Seq::new(i as nat, |_i: int| 0u32),
            decreases n - i,
        {
            buffer.push(0);
            i = i + 1;
            assert(buffer@ =~= Seq::new(i as nat, |_i: int| 0u32));
        }
        LcdScreen { scroll: 0, control: 0, offset: 0, width, buffer }
    }

    /// Bit 7: the display is on.
    pub fn enabled(&self) -> (r: bool)
        ensures
            r == bit_set(self.control, 7),
    {
        (self.control >> 7) & 1 == 1
    }

    /// Bit 5: the window layer is shown.
    pub fn window_display_enable(&self) -> (r: bool)
        ensures
            r == bit_set(self.control, 5),
    {
        (self.control >> 5) & 1 == 1
    }

    /// Bit 1: sprites are shown.
    pub fn obj_display_enable(&self) -> (r: bool)
        ensures
            r == bit_set(self.control, 1),
    {
        (self.control >> 1) & 1 == 1
    }

    /// Bit 0: the background is shown.
    pub fn bg_display(&self) -> (r: bool)
        ensures
            r == bit_set(self.control, 0),
    {
        (self.control >> 0) & 1 == 1
    }

    /// Bit 6: the window tile map, 0x9800..0x9BFF when clear, 0x9C00..0x9FFF when set.
    pub fn window_tile_map_display_select(&self) -> (r: (u16, u16))
        ensures
            r == if bit_set(self.control, 6) { (0x9C00u16, 0x9FFFu16) } else { (0x9800u16, 0x9BFFu16) },
    {
        if (self.control >> 6) & 1 == 1 {
            (0x9C00, 0x9FFF)
        } else {
            (0x9800, 0x9BFF)
        }
    }

    /// Bit 4: the tile data, 0x8800..0x97FF when clear, 0x8000..0x8FFF when set.
    pub fn bg_and_window_tile_data_select(&self) -> (r: (u16, u16))
        ensures
            r == if bit_set(self.control, 4) { (0x8000u16, 0x8FFFu16) } else { (0x8800u16, 0x97FFu16) },
    {
        if (self.control >> 4) & 1 == 1 {
            (0x8000, 0x8FFF)
        } else {
            (0x8800, 0x97FF)
        }
    }

    /// Bit 3: the background tile map, 0x9800..0x9BFF when clear, 0x9C00..0x9FFF when set.
    pub fn bg_tile_map_display_select(&self) -> (r: (u16, u16))
        ensures
            r == if bit_set(self.control, 3) { (0x9C00u16, 0x9FFFu16) } else { (0x9800u16, 0x9BFFu16) },
    {
        if (self.control >> 3) & 1 == 1 {
            (0x9C00, 0x9FFF)
        } else {
            (0x9800, 0x9BFF)
        }
    }

    /// Bit 2: sprites are 8x8 when clear, 8x16 when set.
    pub fn obj_size(&self) -> (r: (u8, u8))
        ensures
            r == if bit_set(self.control, 2) { (8u8, 16u8) } else { (8u8, 8u8) },
    {
        if (self.control >> 2) & 1 == 1 {
            (8, 16)
        } else {
            (8, 8)
        }
    }

    /// Reads the display-control register.
    pub fn update(&mut self, bus: &Memory)
        requires
            bus.wf(),
        ensures
            final(self).control == bus@.io[(LCDC_ADDR - 0xFF01) as int],
            final(self).scroll == old(self).scroll,
            final(self).offset == old(self).offset,
            final(self).width == old(self).width,
            final(self).buffer == old(self).buffer,
    {
        match bus.read(LCDC_ADDR) {
            Ok(v) => {
                self.control = v;
            },
            Err(_) => {
                assert(false);
            },
        }
    }

    /// Moves the view by `rows` rows of `width` bytes.
    pub fn scroll_rows(&mut self, rows: u16)
        ensures
            final(self).scroll == add16(old(self).scroll, (old(self).width * rows) % 0x10000),
            final(self).control == old(self).control,
            final(self).offset == old(self).offset,
            final(self).width == old(self).width,
            final(self).buffer == old(self).buffer,
    {
        let w: u16 = (self.width % 0x10000) as u16;
        assert((w as u32) * (rows as u32) <= 0xFFFF * 0xFFFF) by (nonlinear_arith)
            requires
                w <= 0xFFFF,
                rows <= 0xFFFF,
        ;
        let amount: u16 = ((w as u32 * rows as u32) % 0x10000) as u16;
        proof {
            vstd::arithmetic::div_mod::lemma_mul_mod_noop_left(self.width as int, rows as int, 0x10000);
        }
        self.scroll = self.scroll.wrapping_add(amount);
    }

    /// Points at the pixel under (`x`, `y`): its distance from the top-left corner.
    pub fn point_at(&mut self, x: u16, y: u16)
        ensures
            final(self).offset == add16(0, ((y * old(self).width) % 0x10000) + x),
            final(self).control == old(self).control,
            final(self).scroll == old(self).scroll,
            final(self).width == old(self).width,
            final(self).buffer == old(self).buffer,
    {
        let w: u16 = (self.width % 0x10000) as u16;
        assert((y as u32) * (w as u32) <= 0xFFFF * 0xFFFF) by (nonlinear_arith)
            requires
                w <= 0xFFFF,
                y <= 0xFFFF,
        ;
        let row: u16 = ((y as u32 * w as u32) % 0x10000) as u16;
        proof {
            vstd::arithmetic::div_mod::lemma_mul_mod_noop_right(y as int, self.width as int, 0x10000);
        }
        self.offset = row.wrapping_add(x);
    }

    /// The address under the pointer and the byte there, for the title line.
    pub fn pointed(&self, bus: &Memory) -> (r: (u16, u8))
        requires
            bus.wf(),
        ensures
            r.0 == add16(self.scroll, -(self.offset as int)),
            r.1 == shade(bus@.read(r.0)),
    {
        let address = self.scroll.wrapping_sub(self.offset);
        let byte = match bus.read(address) {
            Ok(v) => v,
            Err(_) => 0,
        };
        (address, byte)
    }

    /// Fills the buffer: pixel `i` shows the byte at `scroll - i` as a grey level.
    pub fn draw(&mut self, bus: &Memory)
        requires
            bus.wf(),
        ensures
            final(self).buffer@.len() == old(self).buffer@.len(),
            forall|i: int| 0 <= i < final(self).buffer@.len() ==> #[trigger] final(self).buffer@[i]
                == grey_pixel(shade(bus@.read(add16(old(self).scroll, -i)))),
            final(self).control == old(self).control,
            final(self).scroll == old(self).scroll,
            final(self).offset == old(self).offset,
            final(self).width == old(self).width,
    {
        let n = self.buffer.len();
        let mut count: u16 = self.scroll;
        let mut i: usize = 0;
        while i < n
            invariant
                i <= n,
                n == self.buffer@.len(),
                bus.wf(),
                self.scroll == old(self).scroll,
                self.control == old(self).control,
                self.offset == old(self).offset,
                self.width == old(self).width,
                count == add16(self.scroll, -(i as int)),
                forall|j: int| 0 <= j < i ==> #[trigger] self.buffer@[j]
                    == grey_pixel(shade(bus@.read(add16(self.scroll, -j)))),
            decreases n - i,
        {
            let g: u8 = match bus.read(count) {
                Ok(v) => v,
                Err(_) => 0,
            };
            let pixel: u32 = g as u32 * 0x10000 + g as u32 * 0x100 + g as u32;
            self.buffer.set(i, pixel);
            count = count.wrapping_sub(1);
            i = i + 1;
        }
    }

    /// Switches the display on: sets bit 7 of the display-control register.
    pub fn run(&mut self, bus: &mut Memory)
        requires
            old(bus).wf(),
        ensures
            final(bus).wf(),
            final(bus)@ == old(bus)@.write(LCDC_ADDR, (old(bus)@.io[(LCDC_ADDR - 0xFF01) as int] | 0x80u8) as u8),
    {
        let control = match bus.read(LCDC_ADDR) {
            Ok(v) => v,
            Err(_) => {
                assert(false);
                0
            },
        };
        let _ = bus.write(LCDC_ADDR, control | 0x80);
    }
}

} // verus!
