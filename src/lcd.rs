use vstd::prelude::*;
use crate::palette::{Palette, palette_from_byte, palette_to_byte, apply_palette, shade_index};
use crate::ppu::{MEMORY_SIZE, tile_pixel, bg_pixel, bg_map_base, tile_pixel_value, background_pixel, background_map_base};

verus! {

pub const LCD_CONTROL_ADDRESS: u16 = 0xFF40;
pub const LCD_SCY_ADDRESS: u16 = 0xFF42;
pub const LCD_SCX_ADDRESS: u16 = 0xFF43;
pub const LCD_LY_ADDRESS: u16 = 0xFF44;
pub const LCD_BGPALETTE_ADDRESS: u16 = 0xFF47;

pub const CLOCKS_SEARCHING_OAM: u16 = 80;
pub const CLOCKS_TRANSFERRING: u16 = 172;
pub const CLOCKS_HBLANK: u16 = 204;
pub const CLOCKS_VBLANK: u16 = 456;

/// Width of the visible screen in pixels.
pub const SCREEN_WIDTH: u16 = 160;
/// Scanline at which vertical blanking begins.
pub const VBLANK_LINE: u8 = 144;
/// Last scanline of a frame.
pub const LAST_LINE: u8 = 153;
/// Side of the square frame buffer.
pub const FRAME_SIDE: usize = 256;

/// Tiles per row, and rows of tiles, in the tile-data debug view.
pub const TILEDATA_COLS: usize = 16;
pub const TILEDATA_ROWS: usize = 24;
/// Width and height in pixels of the tile-data debug image.
pub const TILEDATA_WIDTH: usize = 128;
pub const TILEDATA_HEIGHT: usize = 192;

#[derive(Clone, Copy, Debug, PartialEq, Eq, Structural)]
pub enum LCDMode {
    SearchingOAM,
    Transferring,
    HBlank,
    VBlank,
}

/// The eight flags of the LCD control register, bits 7..0.
#[derive(Clone, Copy, Debug, PartialEq, Eq, Structural)]
pub enum LCDControl {
    Power,
    WindowTileMap,
    WindowEnable,
    BGandWindowTileSet,
    BGTileMap,
    SpriteSize,
    SpritesEnabled,
    BGEnabled,
}

pub open spec fn control_mask(c: LCDControl) -> u8 {
    match c {
        LCDControl::Power => 0x80,
        LCDControl::WindowTileMap => 0x40,
        LCDControl::WindowEnable => 0x20,
        LCDControl::BGandWindowTileSet => 0x10,
        LCDControl::BGTileMap => 0x08,
        LCDControl::SpriteSize => 0x04,
        LCDControl::SpritesEnabled => 0x02,
        LCDControl::BGEnabled => 0x01,
    }
}

/// Cycles a mode lasts before the controller moves on.
pub open spec fn mode_clocks(m: LCDMode) -> u16 {
    match m {
        LCDMode::SearchingOAM => CLOCKS_SEARCHING_OAM,
        LCDMode::Transferring => CLOCKS_TRANSFERRING,
        LCDMode::HBlank => CLOCKS_HBLANK,
        LCDMode::VBlank => CLOCKS_VBLANK,
    }
}

/// The timing part of the controller: mode, cycle counter and scanline.
pub struct Timing {
    pub mode: LCDMode,
    pub clock: u16,
    pub scanline: u8,
}

/// Mode, counter and scanline after `cycles` more cycles, and whether the
/// VBlank interrupt is requested on the way. At most one transition happens.
pub open spec fn timing_after(mode: LCDMode, clock: u16, scanline: u8, cycles: u16) -> (Timing, bool) {
    let c = clock + cycles;
    if c < mode_clocks(mode) {
        (Timing { mode, clock: c as u16, scanline }, false)
    } else {
        match mode {
            LCDMode::SearchingOAM => (Timing { mode: LCDMode::Transferring, clock: 0, scanline }, false),
            LCDMode::Transferring => (Timing { mode: LCDMode::HBlank, clock: 0, scanline }, false),
            LCDMode::HBlank => if scanline + 1 == VBLANK_LINE {
                (Timing { mode: LCDMode::VBlank, clock: 0, scanline: VBLANK_LINE }, true)
            } else {
                (Timing { mode: LCDMode::SearchingOAM, clock: 0, scanline: (scanline + 1) as u8 }, false)
            },
            LCDMode::VBlank => if scanline + 1 > LAST_LINE {
                (Timing { mode: LCDMode::SearchingOAM, clock: 0, scanline: 0 }, false)
            } else {
                (Timing { mode: LCDMode::VBlank, clock: 0, scanline: (scanline + 1) as u8 }, false)
            },
        }
    }
}

/// One full scanline period from the start of SearchingOAM: ticks of 80, 172
/// and 204 cycles, and how many of them request VBlank.
pub open spec fn line_period(t: Timing) -> (Timing, nat) {
    let (t1, v1) = timing_after(t.mode, t.clock, t.scanline, CLOCKS_SEARCHING_OAM);
    let (t2, v2) = timing_after(t1.mode, t1.clock, t1.scanline, CLOCKS_TRANSFERRING);
    let (t3, v3) = timing_after(t2.mode, t2.clock, t2.scanline, CLOCKS_HBLANK);
    (t3, (if v1 { 1nat } else { 0nat }) + (if v2 { 1nat } else { 0nat }) + (if v3 { 1nat } else { 0nat }))
}

/// `n` scanline periods from the power-on timing, and how many VBlank
/// requests they raise in all.
pub open spec fn line_periods(n: nat) -> (Timing, nat)
    decreases n,
{
    if n == 0 {
        (Timing { mode: LCDMode::SearchingOAM, clock: 0, scanline: 0 }, 0)
    } else {
        let (t, k) = line_periods((n - 1) as nat);
        let (t2, k2) = line_period(t);
        (t2, k + k2)
    }
}

/// From SearchingOAM on scanline 0, 80 cycles lead to Transferring, 172 more
/// to HBlank, and 204 more to scanline 1 in SearchingOAM. Each of the first
/// 143 scanline periods ends in SearchingOAM on the next scanline; the 144th
/// ends on scanline 144 in VBlank, and over all of them the VBlank request is
/// raised exactly once, at that last transition.
pub proof fn lemma_visible_frame(n: nat)
    requires
        n <= 144,
    ensures
        n < 144 ==> line_periods(n) == (Timing { mode: LCDMode::SearchingOAM, clock: 0, scanline: n as u8 }, 0nat),
        n == 144 ==> line_periods(n) == (Timing { mode: LCDMode::VBlank, clock: 0, scanline: 144 }, 1nat),
        ({
            let (t1, v1) = timing_after(LCDMode::SearchingOAM, 0, 0, CLOCKS_SEARCHING_OAM);
            let (t2, v2) = timing_after(t1.mode, t1.clock, t1.scanline, CLOCKS_TRANSFERRING);
            let (t3, v3) = timing_after(t2.mode, t2.clock, t2.scanline, CLOCKS_HBLANK);
            &&& t1.mode == LCDMode::Transferring && !v1
            &&& t2.mode == LCDMode::HBlank && !v2
            &&& t3.mode == LCDMode::SearchingOAM && t3.scanline == 1 && !v3
        }),
    decreases n,
{
    if n > 0 {
        lemma_visible_frame((n - 1) as nat);
    }
}

/// In VBlank, each 456-cycle period moves to the next scanline; from scanline
/// 153 it wraps to scanline 0 and SearchingOAM. No VBlank request is raised.
pub proof fn lemma_vblank_lines(scanline: u8)
    requires
        VBLANK_LINE <= scanline <= LAST_LINE,
    ensures
        ({
            let (t, raised) = timing_after(LCDMode::VBlank, 0, scanline, CLOCKS_VBLANK);
            &&& !raised
            &&& t.clock == 0
            &&& scanline < LAST_LINE ==> t.mode == LCDMode::VBlank && t.scanline == scanline + 1
            &&& scanline == LAST_LINE ==> t.mode == LCDMode::SearchingOAM && t.scanline == 0
        }),
{
}

/// The post-palette shade index (0..=3) of a background pixel.
pub open spec fn bg_shade(mem: Seq<u8>, control: u8, palette: Palette, x: int, y: int) -> u8 {
    shade_index(apply_palette(palette, bg_pixel(mem, control, x, y)))
}

/// The LCD controller: registers, mode state machine and frame buffer.
pub struct LCD {
    pub control: u8,
    pub clock: u16,
    pub mode: LCDMode,
    pub scanline: u8,
    pub scy: u8,
    pub scx: u8,
    pub bgpalette: Palette,
    /// 256x256 shade indices, row-major.
    pub screenbuffer: Vec<u8>,
}

impl LCD {
    /// Buffer length, counter bound, scanline range, and VBlank exactly on
    /// scanlines 144..=153.
    pub open spec fn wf(&self) -> bool {
        &&& self.screenbuffer@.len() == MEMORY_SIZE
        &&& self.clock < mode_clocks(self.mode)
        &&& self.scanline <= LAST_LINE
        &&& (self.mode == LCDMode::VBlank <==> self.scanline >= VBLANK_LINE)
    }

    /// The shade that the background puts at pixel `px` of scanline `line`,
    /// after scrolling.
    pub open spec fn line_shade(&self, mem: Seq<u8>, line: int, px: int) -> u8 {
        bg_shade(mem, self.control, self.bgpalette, (self.scx + px) % 256, (self.scy + line) % 256)
    }

    /// The frame buffer after scanline `self.scanline` is rendered.
    pub open spec fn rendered(&self, mem: Seq<u8>) -> Seq<u8> {
        if self.control & 0x01u8 != 0 {
            Seq::new(
                MEMORY_SIZE as nat,
                |i: int|
                    if i / 256 == self.scanline && i % 256 < SCREEN_WIDTH {
                        self.line_shade(mem, self.scanline as int, i % 256)
                    } else {
                        self.screenbuffer@[i]
                    },
            )
        } else {
            self.screenbuffer@
        }
    }

    /// The byte that a register of this controller reads as.
    pub open spec fn register(&self, address: u16) -> u8 {
        if address == LCD_CONTROL_ADDRESS {
            self.control
        } else if address == LCD_SCY_ADDRESS {
            self.scy
        } else if address == LCD_SCX_ADDRESS {
            self.scx
        } else if address == LCD_LY_ADDRESS {
            self.scanline
        } else if address == LCD_BGPALETTE_ADDRESS {
            palette_to_byte(self.bgpalette)
        } else {
            0
        }
    }

    pub open spec fn owns(address: u16) -> bool {
        address == LCD_CONTROL_ADDRESS || address == LCD_SCY_ADDRESS || address == LCD_SCX_ADDRESS
            || address == LCD_LY_ADDRESS || address == LCD_BGPALETTE_ADDRESS
    }

    pub fn new() -> (r: LCD)
        ensures
            r.wf(),
            r.mode == LCDMode::SearchingOAM,
            r.scanline == 0,
            r.clock == 0,
            r.control == 0 && r.scx == 0 && r.scy == 0,
            r.bgpalette == palette_from_byte(0),
            r.screenbuffer@ == Seq::new(MEMORY_SIZE as nat, |i: int| 0u8),
    {
        let buf = vec![0u8; MEMORY_SIZE];
        assert(buf@ =~= Seq::new(MEMORY_SIZE as nat, |i: int| 0u8));
        LCD {
            control: 0,
            clock: 0,
            mode: LCDMode::SearchingOAM,
            scanline: 0,
            scy: 0,
            scx: 0,
            bgpalette: Palette::from_byte(0),
            screenbuffer: buf,
        }
    }

    pub fn mode(&self) -> (r: LCDMode)
        ensures
            r == self.mode,
    {
        self.mode
    }

    pub fn read_scanline(&self) -> (r: u8)
        ensures
            r == self.scanline,
    {
        self.scanline
    }

    pub fn read_control(&self, parameter: LCDControl) -> (r: bool)
        ensures
            r == (self.control & control_mask(parameter) != 0),
    {
        let mask: u8 = match parameter {
            LCDControl::Power => 0x80,
            LCDControl::WindowTileMap => 0x40,
            LCDControl::WindowEnable => 0x20,
            LCDControl::BGandWindowTileSet => 0x10,
            LCDControl::BGTileMap => 0x08,
            LCDControl::SpriteSize => 0x04,
            LCDControl::SpritesEnabled => 0x02,
            LCDControl::BGEnabled => 0x01,
        };
        self.control & mask != 0
    }

    pub fn set_control(&mut self, parameter: LCDControl)
        ensures
            final(self).control == old(self).control | control_mask(parameter),
            final(self).mode == old(self).mode,
            final(self).clock == old(self).clock,
            final(self).scanline == old(self).scanline,
            final(self).scx == old(self).scx,
            final(self).scy == old(self).scy,
            final(self).bgpalette == old(self).bgpalette,
            final(self).screenbuffer@ == old(self).screenbuffer@,
    {
        let mask: u8 = match parameter {
            LCDControl::Power => 0x80,
            LCDControl::WindowTileMap => 0x40,
            LCDControl::WindowEnable => 0x20,
            LCDControl::BGandWindowTileSet => 0x10,
            LCDControl::BGTileMap => 0x08,
            LCDControl::SpriteSize => 0x04,
            LCDControl::SpritesEnabled => 0x02,
            LCDControl::BGEnabled => 0x01,
        };
        self.control = self.control | mask;
    }

    pub fn background_tile_map(&self) -> (r: u16)
        ensures
            r == bg_map_base(self.control),
    {
        background_map_base(self.control)
    }

    /// Reads one of the controller's registers.
    pub fn read_byte(&self, address: u16) -> (r: u8)
        ensures
            r == self.register(address),
    {
        if address == LCD_CONTROL_ADDRESS {
            self.control
        } else if address == LCD_SCY_ADDRESS {
            self.scy
        } else if address == LCD_SCX_ADDRESS {
            self.scx
        } else if address == LCD_LY_ADDRESS {
            self.scanline
        } else if address == LCD_BGPALETTE_ADDRESS {
            self.bgpalette.to_byte()
        } else {
            0
        }
    }

    /// Writes one of the controller's registers. The scanline register only
    /// mirrors the internal counter: writes to it are ignored.
    pub fn write_byte(&mut self, address: u16, value: u8)
        requires
            old(self).wf(),
        ensures
            final(self).wf(),
            Self::owns(address) && address != LCD_LY_ADDRESS ==> final(self).register(address)
                == value,
            forall|a: u16| a != address ==> #[trigger] final(self).register(a) == old(self).register(a),
            address == LCD_LY_ADDRESS ==> final(self).register(address) == old(self).register(address),
            final(self).mode == old(self).mode,
            final(self).clock == old(self).clock,
            final(self).scanline == old(self).scanline,
            final(self).screenbuffer@ == old(self).screenbuffer@,
    {
        if address == LCD_CONTROL_ADDRESS {
            self.control = value;
        } else if address == LCD_SCY_ADDRESS {
            self.scy = value;
        } else if address == LCD_SCX_ADDRESS {
            self.scx = value;
        } else if address == LCD_BGPALETTE_ADDRESS {
            self.bgpalette = Palette::from_byte(value);
            proof {
                crate::palette::lemma_palette_round_trip(value);
            }
        }
    }

    /// Draws the current scanline's 160 background pixels into the frame
    /// buffer, when the background is enabled.
    pub fn render_scanline(&mut self, mem: &Vec<u8>)
        requires
            old(self).wf(),
            mem@.len() == MEMORY_SIZE,
        ensures
            final(self).screenbuffer@ == old(self).rendered(mem@),
            final(self).wf(),
            final(self).control == old(self).control,
            final(self).mode == old(self).mode,
            final(self).clock == old(self).clock,
            final(self).scanline == old(self).scanline,
            final(self).scx == old(self).scx,
            final(self).scy == old(self).scy,
            final(self).bgpalette == old(self).bgpalette,
    {
        if self.control & 0x01 == 0 {
            return;
        }
        let ghost before = self.screenbuffer@;
        let ghost target = old(self).rendered(mem@);
        let line = self.scanline;
        let y: u8 = ((self.scy as u16 + line as u16) % 256) as u8;
        let row_start: usize = line as usize * FRAME_SIDE;
        let mut px: u16 = 0;
        while px < SCREEN_WIDTH
            invariant
                px <= SCREEN_WIDTH,
                mem@.len() == MEMORY_SIZE,
                line == old(self).scanline,
                line <= LAST_LINE,
                row_start == line * 256,
                y == (old(self).scy + line) % 256,
                self.control == old(self).control,
                self.mode == old(self).mode,
                self.clock == old(self).clock,
                self.scanline == old(self).scanline,
                self.scx == old(self).scx,
                self.scy == old(self).scy,
                self.bgpalette == old(self).bgpalette,
                before == old(self).screenbuffer@,
                self.screenbuffer@.len() == MEMORY_SIZE,
                forall|i: int|
                    0 <= i < MEMORY_SIZE ==> #[trigger] self.screenbuffer@[i] == if i / 256 == line && i
                        % 256 < px {
                        old(self).line_shade(mem@, line as int, i % 256)
                    } else {
                        before[i]
                    },
            decreases SCREEN_WIDTH - px,
        {
            let x: u8 = ((self.scx as u16 + px) % 256) as u8;
            let v = background_pixel(mem, self.control, x, y);
            let shade = self.bgpalette.apply(v).index();
            let idx = row_start + px as usize;
            self.screenbuffer.set(idx, shade);
            px = px + 1;
        }
        assert(self.screenbuffer@ =~= target);
    }

    /// Advances the mode state machine by `cycles`. Renders the finished
    /// scanline when leaving Transferring, and returns whether the VBlank
    /// interrupt is to be requested.
    pub fn tick(&mut self, cycles: u16, mem: &Vec<u8>) -> (vblank: bool)
        requires
            old(self).wf(),
            mem@.len() == MEMORY_SIZE,
        ensures
            final(self).wf(),
            ({
                let (t, raised) = timing_after(old(self).mode, old(self).clock, old(self).scanline, cycles);
                &&& final(self).mode == t.mode
                &&& final(self).clock == t.clock
                &&& final(self).scanline == t.scanline
                &&& vblank == raised
            }),
            final(self).screenbuffer@ == if old(self).mode == LCDMode::Transferring && old(self).clock
                + cycles >= CLOCKS_TRANSFERRING {
                old(self).rendered(mem@)
            } else {
                old(self).screenbuffer@
            },
            final(self).control == old(self).control,
            final(self).scx == old(self).scx,
            final(self).scy == old(self).scy,
            final(self).bgpalette == old(self).bgpalette,
    {
        let c: u32 = self.clock as u32 + cycles as u32;
        match self.mode {
            LCDMode::SearchingOAM => {
                if c >= CLOCKS_SEARCHING_OAM as u32 {
                    self.clock = 0;
                    self.mode = LCDMode::Transferring;
                } else {
                    self.clock = c as u16;
                }
                false
            },
            LCDMode::Transferring => {
                if c >= CLOCKS_TRANSFERRING as u32 {
                    self.render_scanline(mem);
                    self.clock = 0;
                    self.mode = LCDMode::HBlank;
                } else {
                    self.clock = c as u16;
                }
                false
            },
            LCDMode::HBlank => {
                if c >= CLOCKS_HBLANK as u32 {
                    self.clock = 0;
                    self.scanline = self.scanline + 1;
                    if self.scanline == VBLANK_LINE {
                        self.mode = LCDMode::VBlank;
                        true
                    } else {
                        self.mode = LCDMode::SearchingOAM;
                        false
                    }
                } else {
                    self.clock = c as u16;
                    false
                }
            },
            LCDMode::VBlank => {
                if c >= CLOCKS_VBLANK as u32 {
                    self.clock = 0;
                    if self.scanline + 1 > LAST_LINE {
                        self.scanline = 0;
                        self.mode = LCDMode::SearchingOAM;
                    } else {
                        self.scanline = self.scanline + 1;
                    }
                } else {
                    self.clock = c as u16;
                }
                false
            },
        }
    }

    /// The tile-data debug view at index `i` of a frame: the 384 tiles laid
    /// out 16 per row, as a 128-pixel-wide image packed row after row, through
    /// the background palette; White after the image's last pixel.
    pub open spec fn tiledata_shade(&self, mem: Seq<u8>, i: int) -> u8 {
        let x = i % (TILEDATA_WIDTH as int);
        let y = i / (TILEDATA_WIDTH as int);
        if i < TILEDATA_WIDTH * TILEDATA_HEIGHT {
            shade_index(apply_palette(self.bgpalette, tile_pixel(mem, (y / 8) * 16 + x / 8, y % 8, x % 8)))
        } else {
            0
        }
    }

    /// Renders every tile of video RAM into a 65536-entry frame.
    pub fn read_tiledata(&self, mem: &Vec<u8>) -> (r: Vec<u8>)
        requires
            mem@.len() == MEMORY_SIZE,
        ensures
            r@ == Seq::new(MEMORY_SIZE as nat, |i: int| self.tiledata_shade(mem@, i)),
    {
        let mut out: Vec<u8> = Vec::new();
        let mut i: usize = 0;
        while i < MEMORY_SIZE
            invariant
                i <= MEMORY_SIZE,
                mem@.len() == MEMORY_SIZE,
                out@ =~= Seq::new(i as nat, |j: int| self.tiledata_shade(mem@, j)),
            decreases MEMORY_SIZE - i,
        {
            let v: u8 = if i < TILEDATA_WIDTH * TILEDATA_HEIGHT {
                let x = i % TILEDATA_WIDTH;
                let y = i / TILEDATA_WIDTH;
                assert(y < TILEDATA_HEIGHT);
                let tile = (y / 8) * TILEDATA_COLS + x / 8;
                let p = tile_pixel_value(mem, tile as u16, (y % 8) as u8, (x % 8) as u8);
                self.bgpalette.apply(p).index()
            } else {
                0
            };
            out.push(v);
            i = i + 1;
        }
        out
    }

    /// Renders the whole 256x256 background map, unscrolled, into a frame.
    pub fn read_background(&self, mem: &Vec<u8>) -> (r: Vec<u8>)
        requires
            mem@.len() == MEMORY_SIZE,
        ensures
            r@ == Seq::new(
                MEMORY_SIZE as nat,
                |i: int| bg_shade(mem@, self.control, self.bgpalette, i % 256, i / 256),
            ),
    {
        let mut out: Vec<u8> = Vec::new();
        let mut i: usize = 0;
        while i < MEMORY_SIZE
            invariant
                i <= MEMORY_SIZE,
                mem@.len() == MEMORY_SIZE,
                out@ =~= Seq::new(
                    i as nat,
                    |j: int| bg_shade(mem@, self.control, self.bgpalette, j % 256, j / 256),
                ),
            decreases MEMORY_SIZE - i,
        {
            let x = (i % FRAME_SIDE) as u8;
            let y = (i / FRAME_SIDE) as u8;
            let p = background_pixel(mem, self.control, x, y);
            out.push(self.bgpalette.apply(p).index());
            i = i + 1;
        }
        out
    }

    /// A copy of the frame buffer.
    pub fn read_screenbuffer(&self) -> (r: Vec<u8>)
        ensures
            r@ == self.screenbuffer@,
    {
        self.screenbuffer.clone()
    }
}

} // verus!
