//! Graphics processing
//!
//! This computes graphics output into the frame buffer, one dot per clock
//! cycle, and keeps the LCD registers up to date.

pub mod tile;

use vstd::prelude::*;
use crate::backend::{Color, FrameBuffer, FRAME_HEIGHT, FRAME_WIDTH, pixel_index};
use crate::emu::clock::{Clock, Cycles, CYCLES_PER_FRAME_VALUE};
use crate::emu::gpu::tile::{
    Tile, TileData, TileDataArea, TileIndex, TileMapArea, TileMaps, color_of_bits, map_position,
    tile_line_at,
    tile_number,
};
use crate::emu::memory::{AddressRange, MemoryView};
use crate::util::{Bit, FlagBits, Flags, bit_is_set, spec_pack};

verus! {

/// Dots in a single scanline
pub const SCANLINE_DOTS: u64 = 456;
/// Number of scanlines in each frame
pub const SCANLINES_PER_FRAME: u8 = 154;
/// Number of scanlines in each frame that involve drawing
///
/// This is [SCANLINES_PER_FRAME] minus the number of vertical blank lines in
/// each frame.
pub const SCANLINES_PER_FRAME_DRAWN: u8 = 144;
/// Length of mode 2 (OAM scan) in dots
pub const OAM_DURATION: u64 = 80;
/// Delay in mode 3 (draw) before the first pixel, in dots
pub const DRAW_DELAY: u64 = 12;
/// Number of bytes of Object Attribute Memory (40 objects, 4 bytes each)
pub const OAM_LEN: usize = 160;
/// Most objects drawn on one scanline
pub const MAX_OBJECTS_PER_LINE: usize = 10;

/// Index of a color within the active palette
///
/// https://gbdev.io/pandocs/Palettes.html
#[derive(Clone, Copy, Debug, PartialEq, Eq, Structural)]
pub enum ColorIndex {
    Zero,
    One,
    Two,
    Three,
}

/// Graphics registers and processing
#[derive(Debug)]
pub struct Gpu {
    /// Memory specific to the GPU
    pub vram: Vram,
    /// State machine for the current scanline being drawn
    pub current_scanline: ScanlineState,
}

impl Gpu {
    /// A GPU with empty video memory, before the first scanline
    pub fn new() -> (r: Self)
        ensures
            r.vram.wf(),
            r.current_scanline is Start,
            forall|i: int| 0 <= i < 7 ==> #[trigger] r.vram.registers.byte(i) == 0,
            forall|i: int| 0 <= i < OAM_LEN ==> #[trigger] r.vram.oam@[i] == 0,
            forall|i: int| 0 <= i < tile::TILE_DATA_LEN ==> #[trigger] r.vram.tile_data.data@[i] == 0,
            forall|i: int| 0 <= i < tile::TILE_MAPS_LEN ==> #[trigger] r.vram.tile_maps.maps@[i] == 0,
    {
        Self { vram: Vram::new(), current_scanline: ScanlineState::Start }
    }

    /// Can the scanline state advance on the tick after clock cycle `cycles`?
    ///
    /// This holds of a fresh GPU at cycle 0 and is kept by every tick, so a
    /// GPU ticked once per clock cycle never leaves it.
    pub open spec fn agrees_with(&self, cycles: int) -> bool {
        let (line, dot) = spec_scanline_of(cycles);
        self.current_scanline.agrees_with(line, dot)
    }

    /// Advance the GPU one clock cycle
    ///
    /// Return `true` if this was the last tick of the current frame and the
    /// frame is now ready to be drawn.
    #[verifier::spinoff_prover]
    pub fn tick(&mut self, clock: &Clock, frame: &mut FrameBuffer) -> (r: bool)
        requires
            old(self).vram.wf(),
            old(frame).wf(),
            clock.cycles.0 >= 1,
            old(self).agrees_with(clock.cycles.0 - 1),
        ensures
            final(self).vram.wf(),
            final(frame).wf(),
            final(self).agrees_with(clock.cycles.0 as int),
            spec_tick(*old(self), *final(self), clock.cycles.0 as int, old(frame).pixels@, final(frame).pixels@, r),
    {
        reveal(spec_tick);
        // Each scanline is a fixed number of dots, so we can calculate the
        // scanline from the current clock cycle
        let (scanline, scanline_dots) = Scanline::from_clock(clock);
        proof {
            lemma_scanline_step((clock.cycles.0 - 1) as nat);
        }
        let ppu_mode = if scanline.0 < SCANLINES_PER_FRAME_DRAWN {
            // Each state is calculated from the previous and may need to carry
            // over owned values, so take it out of its slot and put the next
            // one back.
            let mut state = ScanlineState::Start;
            std::mem::swap(&mut state, &mut self.current_scanline);
            self.current_scanline = state.tick(scanline, scanline_dots, &self.vram, frame);
            self.current_scanline.mode()
        } else {
            self.current_scanline = ScanlineState::Start;
            PpuMode::VerticalBlank
        };

        // Update registers
        let lyc_equal_ly = scanline.0 == self.vram.registers.lyc.0;
        let mut stat = self.vram.registers.stat.unpack();
        stat.ppu_mode = ppu_mode;
        stat.lyc_equal_ly = lyc_equal_ly;
        self.vram.registers.ly = scanline;
        self.vram.registers.stat = FlagBits::pack(stat);

        clock.is_frame_end()
    }

    /// Get read-only access to the GPU I/O registers
    pub fn registers(&self) -> (r: &Registers)
        ensures
            *r == self.vram.registers,
    {
        &self.vram.registers
    }

    /// Get mutable access to the GPU I/O registers
    pub fn registers_mut(&mut self) -> (r: &mut Registers)
        ensures
            *r == old(self).vram.registers,
            final(self).vram.registers == *final(r),
            final(self).vram.oam == old(self).vram.oam,
            final(self).vram.tile_data == old(self).vram.tile_data,
            final(self).vram.tile_maps == old(self).vram.tile_maps,
            final(self).current_scanline == old(self).current_scanline,
    {
        &mut self.vram.registers
    }

    /// Read the `ppu_mode` flag of the `STAT` register
    pub fn mode(&self) -> (r: PpuMode)
        ensures
            r == LcdStatus::spec_unpack(self.vram.registers.stat.value).ppu_mode,
    {
        self.vram.mode()
    }

    /// Access the Object Attribute Memory (`0xFE00-0xFE9F`)
    ///
    /// OAM is only accessible in modes 0 and 1. In modes 2 and 3 the view is
    /// null.
    pub fn oam(&self) -> (r: MemoryView<'_>)
        requires
            self.vram.wf(),
        ensures
            r.wf(),
            r.range.start.0 == 0xFE00 && r.range.last.0 == 0xFE9F,
            r.value is Some <==> self.vram.spec_oam_accessible(),
            r.value matches Some(bytes) ==> bytes@ == self.vram.oam@,
    {
        let range = AddressRange::named("OAM", 0xFE00, 0xFE9F);
        if self.vram.oam_accessible() {
            MemoryView::from_slice(self.vram.oam.as_slice(), range)
        } else {
            MemoryView::null(range)
        }
    }

    /// Access tile data memory (`0x8000-0x97FF`)
    ///
    /// VRAM is only accessible in modes 0-2. In mode 3 the view is null.
    pub fn tile_data(&self) -> (r: MemoryView<'_>)
        requires
            self.vram.wf(),
        ensures
            r.wf(),
            r.range.start.0 == 0x8000 && r.range.last.0 == 0x97FF,
            r.value is Some <==> self.vram.spec_vram_accessible(),
            r.value matches Some(bytes) ==> bytes@ == self.vram.tile_data.data@,
    {
        let range = AddressRange::named("Tile Data", 0x8000, 0x97FF);
        if self.vram.vram_accessible() {
            MemoryView::from_slice(self.vram.tile_data.as_slice(), range)
        } else {
            MemoryView::null(range)
        }
    }

    /// Access tile map memory (`0x9800-0x9FFF`)
    ///
    /// VRAM is only accessible in modes 0-2. In mode 3 the view is null.
    pub fn tile_maps(&self) -> (r: MemoryView<'_>)
        requires
            self.vram.wf(),
        ensures
            r.wf(),
            r.range.start.0 == 0x9800 && r.range.last.0 == 0x9FFF,
            r.value is Some <==> self.vram.spec_vram_accessible(),
            r.value matches Some(bytes) ==> bytes@ == self.vram.tile_maps.maps@,
    {
        let range = AddressRange::named("Tile Maps", 0x9800, 0x9FFF);
        if self.vram.vram_accessible() {
            MemoryView::from_slice(self.vram.tile_maps.as_slice(), range)
        } else {
            MemoryView::null(range)
        }
    }
}

/// What a GPU tick at clock cycle `cycles` does, from state `old` and frame
/// pixels `old_pixels` to `new` and `new_pixels`, returning `frame_end`
///
/// On drawn lines the scanline state machine advances (drawing at most one
/// pixel); on vertical blank lines it rests. `LY` and `STAT` then describe
/// the line and mode, and the rest of video memory is untouched.
#[verifier::opaque]
pub open spec fn spec_tick(
    old: Gpu,
    new: Gpu,
    cycles: int,
    old_pixels: Seq<Color>,
    new_pixels: Seq<Color>,
    frame_end: bool,
) -> bool {
    let (line, dot) = spec_scanline_of(cycles);
    &&& frame_end == ((cycles + 1) % (CYCLES_PER_FRAME_VALUE as int) == 0)
    &&& line < SCANLINES_PER_FRAME_DRAWN ==> old.current_scanline.spec_next(new.current_scanline, dot, old.vram)
    &&& line < SCANLINES_PER_FRAME_DRAWN ==> new_pixels == old.current_scanline.drawn(line, dot, old.vram, old_pixels)
    &&& line >= SCANLINES_PER_FRAME_DRAWN ==> new.current_scanline is Start
    &&& line >= SCANLINES_PER_FRAME_DRAWN ==> new_pixels == old_pixels
    &&& new.vram.registers == updated_registers(
        old.vram.registers,
        line as u8,
        if line < SCANLINES_PER_FRAME_DRAWN {
            new.current_scanline.spec_mode()
        } else {
            PpuMode::VerticalBlank
        },
    )
    &&& new.vram.oam == old.vram.oam
    &&& new.vram.tile_data == old.vram.tile_data
    &&& new.vram.tile_maps == old.vram.tile_maps
}

/// A GPU tick is determined by the state it starts from: the same scanline
/// state and video memory give the same state, pixels and frame end.
pub proof fn lemma_tick_determined(
    old1: Gpu,
    old2: Gpu,
    new1: Gpu,
    new2: Gpu,
    cycles: int,
    old_pixels: Seq<Color>,
    pixels1: Seq<Color>,
    pixels2: Seq<Color>,
    frame_end1: bool,
    frame_end2: bool,
)
    requires
        old1.vram@ == old2.vram@,
        old1.current_scanline.same(&old2.current_scanline),
        spec_tick(old1, new1, cycles, old_pixels, pixels1, frame_end1),
        spec_tick(old2, new2, cycles, old_pixels, pixels2, frame_end2),
    ensures
        new1.vram@ == new2.vram@,
        new1.current_scanline.same(&new2.current_scanline),
        pixels1 == pixels2,
        frame_end1 == frame_end2,
{
    reveal(spec_tick);
    let (line, dot) = spec_scanline_of(cycles);
    if line < SCANLINES_PER_FRAME_DRAWN {
        let (a, b) = (old1.current_scanline, old2.current_scanline);
        match a {
            ScanlineState::Start => {
                if let (ScanlineState::OamScan { objects: o1 }, ScanlineState::OamScan { objects: o2 }) = (
                    new1.current_scanline,
                    new2.current_scanline,
                ) {
                    assert forall|o: Object| o1@.contains(o) <==> o2@.contains(o) by {
                        let sel = selected_objects(
                            old1.vram.oam@,
                            old1.vram.registers.ly.0,
                            object_height(old1.vram.spec_lcdc().object_size),
                        );
                        assert(o1@.contains(o) <==> sel.contains(o));
                        assert(o2@.contains(o) <==> sel.contains(o));
                    }
                    lemma_draw_order_unique(o1@, o2@);
                }
            },
            _ => {},
        }
        assert(new1.current_scanline.same(&new2.current_scanline));
        assert(new1.current_scanline.spec_mode() == new2.current_scanline.spec_mode());
        match (a, b) {
            (ScanlineState::Drawing { objects: o1, x: x1 }, ScanlineState::Drawing { objects: o2, x: x2 }) => {
                assert(o1@ == o2@);
                if x1 < FRAME_WIDTH && dot >= OAM_DURATION + DRAW_DELAY {
                    assert(old1.vram.spec_pixel(o1@, x1, line as u8) == old2.vram.spec_pixel(o2@, x2, line as u8));
                }
            },
            _ => {},
        }
    }
    assert(new1.vram.oam@ == new2.vram.oam@);
    assert(new1.vram.tile_data.data@ == new2.vram.tile_data.data@);
    assert(new1.vram.tile_maps.maps@ == new2.vram.tile_maps.maps@);
}

/// The registers after a GPU tick on `line` in `mode`: `LY` holds the line,
/// and `STAT` holds the mode and whether `LY == LYC`
pub open spec fn updated_registers(old: Registers, line: u8, mode: PpuMode) -> Registers {
    let stat = LcdStatus::spec_unpack(old.stat.value);
    Registers {
        ly: Scanline(line),
        stat: FlagBits {
            value: spec_pack(LcdStatus { ppu_mode: mode, lyc_equal_ly: line == old.lyc.0, ..stat }),
            ty: old.stat.ty,
        },
        ..old
    }
}

/// A step of one dot moves along the scanline, or to the start of the next
/// scanline after the last dot.
pub proof fn lemma_scanline_step(cycles: nat)
    ensures
        ({
            let (line, dot) = spec_scanline_of(cycles as int);
            let (next_line, next_dot) = spec_scanline_of(cycles + 1int);
            &&& dot < SCANLINE_DOTS - 1 ==> next_line == line && next_dot == dot + 1
            &&& dot == SCANLINE_DOTS - 1 ==> next_dot == 0
        }),
{
    let m = CYCLES_PER_FRAME_VALUE as int;
    let fd = cycles as int % m;
    let fd2 = (cycles + 1) as int % m;
    vstd::arithmetic::div_mod::lemma_add_mod_noop(cycles as int, 1, m);
    assert(fd2 == (fd + 1) % m);
    let line = fd / 456;
    let dot = fd % 456;
    vstd::arithmetic::div_mod::lemma_fundamental_div_mod(fd, 456);
    if fd + 1 < m {
        vstd::arithmetic::div_mod::lemma_small_mod((fd + 1) as nat, m as nat);
        assert(fd2 == fd + 1);
        if dot < 455 {
            vstd::arithmetic::div_mod::lemma_fundamental_div_mod_converse(fd + 1, 456, line, dot + 1);
        } else {
            vstd::arithmetic::div_mod::lemma_fundamental_div_mod_converse(fd + 1, 456, line + 1, 0);
        }
    } else {
        assert(fd2 == 0);
        assert(fd == m - 1);
        assert(dot == 455);
    }
}

/// Draw state of a single scanline
///
/// This is a state machine that progresses as the scanline is drawn. This is
/// *not* used for vblank scanlines, since those are stateless. See [PpuMode].
#[derive(Debug)]
pub enum ScanlineState {
    /// Initial state: no work has been done
    Start,
    /// Objects have been scanned
    OamScan { objects: Vec<Object> },
    /// Pixels are being drawn to the screen
    Drawing { objects: Vec<Object>, x: u8 },
    /// Scanline is done, waiting for the next line
    HorizontalBlank,
}

impl ScanlineState {
    /// The PPU mode of this state
    pub open spec fn spec_mode(&self) -> PpuMode {
        match *self {
            ScanlineState::Start | ScanlineState::OamScan { .. } => PpuMode::OamScan,
            ScanlineState::Drawing { .. } => PpuMode::Drawing,
            ScanlineState::HorizontalBlank => PpuMode::HorizontalBlank,
        }
    }

    /// Could this state be the result of the tick at dot `dot` of line `line`?
    ///
    /// Scanning objects ends at dot 79, the first pixel is drawn at dot 92 and
    /// the last at dot 251, after which the line waits for its end.
    pub open spec fn agrees_with(&self, line: int, dot: int) -> bool {
        match *self {
            ScanlineState::Start => dot == 0 || dot == SCANLINE_DOTS - 1 || line >= SCANLINES_PER_FRAME_DRAWN,
            ScanlineState::OamScan { objects } => {
                &&& line < SCANLINES_PER_FRAME_DRAWN
                &&& dot < OAM_DURATION - 1
                &&& objects@.len() <= MAX_OBJECTS_PER_LINE
            },
            ScanlineState::Drawing { objects, x } => {
                &&& line < SCANLINES_PER_FRAME_DRAWN
                &&& OAM_DURATION - 1 <= dot
                &&& x == if dot < OAM_DURATION + DRAW_DELAY {
                    0
                } else {
                    dot - (OAM_DURATION + DRAW_DELAY - 1)
                }
                &&& x <= FRAME_WIDTH
                &&& objects@.len() <= MAX_OBJECTS_PER_LINE
            },
            ScanlineState::HorizontalBlank => {
                &&& line < SCANLINES_PER_FRAME_DRAWN
                &&& OAM_DURATION + DRAW_DELAY + FRAME_WIDTH <= dot < SCANLINE_DOTS - 1
            },
        }
    }

    /// Is `next` the state that follows `self` at dot `dots` of a drawn line
    /// with video memory `vram`?
    pub open spec fn spec_next(&self, next: ScanlineState, dots: int, vram: Vram) -> bool {
        match *self {
            ScanlineState::Start => next matches ScanlineState::OamScan { objects } && objects_for_line(
                vram,
                objects@,
            ) && objects@.len() <= MAX_OBJECTS_PER_LINE,
            ScanlineState::OamScan { objects } => if dots + 1 < OAM_DURATION {
                next matches ScanlineState::OamScan { objects: o } && o@ == objects@
            } else {
                next matches ScanlineState::Drawing { objects: o, x } && o@ == objects@ && x == 0
            },
            ScanlineState::Drawing { objects, x } => if x < FRAME_WIDTH {
                next matches ScanlineState::Drawing { objects: o, x: next_x } && o@ == objects@ && next_x == if dots
                    < OAM_DURATION + DRAW_DELAY {
                    x as int
                } else {
                    x + 1
                }
            } else {
                next is HorizontalBlank
            },
            ScanlineState::HorizontalBlank => if dots + 1 < SCANLINE_DOTS {
                next is HorizontalBlank
            } else {
                next is Start
            },
        }
    }

    /// The frame pixels after the tick at dot `dots` of line `line`: in mode 3
    /// after the initial delay, the pixel at the current x is drawn.
    pub open spec fn drawn(&self, line: int, dots: int, vram: Vram, pixels: Seq<Color>) -> Seq<Color> {
        match *self {
            ScanlineState::Drawing { objects, x } => if x < FRAME_WIDTH && dots >= OAM_DURATION
                + DRAW_DELAY {
                pixels.update(
                    pixel_index(x as int, line),
                    spec_color(vram.spec_pixel(objects@, x, line as u8)),
                )
            } else {
                pixels
            },
            _ => pixels,
        }
    }

    /// The PPU mode of this state
    pub fn mode(&self) -> (r: PpuMode)
        ensures
            r == self.spec_mode(),
    {
        match self {
            ScanlineState::Start | ScanlineState::OamScan { .. } => PpuMode::OamScan,
            ScanlineState::Drawing { .. } => PpuMode::Drawing,
            ScanlineState::HorizontalBlank => PpuMode::HorizontalBlank,
        }
    }

    /// Advance scanline drawing one cycle
    ///
    /// `scanline` is the line being drawn and `dots` the number of elapsed
    /// dots in this scanline so far (the first call is 0).
    #[verifier::spinoff_prover]
    pub fn tick(self, scanline: Scanline, dots: Cycles, vram: &Vram, frame: &mut FrameBuffer) -> (r: Self)
        requires
            vram.wf(),
            old(frame).wf(),
            scanline.0 < SCANLINES_PER_FRAME_DRAWN,
            dots.0 < SCANLINE_DOTS,
            self matches ScanlineState::Drawing { x, .. } && x < FRAME_WIDTH ==> dots.0 >= OAM_DURATION,
        ensures
            final(frame).wf(),
            self.spec_next(r, dots.0 as int, *vram),
            final(frame).pixels@ == self.drawn(scanline.0 as int, dots.0 as int, *vram, old(frame).pixels@),
    {
        let next_dot = dots.0 + 1;
        // Mode numbers are not sequential by the order they occur. They're
        // numbered based on how they're represented in the STAT register
        match self {
            // Mode 2 - OAM scan. All objects are collected up front.
            ScanlineState::Start => ScanlineState::OamScan { objects: vram.get_objects() },
            ScanlineState::OamScan { objects } => {
                if next_dot < OAM_DURATION {
                    // Stay in mode 2
                    ScanlineState::OamScan { objects }
                } else {
                    // End of OAM scan - transition to mode 3
                    ScanlineState::Drawing { objects, x: 0 }
                }
            },
            // Mode 3 - draw pixels
            // https://gbdev.io/pandocs/Rendering.html#mode-3-length
            ScanlineState::Drawing { objects, x } => {
                if x < FRAME_WIDTH as u8 {
                    let elapsed = dots.0 - OAM_DURATION;
                    // There's an initial delay per line
                    if elapsed < DRAW_DELAY {
                        ScanlineState::Drawing { objects, x }
                    } else {
                        // Calculate the color for a single pixel
                        let y = scanline.0;
                        let color_index = vram.get_pixel(&objects, x, y);
                        frame.set(x as u16, y as u16, vram.get_color(color_index));
                        ScanlineState::Drawing { objects, x: x + 1 }
                    }
                } else {
                    // Hit the end of the line - transition to mode 0
                    ScanlineState::HorizontalBlank
                }
            },
            // Mode 0 - horizontal blank. Stay in this mode until the end of
            // the scanline, then reset for the next line
            ScanlineState::HorizontalBlank => {
                if next_dot < SCANLINE_DOTS {
                    ScanlineState::HorizontalBlank
                } else {
                    ScanlineState::Start
                }
            },
        }
    }
}

/// Registers in the GPU
///
/// This is a subset of the [hardware register list](https://gbdev.io/pandocs/Hardware_Reg_List.html).
/// They are mapped to `$FF40-$FF46` in this order: `LCDC STAT SCY SCX LY LYC
/// DMA`.
#[derive(Clone, Copy, Debug)]
pub struct Registers {
    /// OAM DMA control
    ///
    /// The written value is the **high** byte of the transfer source address.
    pub dma: u8,
    /// LCD control
    pub lcdc: FlagBits<LcdControl>,
    /// LCD status
    pub stat: FlagBits<LcdStatus>,
    /// Background scroll X
    pub scx: u8,
    /// Background scroll Y
    pub scy: u8,
    /// Current horizontal line being drawn on the LCD
    ///
    /// Range is `[0, 153]`. `[144, 153]` is the vblank period.
    pub ly: Scanline,
    /// A writable register compared to `LY` every cycle
    ///
    /// When `LY == LYC`, bit 2 of the `STAT` register is set. See [LcdStatus].
    pub lyc: Scanline,
}

impl Registers {
    /// All registers zeroed
    pub fn new() -> (r: Self)
        ensures
            forall|i: int| 0 <= i < 7 ==> #[trigger] r.byte(i) == 0,
    {
        Self {
            dma: 0,
            lcdc: FlagBits::new(0),
            stat: FlagBits::new(0),
            scx: 0,
            scy: 0,
            ly: Scanline(0),
            lyc: Scanline(0),
        }
    }

    /// The register at offset `i` from `$FF40`
    pub open spec fn byte(self, i: int) -> u8 {
        if i == 0 {
            self.lcdc.value
        } else if i == 1 {
            self.stat.value
        } else if i == 2 {
            self.scy
        } else if i == 3 {
            self.scx
        } else if i == 4 {
            self.ly.0
        } else if i == 5 {
            self.lyc.0
        } else {
            self.dma
        }
    }

    /// The registers after writing `value` to the one at offset `i` from
    /// `$FF40`
    pub open spec fn spec_set(self, i: int, value: u8) -> Registers {
        if i == 0 {
            Registers { lcdc: FlagBits { value, ty: self.lcdc.ty }, ..self }
        } else if i == 1 {
            Registers { stat: FlagBits { value, ty: self.stat.ty }, ..self }
        } else if i == 2 {
            Registers { scy: value, ..self }
        } else if i == 3 {
            Registers { scx: value, ..self }
        } else if i == 4 {
            Registers { ly: Scanline(value), ..self }
        } else if i == 5 {
            Registers { lyc: Scanline(value), ..self }
        } else {
            Registers { dma: value, ..self }
        }
    }

    /// Read the register at offset `i` from `$FF40`
    pub fn get(&self, i: u8) -> (r: u8)
        requires
            i < 7,
        ensures
            r == self.byte(i as int),
    {
        match i {
            0 => self.lcdc.value,
            1 => self.stat.value,
            2 => self.scy,
            3 => self.scx,
            4 => self.ly.0,
            5 => self.lyc.0,
            _ => self.dma,
        }
    }

    /// Write the register at offset `i` from `$FF40`
    pub fn set(&mut self, i: u8, value: u8)
        requires
            i < 7,
        ensures
            *final(self) == old(self).spec_set(i as int, value),
            final(self).byte(i as int) == value,
            forall|j: int| 0 <= j < 7 && j != i ==> #[trigger] final(self).byte(j) == old(self).byte(j),
    {
        match i {
            0 => self.lcdc = FlagBits::new(value),
            1 => self.stat = FlagBits::new(value),
            2 => self.scy = value,
            3 => self.scx = value,
            4 => self.ly = Scanline(value),
            5 => self.lyc = Scanline(value),
            _ => self.dma = value,
        }
    }
}

/// Bit-packed values in the `LCDC` register
///
/// https://gbdev.io/pandocs/LCDC.html
#[derive(Clone, Copy, Debug, PartialEq, Eq, Structural)]
pub struct LcdControl {
    /// Are the LCD and PPU enabled? (bit 7)
    pub lcd_enable: bool,
    /// Tile map in use for the window (bit 6)
    pub window_tile_map: TileMapArea,
    /// Enable/disable the window (bit 5)
    pub window_enable: bool,
    /// Which blocks are accessible for background and window tiles? (bit 4,
    /// `1` selects the low area)
    ///
    /// Objects are unaffected by this. They always use the low area.
    pub bg_window_tiles: TileDataArea,
    /// Tile map in use for the background (bit 3)
    pub bg_tile_map: TileMapArea,
    /// Size of the objects to draw (bit 2)
    pub object_size: ObjectSize,
    /// Enable/disable object display (bit 1)
    pub object_enable: bool,
    /// Enable/disable the background AND window (bit 0)
    pub bg_window_enable: bool,
}

impl Flags for LcdControl {
    open spec fn used(bit: u8) -> bool {
        bit < 8
    }

    open spec fn flag(&self, bit: u8) -> bool {
        if bit == 7 {
            self.lcd_enable
        } else if bit == 6 {
            self.window_tile_map == TileMapArea::High
        } else if bit == 5 {
            self.window_enable
        } else if bit == 4 {
            self.bg_window_tiles == TileDataArea::Low
        } else if bit == 3 {
            self.bg_tile_map == TileMapArea::High
        } else if bit == 2 {
            self.object_size == ObjectSize::Large
        } else if bit == 1 {
            self.object_enable
        } else if bit == 0 {
            self.bg_window_enable
        } else {
            false
        }
    }

    open spec fn spec_unpack(bits: u8) -> Self {
        LcdControl {
            lcd_enable: bit_is_set(bits, 7),
            window_tile_map: if bit_is_set(bits, 6) {
                TileMapArea::High
            } else {
                TileMapArea::Low
            },
            window_enable: bit_is_set(bits, 5),
            bg_window_tiles: if bit_is_set(bits, 4) {
                TileDataArea::Low
            } else {
                TileDataArea::High
            },
            bg_tile_map: if bit_is_set(bits, 3) {
                TileMapArea::High
            } else {
                TileMapArea::Low
            },
            object_size: if bit_is_set(bits, 2) {
                ObjectSize::Large
            } else {
                ObjectSize::Small
            },
            object_enable: bit_is_set(bits, 1),
            bg_window_enable: bit_is_set(bits, 0),
        }
    }

    proof fn lemma_unpack(bits: u8) {
    }

    proof fn lemma_unused_clear(&self, bit: u8) {
    }

    proof fn lemma_flags_ext(a: Self, b: Self) {
        assert(a.flag(0) == b.flag(0));
        assert(a.flag(1) == b.flag(1));
        assert(a.flag(2) == b.flag(2));
        assert(a.flag(3) == b.flag(3));
        assert(a.flag(4) == b.flag(4));
        assert(a.flag(5) == b.flag(5));
        assert(a.flag(6) == b.flag(6));
        assert(a.flag(7) == b.flag(7));
    }

    fn cleared() -> (r: Self) {
        LcdControl {
            lcd_enable: false,
            window_tile_map: TileMapArea::Low,
            window_enable: false,
            bg_window_tiles: TileDataArea::High,
            bg_tile_map: TileMapArea::Low,
            object_size: ObjectSize::Small,
            object_enable: false,
            bg_window_enable: false,
        }
    }

    fn get_bit(&self, bit: Bit) -> (r: bool) {
        match bit.0 {
            7 => self.lcd_enable,
            6 => matches!(self.window_tile_map, TileMapArea::High),
            5 => self.window_enable,
            4 => matches!(self.bg_window_tiles, TileDataArea::Low),
            3 => matches!(self.bg_tile_map, TileMapArea::High),
            2 => matches!(self.object_size, ObjectSize::Large),
            1 => self.object_enable,
            _ => self.bg_window_enable,
        }
    }

    fn set_bit(&mut self, bit: Bit, value: bool) {
        match bit.0 {
            7 => self.lcd_enable = value,
            6 => self.window_tile_map = if value {
                TileMapArea::High
            } else {
                TileMapArea::Low
            },
            5 => self.window_enable = value,
            4 => self.bg_window_tiles = if value {
                TileDataArea::Low
            } else {
                TileDataArea::High
            },
            3 => self.bg_tile_map = if value {
                TileMapArea::High
            } else {
                TileMapArea::Low
            },
            2 => self.object_size = if value {
                ObjectSize::Large
            } else {
                ObjectSize::Small
            },
            1 => self.object_enable = value,
            _ => self.bg_window_enable = value,
        }
    }
}

/// Size of the objects to draw (flag in [LcdControl])
#[derive(Clone, Copy, Debug, PartialEq, Eq, Structural)]
pub enum ObjectSize {
    /// 8x8
    Small,
    /// 8x16
    Large,
}

/// Height in pixels of an object of the given size
pub open spec fn object_height(size: ObjectSize) -> u8 {
    match size {
        ObjectSize::Small => 8,
        ObjectSize::Large => 16,
    }
}

impl ObjectSize {
    /// Height of an object of this size in pixels
    pub fn height(self) -> (r: u8)
        ensures
            r == object_height(self),
    {
        match self {
            ObjectSize::Small => Tile::HEIGHT,
            ObjectSize::Large => Tile::HEIGHT * 2,
        }
    }
}

/// Bit-packed values in the `STAT` register
///
/// https://gbdev.io/pandocs/STAT.html
#[derive(Clone, Copy, Debug, PartialEq, Eq, Structural)]
pub struct LcdStatus {
    /// Enable the `LY == LYC` condition for the `STAT` interrupt (bit 6)
    pub lyc_interrupt: bool,
    /// Enable the Mode 2 condition for the `STAT` interrupt (bit 5)
    pub mode_2_interrupt: bool,
    /// Enable the Mode 1 condition for the `STAT` interrupt (bit 4)
    pub mode_1_interrupt: bool,
    /// Enable the Mode 0 condition for the `STAT` interrupt (bit 3)
    pub mode_0_interrupt: bool,
    /// Is the `LY` register currently equal to the `LYC` register? (bit 2)
    pub lyc_equal_ly: bool,
    /// Phase of the frame currently being drawn (bits 1-0)
    pub ppu_mode: PpuMode,
}

/// The two-bit number of a PPU mode
pub open spec fn ppu_mode_code(mode: PpuMode) -> int {
    match mode {
        PpuMode::HorizontalBlank => 0,
        PpuMode::VerticalBlank => 1,
        PpuMode::OamScan => 2,
        PpuMode::Drawing => 3,
    }
}

/// The PPU mode with given low (bit 0) and high (bit 1) bits
pub open spec fn ppu_mode_of_bits(bit0: bool, bit1: bool) -> PpuMode {
    if !bit1 && !bit0 {
        PpuMode::HorizontalBlank
    } else if !bit1 && bit0 {
        PpuMode::VerticalBlank
    } else if bit1 && !bit0 {
        PpuMode::OamScan
    } else {
        PpuMode::Drawing
    }
}

impl Flags for LcdStatus {
    open spec fn used(bit: u8) -> bool {
        bit < 7
    }

    open spec fn flag(&self, bit: u8) -> bool {
        if bit == 6 {
            self.lyc_interrupt
        } else if bit == 5 {
            self.mode_2_interrupt
        } else if bit == 4 {
            self.mode_1_interrupt
        } else if bit == 3 {
            self.mode_0_interrupt
        } else if bit == 2 {
            self.lyc_equal_ly
        } else if bit == 1 {
            ppu_mode_code(self.ppu_mode) >= 2
        } else if bit == 0 {
            ppu_mode_code(self.ppu_mode) % 2 == 1
        } else {
            false
        }
    }

    open spec fn spec_unpack(bits: u8) -> Self {
        LcdStatus {
            lyc_interrupt: bit_is_set(bits, 6),
            mode_2_interrupt: bit_is_set(bits, 5),
            mode_1_interrupt: bit_is_set(bits, 4),
            mode_0_interrupt: bit_is_set(bits, 3),
            lyc_equal_ly: bit_is_set(bits, 2),
            ppu_mode: ppu_mode_of_bits(bit_is_set(bits, 0), bit_is_set(bits, 1)),
        }
    }

    proof fn lemma_unpack(bits: u8) {
    }

    proof fn lemma_unused_clear(&self, bit: u8) {
    }

    proof fn lemma_flags_ext(a: Self, b: Self) {
        assert(a.flag(0) == b.flag(0));
        assert(a.flag(1) == b.flag(1));
        assert(a.flag(2) == b.flag(2));
        assert(a.flag(3) == b.flag(3));
        assert(a.flag(4) == b.flag(4));
        assert(a.flag(5) == b.flag(5));
        assert(a.flag(6) == b.flag(6));
    }

    fn cleared() -> (r: Self) {
        LcdStatus {
            lyc_interrupt: false,
            mode_2_interrupt: false,
            mode_1_interrupt: false,
            mode_0_interrupt: false,
            lyc_equal_ly: false,
            ppu_mode: PpuMode::HorizontalBlank,
        }
    }

    fn get_bit(&self, bit: Bit) -> (r: bool) {
        match bit.0 {
            6 => self.lyc_interrupt,
            5 => self.mode_2_interrupt,
            4 => self.mode_1_interrupt,
            3 => self.mode_0_interrupt,
            2 => self.lyc_equal_ly,
            1 => matches!(self.ppu_mode, PpuMode::OamScan | PpuMode::Drawing),
            0 => matches!(self.ppu_mode, PpuMode::VerticalBlank | PpuMode::Drawing),
            _ => false,
        }
    }

    fn set_bit(&mut self, bit: Bit, value: bool) {
        match bit.0 {
            6 => self.lyc_interrupt = value,
            5 => self.mode_2_interrupt = value,
            4 => self.mode_1_interrupt = value,
            3 => self.mode_0_interrupt = value,
            2 => self.lyc_equal_ly = value,
            1 => {
                let bit0 = matches!(self.ppu_mode, PpuMode::VerticalBlank | PpuMode::Drawing);
                self.ppu_mode = PpuMode::from_bits(bit0, value);
            },
            0 => {
                let bit1 = matches!(self.ppu_mode, PpuMode::OamScan | PpuMode::Drawing);
                self.ppu_mode = PpuMode::from_bits(value, bit1);
            },
            _ => {},
        }
    }
}

/// Draw mode within the current frame
///
/// https://gbdev.io/pandocs/Rendering.html#ppu-modes
#[derive(Clone, Copy, Debug, PartialEq, Eq, Structural)]
pub enum PpuMode {
    /// Mode 0: the tail end of a scan line, waiting for the next one
    HorizontalBlank,
    /// Mode 1: the tail end of the entire frame
    VerticalBlank,
    /// Mode 2: search for objects intersecting the current scanline
    OamScan,
    /// Mode 3: pixels are drawn
    Drawing,
}

impl PpuMode {
    /// The mode with the given two bits
    pub fn from_bits(bit0: bool, bit1: bool) -> (r: Self)
        ensures
            r == ppu_mode_of_bits(bit0, bit1),
    {
        if !bit1 && !bit0 {
            PpuMode::HorizontalBlank
        } else if !bit1 && bit0 {
            PpuMode::VerticalBlank
        } else if bit1 && !bit0 {
            PpuMode::OamScan
        } else {
            PpuMode::Drawing
        }
    }
}

/// Index of a particular horizontal line on the screen
///
/// Range is `[0, 153]`. `[144, 153]` is the vblank period. Any value `>=154` is
/// invalid.
#[derive(Clone, Copy, Debug, Default, PartialEq, Eq, Structural, PartialOrd, Ord)]
pub struct Scanline(pub u8);

/// The scanline and the dot within it of a clock cycle count
pub open spec fn spec_scanline_of(cycles: int) -> (int, int) {
    let frame_dots = cycles % (CYCLES_PER_FRAME_VALUE as int);
    (frame_dots / (SCANLINE_DOTS as int), frame_dots % (SCANLINE_DOTS as int))
}

impl Scanline {
    /// Based on the current clock tick, get the current scanline and dot within
    /// that scanline
    pub fn from_clock(clock: &Clock) -> (r: (Self, Cycles))
        ensures
            r.0.0 == spec_scanline_of(clock.cycles.0 as int).0,
            r.1.0 == spec_scanline_of(clock.cycles.0 as int).1,
            r.0.0 < 154,
            r.1.0 < 456,
    {
        let frame_dots = clock.cycles.0 % CYCLES_PER_FRAME_VALUE;
        let scanline = frame_dots / SCANLINE_DOTS;
        let dots = frame_dots % SCANLINE_DOTS;
        assert(scanline < 154);
        (Self(scanline as u8), Cycles(dots))
    }

    /// Wrap a line number
    pub fn from_u8(value: u8) -> (r: Self)
        ensures
            r.0 == value,
    {
        Self(value)
    }

    /// Get the line number
    pub fn as_u8(self) -> (r: u8)
        ensures
            r == self.0,
    {
        self.0
    }
}

impl From<u8> for Scanline {
    /// The scanline with the given number
    fn from(value: u8) -> (r: Self) {
        Scanline(value)
    }
}

impl vstd::std_specs::convert::FromSpecImpl<u8> for Scanline {
    open spec fn obeys_from_spec() -> bool {
        true
    }

    open spec fn from_spec(value: u8) -> Self {
        Scanline(value)
    }
}

impl From<Scanline> for u8 {
    /// The number of the scanline
    fn from(value: Scanline) -> (r: Self) {
        value.0
    }
}

impl vstd::std_specs::convert::FromSpecImpl<Scanline> for u8 {
    open spec fn obeys_from_spec() -> bool {
        true
    }

    open spec fn from_spec(value: Scanline) -> Self {
        value.0
    }
}

/// A scanline and a dot within it combine back to the cycle within a frame.
pub proof fn law_scanline_of(cycles: nat)
    ensures
        ({
            let (line, dot) = spec_scanline_of(cycles as int);
            &&& 0 <= line < SCANLINES_PER_FRAME
            &&& 0 <= dot < SCANLINE_DOTS
            &&& line * (SCANLINE_DOTS as int) + dot == (cycles as int) % (CYCLES_PER_FRAME_VALUE as int)
        }),
{
    let frame_dots = cycles as int % (CYCLES_PER_FRAME_VALUE as int);
    assert(0 <= frame_dots < 70224);
    assert(frame_dots / 456 * 456 + frame_dots % 456 == frame_dots);
}

/// Metadata specifying a single pixel object
///
/// https://gbdev.io/pandocs/OAM.html
#[derive(Clone, Copy, Debug, PartialEq, Eq, Structural)]
pub struct ObjectAttributes {
    /// Vertical position of the object + 16
    ///
    /// The +16 allows moving an object above the screen without underflowing
    /// the byte.
    pub y: u8,
    /// Horizontal position of the object + 8
    ///
    /// The +8 allows moving an object left of the screen without underflowing
    /// the byte.
    pub x: u8,
    /// Index of the tile defining this object
    ///
    /// For 8x16 objects this is the upper tile; the lower tile is the next one.
    pub tile_index: TileIndex,
    /// Additional object metadata affecting its presentation
    pub flags: u8,
}

/// An object that's been loaded in mode 2 and is ready to be drawn
#[derive(Clone, Copy, Debug, PartialEq, Eq, Structural)]
pub struct Object {
    /// Attributes loaded from OAM
    pub attributes: ObjectAttributes,
    /// Height of the object (8 or 16), loaded from the `LCDC` register while
    /// the object is being loaded
    pub height: u8,
    /// Position of the object in OAM (`0-39`)
    pub oam_index: u8,
}

/// Does an object cover the given scanline vertically?
pub open spec fn spec_intersects_line(object: Object, line: u8) -> bool {
    object.attributes.y <= line + 16 < object.attributes.y + object.height
}

/// Where the pixel at screen `(x, y)` comes from within an object: the tile
/// and the offset into it, if the object covers the pixel
pub open spec fn spec_object_pixel_source(object: Object, x: u8, y: u8, size: ObjectSize) -> Option<(TileIndex, u8, u8)> {
    let sx = x + 8;
    let sy = y + 16;
    let a = object.attributes;
    if a.x <= sx < a.x + 8 && a.y <= sy < a.y + object_height(size) {
        let dx = sx - a.x;
        let dy = sy - a.y;
        if size == ObjectSize::Large && dy >= 8 {
            Some((TileIndex(((a.tile_index.0 + 1) % 256) as u8), dx as u8, (dy - 8) as u8))
        } else {
            Some((a.tile_index, dx as u8, dy as u8))
        }
    } else {
        None
    }
}

impl Object {
    /// Does this object intersect with the given horizontal line?
    ///
    /// This *only* checks for vertical intersection. If an object intersects
    /// vertically but is off the screen horizontally, this will **still return
    /// true.** That's consistent with the [object selection priority
    /// algorithm](https://gbdev.io/pandocs/OAM.html#selection-priority).
    pub fn intersects_line(&self, line: Scanline) -> (r: bool)
        ensures
            r == spec_intersects_line(*self, line.0),
    {
        // attributes.y is shifted +16; shift the line down to match
        let line = line.0 as u16 + 16;
        let top = self.attributes.y as u16; // Top edge (inclusive)
        let bottom = self.attributes.y as u16 + self.height as u16; // Bottom edge (exclusive)
        bottom > line && top <= line
    }

    /// Check if a pixel intersects this object
    ///
    /// `size` is the current object size from the `LCDC` register.
    ///
    /// Return the tile that the pixel should be grabbed from, as well as the
    /// `(x, y)` offset into that tile. Return `None` if the pixel doesn't
    /// intersect with this object.
    pub fn get_pixel(&self, x: u8, y: u8, size: ObjectSize) -> (r: Option<(TileIndex, u8, u8)>)
        ensures
            r == spec_object_pixel_source(*self, x, y, size),
            r matches Some((_, px, py)) ==> px < 8 && py < 8,
    {
        // attributes.x/y are shifted; shift the input coordinates to match
        let sx = x as u16 + 8;
        let sy = y as u16 + 16;
        let ax = self.attributes.x as u16;
        let ay = self.attributes.y as u16;
        if ax <= sx && sx < ax + 8 && ay <= sy && sy < ay + size.height() as u16 {
            let dx = (sx - ax) as u8;
            let dy = sy - ay;
            // For large objects, check if this is the upper or lower tile
            if matches!(size, ObjectSize::Large) && dy >= 8 {
                let index = TileIndex(self.attributes.tile_index.0.wrapping_add(1));
                Some((index, dx, (dy - 8) as u8))
            } else {
                Some((self.attributes.tile_index, dx, dy as u8))
            }
        } else {
            None
        }
    }
}

/// The attributes of OAM entry `i`
pub open spec fn oam_attributes(oam: Seq<u8>, i: int) -> ObjectAttributes {
    ObjectAttributes { y: oam[4 * i], x: oam[4 * i + 1], tile_index: TileIndex(oam[4 * i + 2]), flags: oam[4 * i + 3] }
}

/// OAM entry `i` as an object of the given height
pub open spec fn oam_object(oam: Seq<u8>, i: int, height: u8) -> Object {
    Object { attributes: oam_attributes(oam, i), height, oam_index: i as u8 }
}

/// The objects among OAM entries `0..n` that cover `line`, in OAM order
pub open spec fn scan_objects(oam: Seq<u8>, line: u8, height: u8, n: nat) -> Seq<Object>
    decreases n,
{
    if n == 0 {
        Seq::empty()
    } else {
        let prev = scan_objects(oam, line, height, (n - 1) as nat);
        let object = oam_object(oam, n - 1, height);
        if spec_intersects_line(object, line) {
            prev.push(object)
        } else {
            prev
        }
    }
}

/// At most the first [MAX_OBJECTS_PER_LINE] elements
pub open spec fn first_ten(s: Seq<Object>) -> Seq<Object> {
    if s.len() > MAX_OBJECTS_PER_LINE {
        s.take(MAX_OBJECTS_PER_LINE as int)
    } else {
        s
    }
}

/// The objects selected for a scanline: the first ten, in OAM order, that
/// cover the line
pub open spec fn selected_objects(oam: Seq<u8>, line: u8, height: u8) -> Seq<Object> {
    first_ten(scan_objects(oam, line, height, 40))
}

/// Draw order of objects: by x coordinate, then by OAM position
pub open spec fn draws_before(a: Object, b: Object) -> bool {
    a.attributes.x < b.attributes.x || (a.attributes.x == b.attributes.x && a.oam_index < b.oam_index)
}

/// Is the sequence in strictly increasing draw order?
pub open spec fn in_draw_order(s: Seq<Object>) -> bool {
    forall|i: int, j: int| 0 <= i < j < s.len() ==> draws_before(#[trigger] s[i], #[trigger] s[j])
}

/// Are `objects` the objects to draw on the current line of `vram`, in draw
/// order?
pub open spec fn objects_for_line(vram: Vram, objects: Seq<Object>) -> bool {
    let sel = selected_objects(vram.oam@, vram.registers.ly.0, object_height(vram.spec_lcdc().object_size));
    &&& objects.len() == sel.len()
    &&& in_draw_order(objects)
    &&& forall|o: Object| objects.contains(o) <==> sel.contains(o)
}

/// Two sequences in strict draw order holding the same objects are equal.
pub proof fn lemma_draw_order_unique(s: Seq<Object>, t: Seq<Object>)
    requires
        in_draw_order(s),
        in_draw_order(t),
        s.len() == t.len(),
        forall|o: Object| s.contains(o) <==> t.contains(o),
    ensures
        s == t,
    decreases s.len(),
{
    if s.len() > 0 {
        // The first of each is the other's first: anything else in the other
        // would have to draw before it
        assert(t.contains(s[0])) by {
            assert(s.contains(s[0]));
        }
        assert(s.contains(t[0])) by {
            assert(t.contains(t[0]));
        }
        let k = choose|k: int| 0 <= k < t.len() && t[k] == s[0];
        let j = choose|j: int| 0 <= j < s.len() && s[j] == t[0];
        if k > 0 {
            assert(draws_before(t[0], t[k]));
            if j > 0 {
                assert(draws_before(s[0], s[j]));
            }
            assert(false);
        }
        assert(s[0] == t[0]);
        let (s1, t1) = (s.drop_first(), t.drop_first());
        assert(in_draw_order(s1)) by {
            assert forall|a: int, b: int| 0 <= a < b < s1.len() implies draws_before(#[trigger] s1[a], #[trigger] s1[b]) by {
                assert(draws_before(s[a + 1], s[b + 1]));
            }
        }
        assert(in_draw_order(t1)) by {
            assert forall|a: int, b: int| 0 <= a < b < t1.len() implies draws_before(#[trigger] t1[a], #[trigger] t1[b]) by {
                assert(draws_before(t[a + 1], t[b + 1]));
            }
        }
        assert forall|o: Object| s1.contains(o) <==> t1.contains(o) by {
            if s1.contains(o) {
                let a = choose|a: int| 0 <= a < s1.len() && s1[a] == o;
                assert(draws_before(s[0], s[a + 1]));
                assert(s.contains(o)) by {
                    assert(s[a + 1] == o);
                }
                let b = choose|b: int| 0 <= b < t.len() && t[b] == o;
                assert(b != 0);
                assert(t1[b - 1] == o);
            }
            if t1.contains(o) {
                let a = choose|a: int| 0 <= a < t1.len() && t1[a] == o;
                assert(draws_before(t[0], t[a + 1]));
                assert(t.contains(o)) by {
                    assert(t[a + 1] == o);
                }
                let b = choose|b: int| 0 <= b < s.len() && s[b] == o;
                assert(b != 0);
                assert(s1[b - 1] == o);
            }
        }
        lemma_draw_order_unique(s1, t1);
        assert(s =~= seq![s[0]] + s1);
        assert(t =~= seq![t[0]] + t1);
    } else {
        assert(s =~= t);
    }
}

/// Inserting an object between those that draw before it and those that draw
/// after it keeps the draw order.
pub proof fn lemma_insert_in_draw_order(s: Seq<Object>, p: int, object: Object)
    requires
        0 <= p <= s.len(),
        in_draw_order(s),
        forall|k: int| 0 <= k < p ==> #[trigger] s[k].attributes.x <= object.attributes.x,
        forall|k: int| 0 <= k < s.len() ==> #[trigger] s[k].oam_index < object.oam_index,
        p < s.len() ==> s[p].attributes.x > object.attributes.x,
    ensures
        in_draw_order(s.insert(p, object)),
{
    s.insert_ensures(p, object);
    let t = s.insert(p, object);
    assert forall|i: int, j: int| 0 <= i < j < t.len() implies draws_before(#[trigger] t[i], #[trigger] t[j]) by {
        if j < p {
            assert(draws_before(s[i], s[j]));
        } else if j == p {
            assert(s[i].attributes.x <= object.attributes.x);
        } else if i < p {
            assert(draws_before(s[i], s[j - 1]));
        } else if i == p {
            if j - 1 > p {
                assert(draws_before(s[p], s[j - 1]));
            }
        } else {
            assert(draws_before(s[i - 1], s[j - 1]));
        }
    }
}

/// The pixel at `(px, py)` of tile number `t` in tile data
pub open spec fn tile_pixel(data: Seq<u8>, t: int, px: u8, py: u8) -> ColorIndex {
    color_of_bits(
        bit_is_set(data[16 * t + 2 * py], (7 - px) as u8),
        bit_is_set(data[16 * t + 2 * py + 1], (7 - px) as u8),
    )
}

/// Scrolling the background: raising `SCX` by `dx` and `SCY` by `dy` moves
/// the background picture `dx` pixels left and `dy` pixels up, wrapping
/// around the 256x256-pixel tile map. What screen pixel `(x, y)` shows after
/// the scroll is what pixel `(x + dx, y + dy)` showed before it.
#[verifier::spinoff_prover]
pub proof fn law_background_scroll(a: Vram, b: Vram, dx: u8, dy: u8, x: u8, y: u8)
    requires
        b.registers == (Registers {
            scx: ((a.registers.scx + dx) % 256) as u8,
            scy: ((a.registers.scy + dy) % 256) as u8,
            ..a.registers
        }),
        b.tile_maps.maps@ == a.tile_maps.maps@,
        b.tile_data.data@ == a.tile_data.data@,
    ensures
        b.spec_background_pixel(x, y) == a.spec_background_pixel(((x + dx) % 256) as u8, ((y + dy) % 256) as u8),
{
    let sx = a.registers.scx;
    let sy = a.registers.scy;
    assert((((sx + dx) % 256) + x) % 256 == (sx + ((x + dx) % 256)) % 256) by (bit_vector);
    assert((((sy + dy) % 256) + y) % 256 == (sy + ((y + dy) % 256)) % 256) by (bit_vector);
    assert(b.spec_lcdc() == a.spec_lcdc());
}

/// The source of a pixel in the first object of `objects` that covers it
pub open spec fn first_object_source(objects: Seq<Object>, x: u8, y: u8, size: ObjectSize) -> Option<(TileIndex, u8, u8)>
    decreases objects.len(),
{
    if objects.len() == 0 {
        None
    } else {
        match spec_object_pixel_source(objects[0], x, y, size) {
            Some(s) => Some(s),
            None => first_object_source(objects.drop_first(), x, y, size),
        }
    }
}

/// The palette color of a color index
pub open spec fn spec_color(index: ColorIndex) -> Color {
    match index {
        ColorIndex::Zero => Color { red: 0, green: 0, blue: 0 },
        ColorIndex::One => Color { red: 85, green: 85, blue: 85 },
        ColorIndex::Two => Color { red: 170, green: 170, blue: 170 },
        ColorIndex::Three => Color { red: 255, green: 255, blue: 255 },
    }
}

/// Graphics-related memory
#[derive(Debug)]
pub struct Vram {
    /// 1-byte control registers related to graphics processing
    pub registers: Registers,
    /// Object Attribute Memory: 40 objects of 4 bytes (y, x, tile, flags)
    ///
    /// https://gbdev.io/pandocs/OAM.html
    pub oam: Vec<u8>,
    /// Pixel data for tiles
    ///
    /// https://gbdev.io/pandocs/Tile_Data.html
    pub tile_data: TileData,
    /// Two 32x32 tile maps (lower and upper)
    ///
    /// https://gbdev.io/pandocs/Tile_Maps.html
    pub tile_maps: TileMaps,
}

impl View for Vram {
    /// `(registers, oam, tile_data, tile_maps)`
    type V = (Registers, Seq<u8>, Seq<u8>, Seq<u8>);

    open spec fn view(&self) -> Self::V {
        (self.registers, self.oam@, self.tile_data.data@, self.tile_maps.maps@)
    }
}

impl Vram {
    /// Every memory area has its hardware size.
    pub open spec fn wf(&self) -> bool {
        &&& self.oam@.len() == OAM_LEN
        &&& self.tile_data.wf()
        &&& self.tile_maps.wf()
    }

    /// The unpacked `LCDC` register
    pub open spec fn spec_lcdc(&self) -> LcdControl {
        LcdControl::spec_unpack(self.registers.lcdc.value)
    }

    /// The current PPU mode number, from the low bits of `STAT`
    pub open spec fn mode_code(&self) -> int {
        (self.registers.stat.value & 3) as int
    }

    /// Can the CPU see tile data and tile maps? (not in mode 3)
    pub open spec fn spec_vram_accessible(&self) -> bool {
        self.mode_code() != 3
    }

    /// Can the CPU see OAM? (only in modes 0 and 1)
    pub open spec fn spec_oam_accessible(&self) -> bool {
        self.mode_code() == 0 || self.mode_code() == 1
    }

    /// The color index of screen pixel `(x, y)` in the background
    pub open spec fn spec_background_pixel(&self, x: u8, y: u8) -> ColorIndex {
        let bx = ((self.registers.scx + x) % 256) as u8;
        let by = ((self.registers.scy + y) % 256) as u8;
        let index = TileIndex(self.tile_maps.maps@[map_position((bx / 8) as int, (by / 8) as int, TileMapArea::Low)]);
        tile_pixel(self.tile_data.data@, tile_number(index, self.spec_lcdc().bg_window_tiles), bx % 8, by % 8)
    }

    /// The color index of screen pixel `(x, y)` in the objects, if any covers it
    pub open spec fn spec_object_pixel(&self, objects: Seq<Object>, x: u8, y: u8) -> Option<ColorIndex> {
        let lcdc = self.spec_lcdc();
        if lcdc.object_enable {
            match first_object_source(objects, x, y, lcdc.object_size) {
                Some((t, px, py)) => Some(tile_pixel(self.tile_data.data@, tile_number(t, TileDataArea::Low), px, py)),
                None => None,
            }
        } else {
            None
        }
    }

    /// The color index of screen pixel `(x, y)`: objects draw over the
    /// background
    pub open spec fn spec_pixel(&self, objects: Seq<Object>, x: u8, y: u8) -> ColorIndex {
        match self.spec_object_pixel(objects, x, y) {
            Some(c) => c,
            None => self.spec_background_pixel(x, y),
        }
    }

    /// Empty video memory with zeroed registers
    pub fn new() -> (r: Self)
        ensures
            r.wf(),
            forall|i: int| 0 <= i < 7 ==> #[trigger] r.registers.byte(i) == 0,
            forall|i: int| 0 <= i < OAM_LEN ==> #[trigger] r.oam@[i] == 0,
            forall|i: int| 0 <= i < tile::TILE_DATA_LEN ==> #[trigger] r.tile_data.data@[i] == 0,
            forall|i: int| 0 <= i < tile::TILE_MAPS_LEN ==> #[trigger] r.tile_maps.maps@[i] == 0,
    {
        Self {
            registers: Registers::new(),
            oam: crate::emu::memory::zeroed(OAM_LEN),
            tile_data: TileData::new(),
            tile_maps: TileMaps::new(),
        }
    }

    /// Get read-only access to the GPU I/O registers
    pub fn registers(&self) -> (r: &Registers)
        ensures
            *r == self.registers,
    {
        &self.registers
    }

    /// Get mutable access to the GPU I/O registers
    pub fn registers_mut(&mut self) -> (r: &mut Registers)
        ensures
            *r == old(self).registers,
            final(self).registers == *final(r),
            final(self).oam == old(self).oam,
            final(self).tile_data == old(self).tile_data,
            final(self).tile_maps == old(self).tile_maps,
    {
        &mut self.registers
    }

    /// Read the `ppu_mode` flag of the `STAT` register
    pub fn mode(&self) -> (r: PpuMode)
        ensures
            r == LcdStatus::spec_unpack(self.registers.stat.value).ppu_mode,
    {
        self.registers.stat.unpack().ppu_mode
    }

    /// Get the unpacked value of the `LCDC` register
    pub fn lcdc(&self) -> (r: LcdControl)
        ensures
            r == self.spec_lcdc(),
    {
        self.registers.lcdc.unpack()
    }

    /// Is tile memory accessible to the CPU? It is hidden during mode 3.
    pub fn vram_accessible(&self) -> (r: bool)
        ensures
            r == self.spec_vram_accessible(),
    {
        self.registers.stat.value & 3 != 3
    }

    /// Is Object Attribute Memory accessible to the CPU? It is only visible
    /// in modes 0 and 1.
    pub fn oam_accessible(&self) -> (r: bool)
        ensures
            r == self.spec_oam_accessible(),
    {
        let mode = self.registers.stat.value & 3;
        mode == 0 || mode == 1
    }

    /// Read the attributes of OAM entry `i`
    pub fn attributes(&self, i: usize) -> (r: ObjectAttributes)
        requires
            self.wf(),
            i < 40,
        ensures
            r == oam_attributes(self.oam@, i as int),
    {
        ObjectAttributes {
            y: self.oam[4 * i],
            x: self.oam[4 * i + 1],
            tile_index: TileIndex(self.oam[4 * i + 2]),
            flags: self.oam[4 * i + 3],
        }
    }

    /// Get a list of **up to 10** visible objects for the current scanline
    ///
    /// When there are more than 10 objects intersecting with the current
    /// scanline, the objects earlier in memory (with lower addresses) get
    /// priority.
    ///
    /// Returned objects are sorted by x coordinate (ascending); objects with
    /// the same x coordinate stay in OAM order.
    ///
    /// https://gbdev.io/pandocs/OAM.html#selection-priority
    #[verifier::spinoff_prover]
    pub fn get_objects(&self) -> (r: Vec<Object>)
        requires
            self.wf(),
        ensures
            objects_for_line(*self, r@),
            r@.len() <= MAX_OBJECTS_PER_LINE,
    {
        let line = self.registers.ly;
        let height = self.lcdc().object_size.height();
        let ghost oam = self.oam@;
        let mut objects: Vec<Object> = Vec::new();
        let mut i: usize = 0;
        while i < 40
            invariant
                self.wf(),
                i <= 40,
                oam == self.oam@,
                line == self.registers.ly,
                height == object_height(self.spec_lcdc().object_size),
                objects@.len() == first_ten(scan_objects(oam, line.0, height, i as nat)).len(),
                objects@.len() <= MAX_OBJECTS_PER_LINE,
                in_draw_order(objects@),
                forall|o: Object|
                    objects@.contains(o) <==> first_ten(scan_objects(oam, line.0, height, i as nat)).contains(o),
                forall|k: int| 0 <= k < objects@.len() ==> #[trigger] objects@[k].oam_index < i,
            decreases 40 - i,
        {
            let object = Object { attributes: self.attributes(i), height, oam_index: i as u8 };
            let ghost prev = scan_objects(oam, line.0, height, i as nat);
            assert(object == oam_object(oam, i as int, height));
            assert(scan_objects(oam, line.0, height, (i + 1) as nat) == if spec_intersects_line(object, line.0) {
                prev.push(object)
            } else {
                prev
            });
            if object.intersects_line(line) && objects.len() < MAX_OBJECTS_PER_LINE {
                // Insert after every object that is not further right
                let mut p: usize = 0;
                while p < objects.len() && objects[p].attributes.x <= object.attributes.x
                    invariant
                        p <= objects@.len(),
                        forall|k: int| 0 <= k < p ==> #[trigger] objects@[k].attributes.x <= object.attributes.x,
                    decreases objects@.len() - p,
                {
                    p = p + 1;
                }
                let ghost before = objects@;
                proof {
                    lemma_insert_in_draw_order(before, p as int, object);
                    before.insert_ensures(p as int, object);
                    assert(prev.len() < MAX_OBJECTS_PER_LINE);
                    assert(first_ten(prev) == prev);
                    assert(first_ten(prev.push(object)) == prev.push(object));
                    assert forall|o: Object| prev.push(object).contains(o) <==> (prev.contains(o) || o == object) by {
                        if prev.push(object).contains(o) {
                            let k = choose|k: int| 0 <= k < prev.len() + 1 && prev.push(object)[k] == o;
                            if k < prev.len() {
                                assert(prev[k] == o);
                            }
                        }
                        if prev.contains(o) {
                            let k = choose|k: int| 0 <= k < prev.len() && prev[k] == o;
                            assert(prev.push(object)[k] == o);
                        }
                        if o == object {
                            assert(prev.push(object)[prev.len() as int] == o);
                        }
                    }
                    assert forall|o: Object| before.insert(p as int, object).contains(o) <==> (before.contains(o) || o == object) by {
                        if before.insert(p as int, object).contains(o) {
                            let k = choose|k: int| 0 <= k < before.len() + 1 && before.insert(p as int, object)[k] == o;
                            if k < p {
                                assert(before[k] == o);
                            } else if k > p {
                                assert(before[k - 1] == o);
                            }
                        }
                        if before.contains(o) {
                            let k = choose|k: int| 0 <= k < before.len() && before[k] == o;
                            if k < p {
                                assert(before.insert(p as int, object)[k] == o);
                            } else {
                                assert(before.insert(p as int, object)[k + 1] == o);
                            }
                        }
                        if o == object {
                            assert(before.insert(p as int, object)[p as int] == o);
                        }
                    }
                }
                objects.insert(p, object);
                assert(scan_objects(oam, line.0, height, (i + 1) as nat) == prev.push(object));
                assert forall|o: Object| objects@.contains(o) <==> prev.push(object).contains(o) by {
                    assert(objects@ == before.insert(p as int, object));
                    assert(before.contains(o) <==> prev.contains(o));
                    assert(before.insert(p as int, object).contains(o) <==> (before.contains(o) || o == object));
                    assert(prev.push(object).contains(o) <==> (prev.contains(o) || o == object));
                }
            } else {
                proof {
                    if spec_intersects_line(object, line.0) {
                        assert(prev.len() >= MAX_OBJECTS_PER_LINE);
                        assert(first_ten(prev.push(object)) =~= first_ten(prev));
                    }
                }
                assert(first_ten(scan_objects(oam, line.0, height, (i + 1) as nat)) == first_ten(prev));
            }
            i = i + 1;
        }
        objects
    }

    /// Calculate the color index for a specific pixel
    ///
    /// This is the main rendering logic that walks through objects, then the
    /// background.
    pub fn get_pixel(&self, objects: &Vec<Object>, x: u8, y: u8) -> (r: ColorIndex)
        requires
            self.wf(),
        ensures
            r == self.spec_pixel(objects@, x, y),
    {
        // https://gbdev.io/pandocs/OAM.html#drawing-priority
        match self.get_object_pixel(objects, x, y) {
            Some(index) => index,
            None => self.get_background_pixel(x, y),
        }
    }

    /// Calculate a pixel from visible objects
    ///
    /// Return `None` if no objects intersect the pixel.
    #[verifier::spinoff_prover]
    pub fn get_object_pixel(&self, objects: &Vec<Object>, x: u8, y: u8) -> (r: Option<ColorIndex>)
        requires
            self.wf(),
        ensures
            r == self.spec_object_pixel(objects@, x, y),
    {
        let lcdc = self.lcdc();
        if !lcdc.object_enable {
            return None;
        }
        let n = objects.len();
        let mut k: usize = 0;
        assert(objects@.subrange(0, n as int) =~= objects@);
        while k < n
            invariant
                self.wf(),
                lcdc == self.spec_lcdc(),
                lcdc.object_enable,
                k <= n,
                n == objects@.len(),
                first_object_source(objects@, x, y, lcdc.object_size)
                    == first_object_source(objects@.subrange(k as int, n as int), x, y, lcdc.object_size),
            decreases n - k,
        {
            let ghost rest = objects@.subrange(k as int, n as int);
            assert(rest.drop_first() =~= objects@.subrange(k + 1, n as int));
            assert(rest[0] == objects@[k as int]);
            match objects[k].get_pixel(x, y, lcdc.object_size) {
                Some((tile_index, px, py)) => {
                    let tile = self.tile_data.get(tile_index, TileDataArea::Low);
                    assert(tile.lines@[py as int] == tile_line_at(
                        self.tile_data.data@,
                        tile_number(tile_index, TileDataArea::Low),
                        py as int,
                    ));
                    assert(first_object_source(rest, x, y, lcdc.object_size) == Some((tile_index, px, py)));
                    return Some(tile.pixel(px, py));
                },
                None => {},
            }
            k = k + 1;
        }
        assert(objects@.subrange(n as int, n as int).len() == 0);
        None
    }

    /// Calculate a pixel from the background map
    ///
    /// The background covers the entire screen and wraps at the edge, so every
    /// pixel has a background color.
    pub fn get_background_pixel(&self, x: u8, y: u8) -> (r: ColorIndex)
        requires
            self.wf(),
        ensures
            r == self.spec_background_pixel(x, y),
    {
        // https://gbdev.io/pandocs/Scrolling.html
        // The map is 32x32 tiles of 8x8 pixels, so 256x256 pixels; the
        // scrolled position wraps at its edge.
        let bx = ((self.registers.scx as u16 + x as u16) % 256) as u8;
        let by = ((self.registers.scy as u16 + y as u16) % 256) as u8;
        let tile_index = self.tile_maps.get(bx / Tile::WIDTH, by / Tile::HEIGHT, TileMapArea::Low);
        let tile = self.tile_data.get(tile_index, self.lcdc().bg_window_tiles);
        tile.pixel(bx % Tile::WIDTH, by % Tile::HEIGHT)
    }

    /// Look up a color from the active color palette
    ///
    /// https://gbdev.io/pandocs/Palettes.html
    pub fn get_color(&self, index: ColorIndex) -> (r: Color)
        ensures
            r == spec_color(index),
    {
        match index {
            ColorIndex::Zero => Color::black(),
            ColorIndex::One => Color::dark_gray(),
            ColorIndex::Two => Color::light_gray(),
            ColorIndex::Three => Color::white(),
        }
    }
}

impl Clone for Vram {
    fn clone(&self) -> (r: Self)
        ensures
            r@ == self@,
    {
        let oam = self.oam.clone();
        assert(oam@ =~= self.oam@);
        Vram {
            registers: self.registers,
            oam,
            tile_data: self.tile_data.clone(),
            tile_maps: self.tile_maps.clone(),
        }
    }
}

impl ScanlineState {
    /// Do two states hold the same step and the same objects?
    pub open spec fn same(&self, other: &ScanlineState) -> bool {
        match (*self, *other) {
            (ScanlineState::Start, ScanlineState::Start) => true,
            (ScanlineState::OamScan { objects: a }, ScanlineState::OamScan { objects: b }) => a@ == b@,
            (ScanlineState::Drawing { objects: a, x: xa }, ScanlineState::Drawing { objects: b, x: xb }) => a@
                == b@ && xa == xb,
            (ScanlineState::HorizontalBlank, ScanlineState::HorizontalBlank) => true,
            _ => false,
        }
    }
}

impl Clone for ScanlineState {
    fn clone(&self) -> (r: Self)
        ensures
            r.same(self),
    {
        match self {
            ScanlineState::Start => ScanlineState::Start,
            ScanlineState::OamScan { objects } => {
                let copy = objects.clone();
                assert(copy@ =~= objects@);
                ScanlineState::OamScan { objects: copy }
            },
            ScanlineState::Drawing { objects, x } => {
                let copy = objects.clone();
                assert(copy@ =~= objects@);
                ScanlineState::Drawing { objects: copy, x: *x }
            },
            ScanlineState::HorizontalBlank => ScanlineState::HorizontalBlank,
        }
    }
}

impl Clone for Gpu {
    fn clone(&self) -> (r: Self)
        ensures
            r.vram@ == self.vram@,
            r.current_scanline.same(&self.current_scanline),
    {
        Gpu { vram: self.vram.clone(), current_scanline: self.current_scanline.clone() }
    }
}

} // verus!
