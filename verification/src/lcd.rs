//! The LCD controller: video RAM, object attribute memory, the control
//! register block at 0xFF40-0xFF4B, the four-phase timing state machine
//! and the 160x144 RGBA framebuffer filled one background scanline per
//! horizontal blank.

use vstd::prelude::*;

use crate::bus::Bus;
use crate::util::{byte_at, zero_vec};

verus! {

/// Ticks spent in the OAM-scan phase of each scanline.
pub const OAM_TICKS: u16 = 80;

/// Ticks spent in the OAM+VRAM transfer phase of each scanline.
pub const OAM_AND_VRAM_TICKS: u16 = 172;

/// Ticks spent in the horizontal blank phase of each scanline.
pub const HBLANK_TICKS: u16 = 204;

/// Ticks spent in the vertical blank, modelled as one long phase.
pub const VBLANK_TICKS: u16 = 4560;

/// A coordinate pair on the 256x256 background map or the 160x144 screen.
#[derive(Clone, Copy, PartialEq, Eq, Structural, Debug)]
pub struct Point {
    pub x: u8,
    pub y: u8,
}

/// One RGBA framebuffer pixel.
#[derive(Clone, Copy, PartialEq, Eq, Structural, Debug)]
pub struct Pixel {
    pub r: u8,
    pub g: u8,
    pub b: u8,
    pub a: u8,
}

#[derive(Clone, Copy, PartialEq, Eq, Structural, Debug)]
pub enum SpriteSize {
    SS8x16,
    SS8x8,
}

#[derive(Clone, Copy, PartialEq, Eq, Structural, Debug)]
pub enum Transparency {
    Solid,
    Transparent,
}

#[derive(Clone, Copy, PartialEq, Eq, Structural, Debug)]
pub enum CoincidenceFlag {
    Coincidence,
    NoCoincidence,
}

/// The controller's drawing phase, each carrying its elapsed-tick counter.
#[derive(Clone, Copy, PartialEq, Eq, Structural, Debug)]
pub enum LcdControllerMode {
    OamAccess(u16),
    OamAndVramAccess(u16),
    HorizontalBlank(u16),
    VerticalBlank(u16),
}

/// The abstract state of the LCD controller.
pub struct LcdView {
    pub vram: Seq<u8>,
    pub oam: Seq<u8>,
    pub lcdram: Seq<u8>,
    pub display: Seq<Pixel>,
    pub mode: LcdControllerMode,
}

pub struct LCD {
    vram: Vec<u8>,
    oam: Vec<u8>,
    lcdram: Vec<u8>,
    pub lcd_display: Vec<Pixel>,
    pub drawing_state: LcdControllerMode,
}

impl View for LCD {
    type V = LcdView;

    closed spec fn view(&self) -> LcdView {
        LcdView {
            vram: self.vram@,
            oam: self.oam@,
            lcdram: self.lcdram@,
            display: self.lcd_display@,
            mode: self.drawing_state,
        }
    }
}

/// The region sizes the controller owns.
pub open spec fn lcd_wf(v: LcdView) -> bool {
    &&& v.vram.len() == 0x2000
    &&& v.oam.len() == 0xa0
    &&& v.lcdram.len() == 0xc
    &&& v.display.len() == 160 * 144
}

/// The addresses the controller answers: VRAM, OAM and the control block,
/// except the DMA trigger 0xFF46, which belongs to the memory router.
pub open spec fn lcd_addr_ok(addr: u16) -> bool {
    ||| 0x8000 <= addr && addr < 0xa000
    ||| 0xfe00 <= addr && addr < 0xfea0
    ||| (0xff40 <= addr && addr < 0xff4c && addr != 0xff46)
}

/// The LCDSTAT low bits synthesized from the drawing phase.
pub open spec fn stat_of(mode: LcdControllerMode) -> u8 {
    match mode {
        LcdControllerMode::OamAccess(_) => 2,
        LcdControllerMode::OamAndVramAccess(_) => 3,
        LcdControllerMode::HorizontalBlank(_) => 0,
        LcdControllerMode::VerticalBlank(_) => 1,
    }
}

/// The LCDCONT control byte.
pub open spec fn lcdcont_of(v: LcdView) -> u8 {
    byte_at(v.lcdram, 0)
}

pub open spec fn scrolly_of(v: LcdView) -> u8 {
    byte_at(v.lcdram, 2)
}

pub open spec fn scrollx_of(v: LcdView) -> u8 {
    byte_at(v.lcdram, 3)
}

/// The current scanline, 0 to 153.
pub open spec fn curline_of(v: LcdView) -> u8 {
    byte_at(v.lcdram, 4)
}

/// The background tile-map base: 0x9800 or 0x9C00 by LCDCONT bit 3.
pub open spec fn background_tile_table_base(v: LcdView) -> u16 {
    if (lcdcont_of(v) >> 3) & 1 == 1 {
        0x9c00
    } else {
        0x9800
    }
}

/// The tile-pattern table base: 0x8000 (unsigned indices) or 0x9000
/// (signed indices) by LCDCONT bit 4.
pub open spec fn tile_pattern_table_base(v: LcdView) -> u16 {
    if (lcdcont_of(v) >> 4) & 1 == 1 {
        0x8000
    } else {
        0x9000
    }
}

/// What a controller read returns. LCDSTAT is synthesized from the phase
/// tag; everything else comes from the owned byte regions.
pub open spec fn spec_lcd_read8(v: LcdView, addr: u16) -> u8 {
    if 0x8000 <= addr && addr < 0xa000 {
        byte_at(v.vram, addr - 0x8000)
    } else if 0xfe00 <= addr && addr < 0xfea0 {
        byte_at(v.oam, addr - 0xfe00)
    } else if addr == 0xff41 {
        stat_of(v.mode)
    } else if 0xff40 <= addr && addr < 0xff4c {
        byte_at(v.lcdram, addr - 0xff40)
    } else {
        0
    }
}

/// What a controller write does. Writes to the synthesized LCDSTAT are
/// discarded; everything else stores into the owned byte regions.
pub open spec fn spec_lcd_write8(v: LcdView, addr: u16, data: u8) -> LcdView {
    if 0x8000 <= addr && addr < 0xa000 {
        LcdView { vram: v.vram.update(addr - 0x8000, data), ..v }
    } else if 0xfe00 <= addr && addr < 0xfea0 {
        LcdView { oam: v.oam.update(addr - 0xfe00, data), ..v }
    } else if addr == 0xff41 {
        v
    } else if 0xff40 <= addr && addr < 0xff4c {
        LcdView { lcdram: v.lcdram.update(addr - 0xff40, data), ..v }
    } else {
        v
    }
}

/// The two-bit pattern value of the pixel at column `x` of row `y` of
/// the tile whose 16-byte pattern starts at `tile_base`: each row is a
/// byte pair, upper plane first.
pub open spec fn spec_tile_pixel(v: LcdView, tile_base: u16, x: u8, y: u8) -> u8 {
    let addr = (tile_base + (y % 8) * 2) as u16;
    let upper_byte = spec_lcd_read8(v, addr);
    let lower_byte = spec_lcd_read8(v, (addr + 1) as u16);
    let upper_result = (upper_byte >> ((7 - x) as u8)) & 1;
    let lower_result = (lower_byte >> ((7 - x) as u8)) & 1;
    (upper_result << 1) | lower_result
}

/// The two-bit background pixel value at background-map coordinates
/// (x, y): the tile map selects a tile index, interpreted unsigned from
/// base 0x8000 or signed from base 0x9000.
pub open spec fn spec_bg_pixel(v: LcdView, x: u8, y: u8) -> u8 {
    let tt_addr = (background_tile_table_base(v) + (y / 8) * 32 + (x / 8)) as u16;
    let tt_entry = spec_lcd_read8(v, tt_addr);
    if tile_pattern_table_base(v) == 0x8000 {
        spec_tile_pixel(v, (0x8000 + tt_entry * 16) as u16, x % 8, y % 8)
    } else {
        spec_tile_pixel(v, (0x9000 + (tt_entry as i8) * 16) as u16, x % 8, y % 8)
    }
}

/// The greyscale RGBA quad for a two-bit pixel value, each channel the
/// pixel value times 100 reduced modulo 256.
pub open spec fn spec_pixel_colour(px: u8) -> Pixel {
    let c = ((px * 100) % 256) as u8;
    Pixel { r: c, g: c, b: c, a: 255 }
}

/// The background pixel value reads only video memory and the control
/// registers, never the framebuffer or the drawing phase: every address
/// the tile lookup touches lies inside VRAM.
pub proof fn lemma_bg_pixel_same_video(v1: LcdView, v2: LcdView, x: u8, y: u8)
    requires
        v1.vram == v2.vram,
        v1.oam == v2.oam,
        v1.lcdram == v2.lcdram,
    ensures
        spec_bg_pixel(v1, x, y) == spec_bg_pixel(v2, x, y),
{
    let tt_addr = (background_tile_table_base(v1) + (y / 8) * 32 + (x / 8)) as u16;
    assert(0x9800 <= tt_addr < 0xa000);
    let tt_entry = spec_lcd_read8(v1, tt_addr);
    assert(spec_lcd_read8(v2, tt_addr) == tt_entry);
    let base_unsigned = (0x8000 + tt_entry * 16) as u16;
    let base_signed = (0x9000 + (tt_entry as i8) * 16) as u16;
    assert(0x8000 <= base_unsigned <= 0x97f0);
    assert(0x8000 <= base_signed <= 0x97f0);
    lemma_tile_pixel_same_video(v1, v2, base_unsigned, x % 8, y % 8);
    lemma_tile_pixel_same_video(v1, v2, base_signed, x % 8, y % 8);
}

/// The tile pattern lookup touches VRAM alone when the tile base lies in
/// the pattern tables.
proof fn lemma_tile_pixel_same_video(v1: LcdView, v2: LcdView, tile_base: u16, x: u8, y: u8)
    requires
        v1.vram == v2.vram,
        0x8000 <= tile_base <= 0x97f0,
    ensures
        spec_tile_pixel(v1, tile_base, x, y) == spec_tile_pixel(v2, tile_base, x, y),
{
    let addr = (tile_base + (y % 8) * 2) as u16;
    assert(0x8000 <= addr && addr + 1 < 0xa000);
}

/// Rendering a scanline depends only on the video regions and the
/// framebuffer, not on the drawing phase.
pub proof fn lemma_render_line_same_video(v1: LcdView, v2: LcdView)
    requires
        v1.vram == v2.vram,
        v1.oam == v2.oam,
        v1.lcdram == v2.lcdram,
        v1.display == v2.display,
    ensures
        spec_render_line(v1) == spec_render_line(v2),
{
    reveal(spec_render_line);
    assert forall|i: int| 0 <= i < v1.display.len() implies spec_render_line(v1)[i]
        == spec_render_line(v2)[i] by {
        let y = curline_of(v1) as int;
        if y < 144 && i / 160 == y {
            lemma_bg_pixel_same_video(
                v1,
                v2,
                ((scrollx_of(v1) + i % 160) % 256) as u8,
                ((scrolly_of(v1) + y) % 256) as u8,
            );
        }
    }
    assert(spec_render_line(v1) =~= spec_render_line(v2));
}

/// The controller state after `n` timing ticks.
pub open spec fn spec_lcd_tick_n(v: LcdView, n: nat) -> LcdView
    decreases n,
{
    if n == 0 {
        v
    } else {
        spec_lcd_tick(spec_lcd_tick_n(v, (n - 1) as nat))
    }
}

/// Ticking `a + b` times is ticking `a` times and then `b` times.
pub proof fn lemma_tick_n_add(v: LcdView, a: nat, b: nat)
    ensures
        spec_lcd_tick_n(v, a + b) == spec_lcd_tick_n(spec_lcd_tick_n(v, a), b),
    decreases b,
{
    if b > 0 {
        lemma_tick_n_add(v, a, (b - 1) as nat);
        assert(a + b - 1 == a + (b - 1) as nat);
    }
}

/// Within the OAM phase, ticks only advance the counter.
proof fn lemma_oam_steps(v: LcdView, j: u16, k: nat)
    requires
        v.mode == LcdControllerMode::OamAccess(j),
        j + k <= OAM_TICKS - 1,
    ensures
        spec_lcd_tick_n(v, k) == (LcdView {
            mode: LcdControllerMode::OamAccess((j + k) as u16),
            ..v
        }),
    decreases k,
{
    if k == 0 {
        assert((LcdView { mode: LcdControllerMode::OamAccess(j), ..v }) == v);
    } else {
        lemma_oam_steps(v, j, (k - 1) as nat);
    }
}

/// Within the OAM+VRAM phase, ticks only advance the counter.
proof fn lemma_ova_steps(v: LcdView, j: u16, k: nat)
    requires
        v.mode == LcdControllerMode::OamAndVramAccess(j),
        j + k <= OAM_AND_VRAM_TICKS - 1,
    ensures
        spec_lcd_tick_n(v, k) == (LcdView {
            mode: LcdControllerMode::OamAndVramAccess((j + k) as u16),
            ..v
        }),
    decreases k,
{
    if k == 0 {
        assert((LcdView { mode: LcdControllerMode::OamAndVramAccess(j), ..v }) == v);
    } else {
        lemma_ova_steps(v, j, (k - 1) as nat);
    }
}

/// Within the horizontal blank phase, ticks only advance the counter.
proof fn lemma_hblank_steps(v: LcdView, j: u16, k: nat)
    requires
        v.mode == LcdControllerMode::HorizontalBlank(j),
        j + k <= HBLANK_TICKS - 1,
    ensures
        spec_lcd_tick_n(v, k) == (LcdView {
            mode: LcdControllerMode::HorizontalBlank((j + k) as u16),
            ..v
        }),
    decreases k,
{
    if k == 0 {
        assert((LcdView { mode: LcdControllerMode::HorizontalBlank(j), ..v }) == v);
    } else {
        lemma_hblank_steps(v, j, (k - 1) as nat);
    }
}

/// Scanline timing: from the start of the OAM phase on any scanline other
/// than 144, the 80 OAM ticks plus the 172 OAM+VRAM ticks move the
/// controller to HorizontalBlank(0), having rendered the current
/// background scanline exactly once; the 204 horizontal-blank ticks that
/// follow advance the scanline and return the controller to OamAccess(0)
/// with the framebuffer untouched.
pub proof fn lemma_lcd_scanline_timing(v: LcdView)
    requires
        v.mode == LcdControllerMode::OamAccess(0),
        curline_of(v) != 144,
    ensures
        spec_lcd_tick_n(v, (OAM_TICKS + OAM_AND_VRAM_TICKS) as nat) == (LcdView {
            display: spec_render_line(v),
            mode: LcdControllerMode::HorizontalBlank(0),
            ..v
        }),
        spec_lcd_tick_n(v, (OAM_TICKS + OAM_AND_VRAM_TICKS + HBLANK_TICKS) as nat) == (LcdView {
            display: spec_render_line(v),
            lcdram: v.lcdram.update(4, curline_of(v).wrapping_add(1)),
            mode: LcdControllerMode::OamAccess(0),
            ..v
        }),
{
    lemma_oam_steps(v, 0, 79);
    let v79 = spec_lcd_tick_n(v, 79);
    lemma_tick_n_add(v, 79, 1);
    let v80 = spec_lcd_tick_n(v, 80);
    assert(v80 == spec_lcd_tick(v79));
    assert(v80 == (LcdView { mode: LcdControllerMode::OamAndVramAccess(0), ..v }));

    lemma_ova_steps(v80, 0, 171);
    lemma_tick_n_add(v, 80, 171);
    let v251 = spec_lcd_tick_n(v, 251);
    assert(v251 == (LcdView { mode: LcdControllerMode::OamAndVramAccess(171), ..v }));
    lemma_tick_n_add(v, 251, 1);
    let v252 = spec_lcd_tick_n(v, 252);
    assert(v252 == spec_lcd_tick(v251));
    lemma_render_line_same_video(v251, v);
    assert(v252 == (LcdView {
        display: spec_render_line(v),
        mode: LcdControllerMode::HorizontalBlank(0),
        ..v
    }));

    lemma_hblank_steps(v252, 0, 203);
    lemma_tick_n_add(v, 252, 203);
    let v455 = spec_lcd_tick_n(v, 455);
    assert(v455 == (LcdView {
        display: spec_render_line(v),
        mode: LcdControllerMode::HorizontalBlank(203),
        ..v
    }));
    lemma_tick_n_add(v, 455, 1);
    let v456 = spec_lcd_tick_n(v, 456);
    assert(v456 == spec_lcd_tick(v455));
}

/// The framebuffer after rendering the current scanline's background
/// pixels: row `curline` is recomputed from the scrolled background map,
/// every other row is untouched.
#[verifier::opaque]
pub open spec fn spec_render_line(v: LcdView) -> Seq<Pixel> {
    Seq::new(
        v.display.len(),
        |i: int|
            {
                let y = curline_of(v) as int;
                if y < 144 && i / 160 == y {
                    let x = i % 160;
                    let px = spec_bg_pixel(
                        v,
                        ((scrollx_of(v) + x) % 256) as u8,
                        ((scrolly_of(v) + y) % 256) as u8,
                    );
                    spec_pixel_colour(px)
                } else {
                    v.display[i]
                }
            },
    )
}

/// One tick of the timing state machine: each phase lasts exactly its
/// tick budget; leaving OAM+VRAM either enters the vertical blank (at
/// scanline 144) or renders the scanline and enters horizontal blank;
/// leaving horizontal blank advances the scanline; leaving vertical blank
/// resets it.
pub open spec fn spec_lcd_tick(v: LcdView) -> LcdView {
    match v.mode {
        LcdControllerMode::OamAccess(cnt) => {
            if cnt >= OAM_TICKS - 1 {
                LcdView { mode: LcdControllerMode::OamAndVramAccess(0), ..v }
            } else {
                LcdView { mode: LcdControllerMode::OamAccess((cnt + 1) as u16), ..v }
            }
        },
        LcdControllerMode::OamAndVramAccess(cnt) => {
            if cnt >= OAM_AND_VRAM_TICKS - 1 {
                if curline_of(v) == 144 {
                    LcdView { mode: LcdControllerMode::VerticalBlank(0), ..v }
                } else {
                    LcdView {
                        display: spec_render_line(v),
                        mode: LcdControllerMode::HorizontalBlank(0),
                        ..v
                    }
                }
            } else {
                LcdView { mode: LcdControllerMode::OamAndVramAccess((cnt + 1) as u16), ..v }
            }
        },
        LcdControllerMode::HorizontalBlank(cnt) => {
            if cnt >= HBLANK_TICKS - 1 {
                LcdView {
                    lcdram: v.lcdram.update(4, curline_of(v).wrapping_add(1)),
                    mode: LcdControllerMode::OamAccess(0),
                    ..v
                }
            } else {
                LcdView { mode: LcdControllerMode::HorizontalBlank((cnt + 1) as u16), ..v }
            }
        },
        LcdControllerMode::VerticalBlank(cnt) => {
            if cnt >= VBLANK_TICKS - 1 {
                LcdView {
                    lcdram: v.lcdram.update(4, 0),
                    mode: LcdControllerMode::OamAccess(0),
                    ..v
                }
            } else {
                LcdView { mode: LcdControllerMode::VerticalBlank((cnt + 1) as u16), ..v }
            }
        },
    }
}

/// The controller's power-on state: cleared memory, a blank framebuffer
/// and the OAM phase of scanline 0.
pub open spec fn lcd_initial() -> LcdView {
    LcdView {
        vram: Seq::new(0x2000, |i: int| 0u8),
        oam: Seq::new(0xa0, |i: int| 0u8),
        lcdram: Seq::new(0xc, |i: int| 0u8),
        display: Seq::new((160 * 144) as nat, |i: int| Pixel { r: 0, g: 0, b: 0, a: 0 }),
        mode: LcdControllerMode::OamAccess(0),
    }
}

/// A zero-initialized framebuffer of `n` pixels.
fn blank_display(n: usize) -> (v: Vec<Pixel>)
    ensures
        v@ == Seq::new(n as nat, |i: int| Pixel { r: 0, g: 0, b: 0, a: 0 }),
{
    let mut v: Vec<Pixel> = Vec::new();
    let mut k: usize = 0;
    while k < n
        invariant
            k <= n,
            v@ == Seq::new(k as nat, |i: int| Pixel { r: 0, g: 0, b: 0, a: 0 }),
        decreases n - k,
    {
        v.push(Pixel { r: 0, g: 0, b: 0, a: 0 });
        k = k + 1;
        proof {
            assert(v@ =~= Seq::new(k as nat, |i: int| Pixel { r: 0, g: 0, b: 0, a: 0 }));
        }
    }
    v
}

impl LCD {
    pub fn new() -> (r: LCD)
        ensures
            lcd_wf(r@),
            r@ == lcd_initial(),
    {
        LCD {
            vram: zero_vec(0x2000),
            oam: zero_vec(0xa0),
            lcdram: zero_vec(0xc),
            lcd_display: blank_display(160 * 144),
            drawing_state: LcdControllerMode::OamAccess(0),
        }
    }

    pub fn read8(&self, addr: u16) -> (r: u8)
        requires
            lcd_wf(self@),
            lcd_addr_ok(addr),
        ensures
            r == spec_lcd_read8(self@, addr),
    {
        if 0x8000 <= addr && addr < 0xa000 {
            self.vram[(addr - 0x8000) as usize]
        } else if 0xfe00 <= addr && addr < 0xfea0 {
            self.oam[(addr - 0xfe00) as usize]
        } else if addr == 0xff41 {
            self.lcdstat()
        } else {
            self.lcdram[(addr - 0xff40) as usize]
        }
    }

    pub fn write8(&mut self, addr: u16, data: u8)
        requires
            lcd_wf(old(self)@),
            lcd_addr_ok(addr),
        ensures
            lcd_wf(final(self)@),
            final(self)@ == spec_lcd_write8(old(self)@, addr, data),
    {
        if 0x8000 <= addr && addr < 0xa000 {
            self.vram[(addr - 0x8000) as usize] = data;
        } else if 0xfe00 <= addr && addr < 0xfea0 {
            self.oam[(addr - 0xfe00) as usize] = data;
        } else if addr == 0xff41 {
            // LCDSTAT is synthesized from the phase tag; stores are dropped.
        } else {
            self.lcdram[(addr - 0xff40) as usize] = data;
        }
    }

    /// One timing tick.
    pub fn tick_update(&mut self)
        requires
            lcd_wf(old(self)@),
        ensures
            lcd_wf(final(self)@),
            final(self)@ == spec_lcd_tick(old(self)@),
    {
        match self.drawing_state {
            LcdControllerMode::OamAccess(cnt) => {
                if cnt >= OAM_TICKS - 1 {
                    self.drawing_state = LcdControllerMode::OamAndVramAccess(0);
                } else {
                    self.drawing_state = LcdControllerMode::OamAccess(cnt + 1);
                }
            },
            LcdControllerMode::OamAndVramAccess(cnt) => {
                if cnt >= OAM_AND_VRAM_TICKS - 1 {
                    if self.curline() == 144 {
                        self.drawing_state = LcdControllerMode::VerticalBlank(0);
                    } else {
                        self.update_bg_map();
                        self.drawing_state = LcdControllerMode::HorizontalBlank(0);
                    }
                } else {
                    self.drawing_state = LcdControllerMode::OamAndVramAccess(cnt + 1);
                }
            },
            LcdControllerMode::HorizontalBlank(cnt) => {
                if cnt >= HBLANK_TICKS - 1 {
                    let line = self.curline();
                    self.lcdram[4] = line.wrapping_add(1);
                    self.drawing_state = LcdControllerMode::OamAccess(0);
                } else {
                    self.drawing_state = LcdControllerMode::HorizontalBlank(cnt + 1);
                }
            },
            LcdControllerMode::VerticalBlank(cnt) => {
                if cnt >= VBLANK_TICKS - 1 {
                    self.lcdram[4] = 0;
                    self.drawing_state = LcdControllerMode::OamAccess(0);
                } else {
                    self.drawing_state = LcdControllerMode::VerticalBlank(cnt + 1);
                }
            },
        }
    }

    /// Stores one framebuffer pixel; coordinates off the 160x144 screen
    /// are discarded.
    fn set_lcd_pixel(&mut self, point: Point, rgb: Pixel)
        requires
            lcd_wf(old(self)@),
        ensures
            lcd_wf(final(self)@),
            final(self)@ == (LcdView {
                display: if (point.y as int) * 160 + (point.x as int) < old(self)@.display.len() {
                    old(self)@.display.update((point.y as int) * 160 + (point.x as int), rgb)
                } else {
                    old(self)@.display
                },
                ..old(self)@
            }),
    {
        let idx: usize = (point.y as usize) * 160 + (point.x as usize);
        if idx < self.lcd_display.len() {
            self.lcd_display[idx] = rgb;
        }
    }

    /// The two-bit pattern value of the pixel at (x, y) inside the tile
    /// whose pattern starts at `tile_base`.
    fn pixel_from_tile(&self, tile_base: u16, x: u8, y: u8) -> (r: u8)
        requires
            lcd_wf(self@),
            0x8000 <= tile_base <= 0x97f0,
            x < 8,
        ensures
            r == spec_tile_pixel(self@, tile_base, x, y),
    {
        let addr = tile_base + (y as u16 % 8) * 2;
        let upper_byte = self.read8(addr);
        let lower_byte = self.read8(addr + 1);
        let upper_result = (upper_byte >> (7 - x)) & 1;
        let lower_result = (lower_byte >> (7 - x)) & 1;
        (upper_result << 1) | lower_result
    }

    /// The two-bit background pixel value at background-map coordinates
    /// `bg_map`.
    fn get_bg_pixel(&self, bg_map: Point) -> (r: u8)
        requires
            lcd_wf(self@),
        ensures
            r == spec_bg_pixel(self@, bg_map.x, bg_map.y),
    {
        let bg_tt_addr = self.background_tile_table_base_addr();
        let tpt_addr = self.tile_pattern_table_base_addr();
        let tile_col = (bg_map.x / 8) as u16;
        let pixel_col = bg_map.x % 8;
        let tile_row = (bg_map.y / 8) as u16;
        let pixel_row = bg_map.y % 8;

        let tt_addr = bg_tt_addr + tile_row * 32 + tile_col;
        let tt_entry = self.read8(tt_addr);
        if tpt_addr == 0x8000 {
            let tile_base = 0x8000 + (tt_entry as u16) * 16;
            self.pixel_from_tile(tile_base, pixel_col, pixel_row)
        } else {
            let offset = (tt_entry as i8 as i32) * 16;
            let tile_base = (0x9000i32 + offset) as u16;
            self.pixel_from_tile(tile_base, pixel_col, pixel_row)
        }
    }

    /// Renders the current scanline's 160 background pixels into the
    /// framebuffer.
    #[verifier::rlimit(100)]
    fn update_bg_map(&mut self)
        requires
            lcd_wf(old(self)@),
        ensures
            lcd_wf(final(self)@),
            final(self)@ == (LcdView { display: spec_render_line(old(self)@), ..old(self)@ }),
    {
        let scx = self.scrollx();
        let scy = self.scrolly();
        let curline = self.curline();

        let ghost v0 = self@;
        let mut x: u8 = 0;
        while x < 160
            invariant
                lcd_wf(self@),
                x <= 160,
                self@.vram == v0.vram,
                self@.oam == v0.oam,
                self@.lcdram == v0.lcdram,
                self@.mode == v0.mode,
                scx == scrollx_of(v0),
                scy == scrolly_of(v0),
                curline == curline_of(v0),
                forall|i: int|
                    0 <= i < v0.display.len() ==> self@.display[i] == (if curline_of(v0) < 144
                        && i / 160 == curline_of(v0) as int && i % 160 < x as int {
                        spec_pixel_colour(
                            spec_bg_pixel(
                                v0,
                                ((scrollx_of(v0) + i % 160) % 256) as u8,
                                ((scrolly_of(v0) + curline_of(v0)) % 256) as u8,
                            ),
                        )
                    } else {
                        v0.display[i]
                    }),
                self@.display.len() == v0.display.len(),
            decreases 160 - x,
        {
            let bg_map_x = scx.wrapping_add(x);
            let bg_map_y = scy.wrapping_add(curline);
            let bg_point = Point { x: bg_map_x, y: bg_map_y };
            let pixel = self.get_bg_pixel(bg_point);
            let colour = pixel.wrapping_mul(100);
            let rgb = Pixel { r: colour, g: colour, b: colour, a: 255 };
            let lcd_point = Point { x, y: curline };
            proof {
                lemma_bg_pixel_same_video(self@, v0, bg_map_x, bg_map_y);
                assert(rgb == spec_pixel_colour(spec_bg_pixel(v0, bg_map_x, bg_map_y)));
                if curline_of(v0) < 144 {
                    let i = (curline_of(v0) as int) * 160 + (x as int);
                    assert(i / 160 == curline_of(v0) as int && i % 160 == x as int) by (nonlinear_arith)
                        requires
                            0 <= x < 160,
                            i == (curline_of(v0) as int) * 160 + (x as int),
                    ;
                }
            }
            self.set_lcd_pixel(lcd_point, rgb);
            x = x + 1;
        }
        proof {
            reveal(spec_render_line);
            assert forall|i: int| 0 <= i < v0.display.len() implies self@.display[i]
                == spec_render_line(v0)[i] by {
            }
            assert(self@.display =~= spec_render_line(v0));
            assert(self@ =~= (LcdView { display: spec_render_line(v0), ..v0 }));
        }
    }

    // LCDCONT register accessors
    pub fn lcdcont(&self) -> (r: u8)
        requires
            lcd_wf(self@),
        ensures
            r == lcdcont_of(self@),
    {
        self.lcdram[0x0]
    }

    pub fn lcd_operation(&self) -> (r: bool)
        requires
            lcd_wf(self@),
        ensures
            r == ((lcdcont_of(self@) >> 7) & 1 == 1),
    {
        (self.lcdcont() >> 7) & 1 == 1
    }

    pub fn window_tile_table_base_addr(&self) -> (r: u16)
        requires
            lcd_wf(self@),
        ensures
            r == if (lcdcont_of(self@) >> 6) & 1 == 1 {
                0x9c00u16
            } else {
                0x9800u16
            },
    {
        if (self.lcdcont() >> 6) & 1 == 1 {
            0x9c00
        } else {
            0x9800
        }
    }

    pub fn window_display(&self) -> (r: bool)
        requires
            lcd_wf(self@),
        ensures
            r == ((lcdcont_of(self@) >> 5) & 1 == 1),
    {
        (self.lcdcont() >> 5) & 1 == 1
    }

    pub fn tile_pattern_table_base_addr(&self) -> (r: u16)
        requires
            lcd_wf(self@),
        ensures
            r == tile_pattern_table_base(self@),
    {
        if (self.lcdcont() >> 4) & 1 == 1 {
            0x8000
        } else {
            0x9000
        }
    }

    pub fn background_tile_table_base_addr(&self) -> (r: u16)
        requires
            lcd_wf(self@),
        ensures
            r == background_tile_table_base(self@),
    {
        if (self.lcdcont() >> 3) & 1 == 1 {
            0x9c00
        } else {
            0x9800
        }
    }

    pub fn sprite_size(&self) -> (r: SpriteSize)
        requires
            lcd_wf(self@),
        ensures
            r == if (lcdcont_of(self@) >> 2) & 1 == 1 {
                SpriteSize::SS8x16
            } else {
                SpriteSize::SS8x8
            },
    {
        if (self.lcdcont() >> 2) & 1 == 1 {
            SpriteSize::SS8x16
        } else {
            SpriteSize::SS8x8
        }
    }

    pub fn color_0_window_transparency(&self) -> (r: Transparency)
        requires
            lcd_wf(self@),
        ensures
            r == if (lcdcont_of(self@) >> 1) & 1 == 1 {
                Transparency::Solid
            } else {
                Transparency::Transparent
            },
    {
        if (self.lcdcont() >> 1) & 1 == 1 {
            Transparency::Solid
        } else {
            Transparency::Transparent
        }
    }

    pub fn background_display(&self) -> (r: bool)
        requires
            lcd_wf(self@),
        ensures
            r == (lcdcont_of(self@) & 1 == 1),
    {
        self.lcdcont() & 1 == 1
    }

    // LCDSTAT register accessors
    pub fn lcdstat(&self) -> (r: u8)
        ensures
            r == stat_of(self@.mode),
    {
        match self.drawing_state {
            LcdControllerMode::OamAccess(_) => 2,
            LcdControllerMode::OamAndVramAccess(_) => 3,
            LcdControllerMode::HorizontalBlank(_) => 0,
            LcdControllerMode::VerticalBlank(_) => 1,
        }
    }

    pub fn scanline_coincidence_interrupt(&self) -> (r: bool)
        ensures
            r == ((stat_of(self@.mode) >> 6) & 1 == 1),
    {
        (self.lcdstat() >> 6) & 1 == 1
    }

    pub fn controller_mode_10_interrupt(&self) -> (r: bool)
        ensures
            r == ((stat_of(self@.mode) >> 5) & 1 == 1),
    {
        (self.lcdstat() >> 5) & 1 == 1
    }

    pub fn controller_mode_01_interrupt(&self) -> (r: bool)
        ensures
            r == ((stat_of(self@.mode) >> 4) & 1 == 1),
    {
        (self.lcdstat() >> 4) & 1 == 1
    }

    pub fn controller_mode_00_interrupt(&self) -> (r: bool)
        ensures
            r == ((stat_of(self@.mode) >> 3) & 1 == 1),
    {
        (self.lcdstat() >> 3) & 1 == 1
    }

    pub fn scanline_coincidence_flag(&self) -> (r: CoincidenceFlag)
        ensures
            r == if (stat_of(self@.mode) >> 2) & 1 == 1 {
                CoincidenceFlag::Coincidence
            } else {
                CoincidenceFlag::NoCoincidence
            },
    {
        if (self.lcdstat() >> 2) & 1 == 1 {
            CoincidenceFlag::Coincidence
        } else {
            CoincidenceFlag::NoCoincidence
        }
    }

    pub fn scrolly(&self) -> (r: u8)
        requires
            lcd_wf(self@),
        ensures
            r == scrolly_of(self@),
    {
        self.lcdram[0x2]
    }

    pub fn scrollx(&self) -> (r: u8)
        requires
            lcd_wf(self@),
        ensures
            r == scrollx_of(self@),
    {
        self.lcdram[0x3]
    }

    pub fn curline(&self) -> (r: u8)
        requires
            lcd_wf(self@),
        ensures
            r == curline_of(self@),
    {
        self.lcdram[0x4]
    }

    /// A mutable borrow of the current-scanline register.
    pub fn curline_mut(&mut self) -> (r: &mut u8)
        requires
            lcd_wf(old(self)@),
        ensures
            *r == curline_of(old(self)@),
            final(self)@ == (LcdView {
                lcdram: old(self)@.lcdram.update(4, *final(r)),
                ..old(self)@
            }),
            lcd_wf(final(self)@),
    {
        &mut self.lcdram[0x4]
    }

    pub fn cmpline(&self) -> (r: u8)
        requires
            lcd_wf(self@),
        ensures
            r == byte_at(self@.lcdram, 5),
    {
        self.lcdram[0x5]
    }

    pub fn bgrdpal(&self) -> (r: u8)
        requires
            lcd_wf(self@),
        ensures
            r == byte_at(self@.lcdram, 7),
    {
        self.lcdram[0x7]
    }

    pub fn obj0pal(&self) -> (r: u8)
        requires
            lcd_wf(self@),
        ensures
            r == byte_at(self@.lcdram, 8),
    {
        self.lcdram[0x8]
    }

    pub fn obj1pal(&self) -> (r: u8)
        requires
            lcd_wf(self@),
        ensures
            r == byte_at(self@.lcdram, 9),
    {
        self.lcdram[0x9]
    }

    pub fn wndposy(&self) -> (r: u8)
        requires
            lcd_wf(self@),
        ensures
            r == byte_at(self@.lcdram, 0xa),
    {
        self.lcdram[0xa]
    }

    pub fn wndposx(&self) -> (r: u8)
        requires
            lcd_wf(self@),
        ensures
            r == byte_at(self@.lcdram, 0xb),
    {
        self.lcdram[0xb]
    }
}

impl Bus for LCD {
    open spec fn inv(&self) -> bool {
        lcd_wf(self@)
    }

    open spec fn addr_ok(addr: u16) -> bool {
        lcd_addr_ok(addr)
    }

    open spec fn spec_read8(&self, addr: u16) -> u8 {
        spec_lcd_read8(self@, addr)
    }

    fn read8(&self, addr: u16) -> u8 {
        LCD::read8(self, addr)
    }

    fn write8(&mut self, addr: u16, data: u8) {
        LCD::write8(self, addr, data)
    }
}

} // verus!
