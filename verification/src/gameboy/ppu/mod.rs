//! The pixel unit: video memory, sprite memory, the registers, and the
//! per-line sequence of sprite search, pixel transfer and blanking.

pub mod lcd_control;
pub mod lcd_status;
pub mod obj;
pub mod palette;
pub mod pixel_transfer;
pub mod scroll;

use self::lcd_control::LcdControl;
use self::lcd_status::{LcdStatus, Mode};
use self::obj::{Attributes, VisibleObjs, MAX_VISIBLE_SPRITES};
use self::palette::Palette;
use self::pixel_transfer::{
    mix_pixels, mixed_color, BgPixel, FetchInput, FetchOutcome, Fetcher, ObjPixel, PixelFifo,
};
use super::interrupts::{Interrupt, InterruptSet};
use vstd::prelude::*;

verus! {

pub const OAM_SIZE: usize = 0xA0;

pub const VRAM_SIZE: usize = 0x2000;

pub const LCD_SIZE_X: u8 = 160;

pub const LCD_SIZE_Y: u8 = 144;

pub const SCREEN_SIZE: usize = 160 * 144;

/// Machine cycles per line.
pub const CYCLES_PER_LINE: u8 = 114;

/// Lines per frame, the ten blanking lines included.
pub const LINES_PER_FRAME: u8 = 154;

/// Machine cycles per frame.
pub const CYCLES_PER_FRAME: u32 = 114 * 154;

pub const LCDC: u16 = 0xFF40;

pub const STAT: u16 = 0xFF41;

pub const SCROLL_Y: u16 = 0xFF42;

pub const SCROLL_X: u16 = 0xFF43;

pub const LINE_Y: u16 = 0xFF44;

pub const LINE_Y_COMPARE: u16 = 0xFF45;

pub const OAM_DMA: u16 = 0xFF46;

pub const BG_PALETTE: u16 = 0xFF47;

pub const OBJ_PALETTE_0: u16 = 0xFF48;

pub const OBJ_PALETTE_1: u16 = 0xFF49;

pub const WINDOW_Y: u16 = 0xFF4A;

pub const WINDOW_X: u16 = 0xFF4B;

/// A request to start copying a page into sprite memory.
#[derive(Clone, Copy, Debug, PartialEq, Eq)]
pub enum DmaRequest {
    Idle,
    Start(u8),
}

/// A screen pixel as red, green, blue and alpha.
#[derive(Clone, Copy, Debug, PartialEq, Eq)]
pub struct Color(pub [u8; 4]);

impl Color {
    /// The screen colour of a shade.
    pub open spec fn of_shade(shade: palette::Color) -> [u8; 4] {
        match shade {
            palette::Color::White => [0xE0u8, 0xF8u8, 0xD0u8, 0xFFu8],
            palette::Color::LightGray => [0x88u8, 0xC0u8, 0x70u8, 0xFFu8],
            palette::Color::DarkGray => [0x34u8, 0x68u8, 0x56u8, 0xFFu8],
            palette::Color::Black => [0x08u8, 0x18u8, 0x20u8, 0xFFu8],
        }
    }

    pub fn from_shade(shade: palette::Color) -> (r: Self)
        ensures
            r.0 == Self::of_shade(shade),
    {
        match shade {
            palette::Color::White => Color([0xE0, 0xF8, 0xD0, 0xFF]),
            palette::Color::LightGray => Color([0x88, 0xC0, 0x70, 0xFF]),
            palette::Color::DarkGray => Color([0x34, 0x68, 0x56, 0xFF]),
            palette::Color::Black => Color([0x08, 0x18, 0x20, 0xFF]),
        }
    }

    pub fn rgba(&self) -> (r: [u8; 4])
        ensures
            r == self.0,
    {
        self.0
    }
}

/// The three palette registers.
#[derive(Clone, Copy, Debug, PartialEq, Eq)]
pub struct Palettes {
    pub bg: Palette,
    pub obj_0: Palette,
    pub obj_1: Palette,
}

/// The pixel unit.
#[derive(Clone, Debug, PartialEq, Eq)]
pub struct Ppu {
    pub screen: [Color; 23040],
    pub vram: [u8; 8192],
    pub oam: [u8; 160],
    pub bg_fifo: PixelFifo<BgPixel>,
    pub obj_fifo: PixelFifo<ObjPixel>,
    pub fetcher: Fetcher,
    pub visible_objs: VisibleObjs,
    pub dma: DmaRequest,
    pub dma_address: u8,
    pub oam_index: usize,
    pub lcdc: LcdControl,
    pub stat: LcdStatus,
    pub palettes: Palettes,
    pub scroll_y: u8,
    pub scroll_x: u8,
    pub to_discard_x: u8,
    pub x_pos: u8,
    pub line_y: u8,
    pub line_y_compare: u8,
    pub line_y_window: u8,
    pub window_triggered: bool,
    pub window_y: u8,
    pub window_x: u8,
    pub line_cycles_count: u8,
}

impl Ppu {
    /// What holds of the line clock at all times.
    pub open spec fn clock_wf(self) -> bool {
        self.line_y < LINES_PER_FRAME && self.line_cycles_count < CYCLES_PER_LINE
    }

    /// What holds of the pipeline between two dots.
    pub open spec fn pipeline_wf(self) -> bool {
        &&& self.bg_fifo.wf()
        &&& self.obj_fifo.wf()
        &&& self.fetcher.wf()
        &&& self.visible_objs.wf()
        &&& self.x_pos <= LCD_SIZE_X + 8
    }

    /// Whether two states agree on the line clock, the mode and the
    /// registers that the line clock reads.
    pub open spec fn same_clock(self, other: Ppu) -> bool {
        &&& self.line_y == other.line_y
        &&& self.line_cycles_count == other.line_cycles_count
        &&& self.stat == other.stat
        &&& self.lcdc == other.lcdc
        &&& self.line_y_compare == other.line_y_compare
        &&& self.oam_index == other.oam_index
        &&& self.scroll_x == other.scroll_x
        &&& self.dma == other.dma
    }

    /// Whether the coincidence flag of the status register shows the
    /// comparison of the line with the compared line as it stands.
    pub open spec fn coincidence_is_live(self) -> bool {
        self.stat.lyc_coincidence == (self.line_y == self.line_y_compare)
    }

    /// What holds between two machine cycles. While the display is on
    /// the coincidence flag is live; while it is off the flag keeps
    /// what it last showed.
    pub open spec fn wf(self) -> bool {
        &&& self.lcdc.lcd_enable ==> self.coincidence_is_live()
        &&& self.pipeline_wf()
        &&& self.x_pos < LCD_SIZE_X + 8
        &&& self.line_y < LINES_PER_FRAME
        &&& self.line_cycles_count < CYCLES_PER_LINE
        &&& (self.stat.mode is OamSearch || self.stat.mode is PixelTransfer) ==> self.line_y
            < LCD_SIZE_Y
        &&& self.stat.mode is OamSearch ==> self.oam_index == 8 * self.line_cycles_count
            && self.line_cycles_count < 20
    }

    /// How far into the frame the unit is, in machine cycles.
    pub open spec fn frame_position(self) -> int {
        self.line_y * CYCLES_PER_LINE + self.line_cycles_count
    }

    /// What the fetcher reads during the current dot.
    pub open spec fn fetch_input(self) -> FetchInput {
        FetchInput {
            visible_objs: self.visible_objs,
            lcdc: self.lcdc,
            x_pos: self.x_pos,
            line_y: self.line_y,
            scroll_x: self.scroll_x,
            scroll_y: self.scroll_y,
            vram: self.vram,
            window_triggered: self.window_triggered,
            line_y_window: self.line_y_window,
        }
    }

    /// The sprite in memory slot `slot`.
    pub open spec fn sprite(self, slot: int) -> Attributes {
        Attributes::decoded(
            self.oam[4 * slot],
            self.oam[4 * slot + 1],
            self.oam[4 * slot + 2],
            self.oam[4 * slot + 3],
        )
    }

    /// Whether a sprite shows on the current line: it is not parked at
    /// column zero and the line falls within its rows.
    pub open spec fn on_line(self, obj: Attributes) -> bool {
        obj.x != 0 && obj.y <= self.line_y + 16 < obj.y + self.lcdc.obj_size.rows()
    }

    /// The unit after the sprite at the search position was examined:
    /// it joins the line's sprites if it shows on the line and fewer
    /// than ten were found.
    #[verifier::opaque]
    pub open spec fn oam_searched(self) -> Ppu {
        let obj = self.sprite(self.oam_index as int / 4);
        Ppu {
            visible_objs: if self.visible_objs.count < MAX_VISIBLE_SPRITES && self.on_line(obj) {
                self.visible_objs.pushed(obj)
            } else {
                self.visible_objs
            },
            oam_index: (self.oam_index + 4) as usize,
            ..self
        }
    }

    /// Whether the window begins at the current dot.
    pub open spec fn window_starts(self) -> bool {
        &&& !self.window_triggered
        &&& self.lcdc.window_enable
        &&& self.x_pos >= self.window_x + 1
        &&& self.line_y >= self.window_y
    }

    /// The unit with the window begun: the background queue is emptied
    /// and the fetcher restarts on the window's map.
    #[verifier::opaque]
    pub open spec fn window_begun(self) -> Ppu {
        if self.window_starts() {
            Ppu {
                window_triggered: true,
                bg_fifo: self.bg_fifo.cleared(),
                fetcher: self.fetcher.window_started(),
                ..self
            }
        } else {
            self
        }
    }

    /// The unit after a pixel left the queues: the first pixels of a
    /// line are dropped for fine scrolling; later ones are mixed, shown
    /// once the column has passed the eight hidden ones, and move the
    /// column on.
    #[verifier::opaque]
    pub open spec fn pixel_out(self, bg_pixel: BgPixel) -> Ppu {
        let rest = Ppu { bg_fifo: self.bg_fifo.popped(), ..self };
        if self.to_discard_x > 0 {
            Ppu { to_discard_x: (self.to_discard_x - 1) as u8, ..rest }
        } else {
            let shade = mixed_color(bg_pixel, self.obj_fifo.front(), self.lcdc, self.palettes);
            Ppu {
                obj_fifo: self.obj_fifo.popped(),
                screen: if self.x_pos >= 8 {
                    vstd::array::spec_array_update(
                        self.screen,
                        (self.x_pos - 8) + self.line_y * LCD_SIZE_X,
                        Color(Color::of_shade(shade)),
                    )
                } else {
                    self.screen
                },
                x_pos: (self.x_pos + 1) as u8,
                ..rest
            }
        }
    }

    /// What one dot of the fetcher makes of it and the queues.
    pub open spec fn fetch_outcome(self) -> FetchOutcome {
        self.fetcher.stepped(self.bg_fifo, self.obj_fifo, self.fetch_input())
    }

    /// The unit after one dot of the fetcher.
    #[verifier::opaque]
    pub open spec fn fetched(self) -> Ppu {
        let outcome = self.fetch_outcome();
        Ppu {
            fetcher: outcome.fetcher,
            bg_fifo: outcome.bg_fifo,
            obj_fifo: outcome.obj_fifo,
            ..self
        }
    }

    /// The unit one dot of pixel transfer later: the window may begin,
    /// the fetcher runs, and unless a sprite is still to be fetched a
    /// pixel leaves the queues.
    pub open spec fn dotted(self) -> Ppu {
        let begun = self.window_begun();
        let fetched = begun.fetched();
        if begun.fetch_outcome().pending || fetched.bg_fifo.front() is None {
            fetched
        } else {
            fetched.pixel_out(fetched.bg_fifo.front()->0)
        }
    }

    /// The unit as the last pixel of a line leaves it: queues and
    /// sprite list are emptied and horizontal blanking begins. A line
    /// that showed the window moves the window's line counter on.
    #[verifier::opaque]
    pub open spec fn line_finished(self) -> Ppu {
        Ppu {
            bg_fifo: self.bg_fifo.cleared(),
            fetcher: self.fetcher.line_started(),
            visible_objs: self.visible_objs.cleared(),
            x_pos: 0,
            line_y_window: if self.window_triggered {
                if self.line_y_window == 255 { 0 } else { (self.line_y_window + 1) as u8 }
            } else {
                self.line_y_window
            },
            window_triggered: false,
            stat: LcdStatus { mode: Mode::HBlank, ..self.stat },
            ..self
        }
    }

    /// The unit after at most `dots` dots of pixel transfer, stopping
    /// with the dot that ends the line.
    pub open spec fn transferred(self, dots: nat) -> Ppu
        decreases dots,
    {
        if dots == 0 {
            self
        } else {
            let next = self.dotted();
            if next.x_pos == LCD_SIZE_X + 8 {
                next.line_finished()
            } else {
                next.transferred((dots - 1) as nat)
            }
        }
    }

    /// The unit after the work of the current mode for one machine
    /// cycle: two sprites searched, or four dots transferred.
    pub open spec fn mode_worked(self) -> Ppu {
        match self.stat.mode {
            Mode::OamSearch => {
                let searched = self.oam_searched().oam_searched();
                if searched.oam_index == OAM_SIZE {
                    Ppu {
                        oam_index: 0,
                        to_discard_x: self.scroll_x % 8,
                        stat: LcdStatus { mode: Mode::PixelTransfer, ..self.stat },
                        ..searched
                    }
                } else {
                    searched
                }
            },
            Mode::PixelTransfer => self.transferred(4),
            _ => self,
        }
    }

    /// Whether this machine cycle ends the line.
    pub open spec fn ends_line(self) -> bool {
        self.line_cycles_count + 1 == CYCLES_PER_LINE
    }

    /// The line after the current one.
    pub open spec fn next_line(self) -> u8 {
        if self.line_y + 1 == LINES_PER_FRAME {
            0
        } else {
            (self.line_y + 1) as u8
        }
    }

    /// The unit with the line clock moved on by one machine cycle. At
    /// the end of a line the line counter moves on, the coincidence
    /// flag is taken anew, a visible line begins with the sprite
    /// search and the first line below the screen begins blanking.
    #[verifier::opaque]
    pub open spec fn line_advanced(self) -> Ppu {
        if !self.ends_line() {
            Ppu { line_cycles_count: (self.line_cycles_count + 1) as u8, ..self }
        } else {
            let line = self.next_line();
            let stat = LcdStatus { lyc_coincidence: line == self.line_y_compare, ..self.stat };
            if line < LCD_SIZE_Y {
                Ppu {
                    line_cycles_count: 0,
                    line_y: line,
                    oam_index: 0,
                    stat: LcdStatus { mode: Mode::OamSearch, ..stat },
                    ..self
                }
            } else if line == LCD_SIZE_Y {
                Ppu {
                    line_cycles_count: 0,
                    line_y: line,
                    line_y_window: 0,
                    stat: LcdStatus { mode: Mode::VBlank, ..stat },
                    ..self
                }
            } else {
                Ppu { line_cycles_count: 0, line_y: line, stat, ..self }
            }
        }
    }

    /// The interrupts that the end of a machine cycle raises, for a
    /// unit whose mode has done its work.
    pub open spec fn line_interrupts(self) -> InterruptSet {
        let line = self.next_line();
        InterruptSet {
            vblank: self.ends_line() && line == LCD_SIZE_Y,
            lcd_stat: self.ends_line() && ((line == self.line_y_compare
                && self.stat.coincidence_interrupt_enabled) || (line < LCD_SIZE_Y
                && self.stat.oam_interrupt_enabled) || (line == LCD_SIZE_Y
                && self.stat.vblank_interrupt_enabled)),
            ..InterruptSet::empty()
        }
    }

    /// The unit one machine cycle later. With the display off the unit
    /// rests on line zero in the blanking mode. A pending request for a
    /// sprite memory copy is handed out either way.
    pub open spec fn ticked(self) -> Ppu {
        if !self.lcdc.lcd_enable {
            Ppu {
                line_y: 0,
                stat: LcdStatus { mode: Mode::VBlank, ..self.stat },
                dma: DmaRequest::Idle,
                ..self
            }
        } else {
            Ppu { dma: DmaRequest::Idle, ..self.mode_worked().line_advanced() }
        }
    }

    /// The interrupts that one machine cycle raises: the status
    /// interrupt on entering a mode or meeting the compared line while
    /// the matching enable is set, and the blanking interrupt on
    /// entering the first line below the screen.
    pub open spec fn tick_interrupts(self) -> InterruptSet {
        if !self.lcdc.lcd_enable {
            InterruptSet::empty()
        } else {
            let worked = self.mode_worked();
            InterruptSet {
                lcd_stat: self.stat.mode is PixelTransfer && worked.stat.mode is HBlank
                    && self.stat.hblank_interrupt_enabled,
                ..InterruptSet::empty()
            }.union(worked.line_interrupts())
        }
    }
}


impl Ppu {
    /// Whether the unit is as at power on, but for the control
    /// register and the background palette, which hold the bytes
    /// given: at the start of the sprite search of line zero, with
    /// empty queues, clear memories and registers, and a black screen.
    /// With the display on the status register shows that line zero
    /// is the compared line.
    pub open spec fn is_fresh(self, lcdc: u8, bg_palette: u8) -> bool {
        &&& self.lcdc == LcdControl::of_byte(lcdc)
        &&& self.palettes.bg == Palette::of_byte(bg_palette)
        &&& self.palettes.obj_0 == Palette::of_byte(0)
        &&& self.palettes.obj_1 == Palette::of_byte(0)
        &&& self.stat == (LcdStatus { lyc_coincidence: lcdc >= 128, ..LcdStatus::initial() })
        &&& self.dma is Idle
        &&& self.dma_address == 0
        &&& self.line_y == 0
        &&& self.line_cycles_count == 0
        &&& self.line_y_compare == 0
        &&& self.scroll_x == 0
        &&& self.scroll_y == 0
        &&& self.window_x == 0
        &&& self.window_y == 0
        &&& self.x_pos == 0
        &&& self.oam_index == 0
        &&& self.to_discard_x == 0
        &&& self.line_y_window == 0
        &&& !self.window_triggered
        &&& self.bg_fifo@.len() == 0
        &&& self.obj_fifo@.len() == 0
        &&& self.fetcher == Fetcher::initial()
        &&& self.visible_objs.count == 0
        &&& forall|i: int| 0 <= i < VRAM_SIZE ==> self.vram[i] == 0
        &&& forall|i: int| 0 <= i < OAM_SIZE ==> self.oam[i] == 0
        &&& forall|i: int|
            0 <= i < SCREEN_SIZE ==> self.screen[i].0 == Color::of_shade(palette::Color::Black)
    }

    /// The unit as the boot program finds it: display off, memories
    /// clear, the screen black.
    pub fn new() -> (r: Self)
        ensures
            r.wf(),
            r.is_fresh(0, 0),
    {
        Ppu {
            screen: [Color::from_shade(palette::Color::Black);23040],
            vram: [0u8;8192],
            oam: [0u8;160],
            bg_fifo: PixelFifo::new(),
            obj_fifo: PixelFifo::new(),
            fetcher: Fetcher::new(),
            visible_objs: VisibleObjs::new(),
            dma: DmaRequest::Idle,
            dma_address: 0,
            oam_index: 0,
            lcdc: LcdControl::new(),
            stat: LcdStatus::new(),
            palettes: Palettes { bg: Palette::new(), obj_0: Palette::new(), obj_1: Palette::new() },
            scroll_y: 0,
            scroll_x: 0,
            to_discard_x: 0,
            x_pos: 0,
            line_y: 0,
            line_y_compare: 0,
            line_y_window: 0,
            window_triggered: false,
            window_y: 0,
            window_x: 0,
            line_cycles_count: 0,
        }
    }

    /// The unit as the boot program leaves it: display on with the
    /// background shown, and the background palette set.
    pub fn new_post_bootrom() -> (r: Self)
        ensures
            r.wf(),
            r.is_fresh(0x91, 0xFC),
    {
        let mut ppu = Self::new();
        let mut lcdc = ppu.lcdc;
        lcdc.set_value(0x91);
        ppu.lcdc = lcdc;
        let mut bg = ppu.palettes.bg;
        bg.set_value(0xFC);
        ppu.palettes = Palettes { bg, obj_0: ppu.palettes.obj_0, obj_1: ppu.palettes.obj_1 };
        let mut stat = ppu.stat;
        stat.lyc_coincidence = ppu.line_y == ppu.line_y_compare;
        ppu.stat = stat;
        ppu
    }

    /// Examines the sprite at the search position.
    pub fn tick_oam_search(&mut self)
        requires
            old(self).visible_objs.wf(),
            old(self).oam_index + 4 <= OAM_SIZE,
            old(self).oam_index % 4 == 0,
        ensures
            *final(self) == old(self).oam_searched(),
            final(self).visible_objs.wf(),
    {
        reveal(Ppu::oam_searched);
        let at: usize = self.oam_index;
        let obj = Attributes::parse([self.oam[at], self.oam[at + 1], self.oam[at + 2], self.oam[at + 3]]);
        let line: u16 = self.line_y as u16 + 16;
        if self.visible_objs.len() < MAX_VISIBLE_SPRITES && obj.x != 0 && obj.y as u16 <= line && line
            < obj.y as u16 + self.lcdc.obj_size.height() as u16 {
            let mut found = self.visible_objs;
            found.push(obj);
            self.visible_objs = found;
        }
        self.oam_index = at + 4;
    }

    fn begin_window(&mut self)
        requires
            old(self).pipeline_wf(),
        ensures
            *final(self) == old(self).window_begun(),
            final(self).pipeline_wf(),
            final(self).same_clock(*old(self)),
            final(self).x_pos == old(self).x_pos,
    {
        reveal(Ppu::window_begun);
        if !self.window_triggered && self.lcdc.window_enable && self.x_pos as u16
            >= self.window_x as u16 + 1 && self.line_y >= self.window_y {
            self.window_triggered = true;
            let mut queue = self.bg_fifo;
            queue.clear();
            self.bg_fifo = queue;
            let mut fetcher = self.fetcher;
            fetcher.start_window();
            self.fetcher = fetcher;
        }
    }

    fn fetch(&mut self) -> (pending: bool)
        requires
            old(self).pipeline_wf(),
        ensures
            *final(self) == old(self).fetched(),
            pending == old(self).fetch_outcome().pending,
            final(self).pipeline_wf(),
            final(self).same_clock(*old(self)),
            final(self).x_pos == old(self).x_pos,
    {
        reveal(Ppu::fetched);
        let mut fetcher = self.fetcher;
        let mut bg = self.bg_fifo;
        let mut obj = self.obj_fifo;
        let pending = fetcher.tick(
            &mut bg,
            &mut obj,
            &self.visible_objs,
            &self.lcdc,
            self.x_pos,
            self.line_y,
            self.scroll_x,
            self.scroll_y,
            &self.vram,
            self.window_triggered,
            self.line_y_window,
        );
        self.fetcher = fetcher;
        self.bg_fifo = bg;
        self.obj_fifo = obj;
        pending
    }

    fn put_pixel(&mut self, bg_pixel: BgPixel)
        requires
            old(self).pipeline_wf(),
            old(self).x_pos < LCD_SIZE_X + 8,
            old(self).line_y < LCD_SIZE_Y,
        ensures
            *final(self) == old(self).pixel_out(bg_pixel),
            final(self).pipeline_wf(),
            final(self).same_clock(*old(self)),
    {
        reveal(Ppu::pixel_out);
        let mut bg = self.bg_fifo;
        let _ = bg.pop();
        self.bg_fifo = bg;
        if self.to_discard_x > 0 {
            self.to_discard_x -= 1;
        } else {
            let mut obj = self.obj_fifo;
            let shade = mix_pixels(bg_pixel, obj.pop(), &self.lcdc, &self.palettes);
            self.obj_fifo = obj;
            if self.x_pos >= 8 {
                let at: usize = (self.x_pos - 8) as usize + self.line_y as usize * LCD_SIZE_X as usize;
                self.screen[at] = Color::from_shade(shade);
            }
            self.x_pos += 1;
        }
    }

    /// Runs the pixel pipeline for one dot.
    pub fn tick_pixel_transfer(&mut self)
        requires
            old(self).pipeline_wf(),
            old(self).x_pos < LCD_SIZE_X + 8,
            old(self).line_y < LCD_SIZE_Y,
        ensures
            *final(self) == old(self).dotted(),
            final(self).pipeline_wf(),
            final(self).same_clock(*old(self)),
    {
        self.begin_window();
        let pending = self.fetch();
        if !pending {
            if self.bg_fifo.size > 0 {
                let bg_pixel = self.bg_fifo.fifo[self.bg_fifo.start];
                self.put_pixel(bg_pixel);
            }
        }
    }

    fn finish_line(&mut self)
        requires
            old(self).pipeline_wf(),
        ensures
            *final(self) == old(self).line_finished(),
            final(self).pipeline_wf(),
            final(self).x_pos == 0,
            final(self).stat == (LcdStatus { mode: Mode::HBlank, ..old(self).stat }),
            final(self).line_y == old(self).line_y,
            final(self).line_cycles_count == old(self).line_cycles_count,
            final(self).lcdc == old(self).lcdc,
            final(self).line_y_compare == old(self).line_y_compare,
            final(self).oam_index == old(self).oam_index,
            final(self).dma == old(self).dma,
    {
        reveal(Ppu::line_finished);
        let mut queue = self.bg_fifo;
        queue.clear();
        self.bg_fifo = queue;
        let mut fetcher = self.fetcher;
        fetcher.start_line();
        self.fetcher = fetcher;
        let mut found = self.visible_objs;
        found.clear();
        self.visible_objs = found;
        self.x_pos = 0;
        if self.window_triggered {
            self.line_y_window = self.line_y_window.wrapping_add(1);
        }
        self.window_triggered = false;
        let mut stat = self.stat;
        stat.mode = Mode::HBlank;
        self.stat = stat;
    }

    fn transfer(&mut self, dots: u8) -> (finished: bool)
        requires
            old(self).pipeline_wf(),
            old(self).x_pos < LCD_SIZE_X + 8,
            old(self).line_y < LCD_SIZE_Y,
            old(self).stat.mode is PixelTransfer,
        ensures
            *final(self) == old(self).transferred(dots as nat),
            final(self).pipeline_wf(),
            final(self).x_pos < LCD_SIZE_X + 8,
            finished == (final(self).stat.mode is HBlank),
            final(self).stat == (LcdStatus {
                mode: if finished { Mode::HBlank } else { Mode::PixelTransfer },
                ..old(self).stat
            }),
            final(self).line_y == old(self).line_y,
            final(self).line_cycles_count == old(self).line_cycles_count,
            final(self).lcdc == old(self).lcdc,
            final(self).line_y_compare == old(self).line_y_compare,
            final(self).oam_index == old(self).oam_index,
            final(self).dma == old(self).dma,
        decreases dots,
    {
        if dots == 0 {
            return false;
        }
        self.tick_pixel_transfer();
        if self.x_pos == LCD_SIZE_X + 8 {
            self.finish_line();
            true
        } else {
            self.transfer(dots - 1)
        }
    }

    fn work_mode(&mut self) -> (entered_hblank: bool)
        requires
            old(self).wf(),
        ensures
            *final(self) == old(self).mode_worked(),
            entered_hblank == (old(self).stat.mode is PixelTransfer && final(self).stat.mode is HBlank),
            final(self).pipeline_wf(),
            final(self).x_pos < LCD_SIZE_X + 8,
            final(self).line_y == old(self).line_y,
            final(self).line_cycles_count == old(self).line_cycles_count,
            final(self).lcdc == old(self).lcdc,
            final(self).line_y_compare == old(self).line_y_compare,
            final(self).dma == old(self).dma,
            final(self).stat == (LcdStatus { mode: final(self).stat.mode, ..old(self).stat }),
            final(self).stat.mode is OamSearch ==> final(self).oam_index == 8 * (
            final(self).line_cycles_count + 1) && final(self).line_cycles_count + 1 < 20,
            (final(self).stat.mode is OamSearch || final(self).stat.mode is PixelTransfer)
                ==> final(self).line_y < LCD_SIZE_Y,
    {
        match self.stat.mode {
            Mode::OamSearch => {
                proof {
                    reveal(Ppu::oam_searched);
                }
                self.tick_oam_search();
                self.tick_oam_search();
                if self.oam_index == OAM_SIZE {
                    self.oam_index = 0;
                    self.to_discard_x = self.scroll_x % 8;
                    let mut stat = self.stat;
                    stat.mode = Mode::PixelTransfer;
                    self.stat = stat;
                }
                false
            },
            Mode::PixelTransfer => self.transfer(4),
            _ => false,
        }
    }

    fn advance_line(&mut self) -> (raised: InterruptSet)
        requires
            old(self).clock_wf(),
        ensures
            *final(self) == old(self).line_advanced(),
            raised == old(self).line_interrupts(),
            final(self).clock_wf(),
    {
        reveal(Ppu::line_advanced);
        let mut raised = InterruptSet::new();
        if self.line_cycles_count + 1 < CYCLES_PER_LINE {
            self.line_cycles_count += 1;
            return raised;
        }
        let line: u8 = if self.line_y + 1 == LINES_PER_FRAME { 0 } else { self.line_y + 1 };
        self.line_cycles_count = 0;
        self.line_y = line;
        let mut stat = self.stat;
        stat.lyc_coincidence = line == self.line_y_compare;
        if stat.lyc_coincidence && stat.coincidence_interrupt_enabled() {
            raised.lcd_stat = true;
        }
        if line < LCD_SIZE_Y {
            self.oam_index = 0;
            stat.mode = Mode::OamSearch;
            if stat.oam_interrupt_enabled() {
                raised.lcd_stat = true;
            }
        } else if line == LCD_SIZE_Y {
            self.line_y_window = 0;
            stat.mode = Mode::VBlank;
            raised.vblank = true;
            if stat.vblank_interrupt_enabled() {
                raised.lcd_stat = true;
            }
        }
        self.stat = stat;
        raised
    }

    /// Advances the unit by one machine cycle. Returns the interrupts
    /// raised and the request for a sprite memory copy, if one was made
    /// since the last call.
    pub fn tick(&mut self) -> (r: (InterruptSet, DmaRequest))
        requires
            old(self).wf(),
        ensures
            *final(self) == old(self).ticked(),
            r.0 == old(self).tick_interrupts(),
            r.1 == old(self).dma,
            final(self).wf(),
    {
        let request = self.dma;
        if !self.lcdc.lcd_enable {
            self.line_y = 0;
            let mut stat = self.stat;
            stat.mode = Mode::VBlank;
            self.stat = stat;
            self.dma = DmaRequest::Idle;
            return (InterruptSet::new(), request);
        }
        let mut raised = InterruptSet::new();
        if self.work_mode() && self.stat.hblank_interrupt_enabled() {
            raised.lcd_stat = true;
        }
        let ended = self.advance_line();
        proof {
            reveal(Ppu::line_advanced);
        }
        self.dma = DmaRequest::Idle;
        (raised.or(&ended), request)
    }

    /// The picture: 144 rows of 160 pixels, top row first.
    pub fn screen(&self) -> (r: &[Color; 23040])
        ensures
            *r == self.screen,
    {
        &self.screen
    }
}


impl Ppu {
    /// Whether the processor can reach video memory: not while pixels
    /// are transferred.
    pub open spec fn vram_open(self) -> bool {
        !(self.stat.mode is PixelTransfer)
    }

    /// Whether the processor can reach sprite memory: only while the
    /// unit is blanking.
    pub open spec fn oam_open(self) -> bool {
        self.stat.mode is HBlank || self.stat.mode is VBlank
    }

    /// What the processor reads at offset `address` of video memory.
    pub open spec fn vram_value(self, address: u16) -> u8 {
        if address < VRAM_SIZE && self.vram_open() {
            self.vram[address as int]
        } else {
            0xFF
        }
    }

    /// The unit after the processor wrote to video memory.
    pub open spec fn with_vram(self, address: u16, value: u8) -> Ppu {
        if address < VRAM_SIZE && self.vram_open() {
            Ppu { vram: vstd::array::spec_array_update(self.vram, address as int, value), ..self }
        } else {
            self
        }
    }

    /// What the processor reads at offset `address` of sprite memory.
    pub open spec fn oam_value(self, address: u16) -> u8 {
        if address < OAM_SIZE && self.oam_open() {
            self.oam[address as int]
        } else {
            0xFF
        }
    }

    /// The unit after the processor wrote to sprite memory.
    pub open spec fn with_oam(self, address: u16, value: u8) -> Ppu {
        if address < OAM_SIZE && self.oam_open() {
            Ppu { oam: vstd::array::spec_array_update(self.oam, address as int, value), ..self }
        } else {
            self
        }
    }

    /// The unit after the copier stored a byte in sprite memory, which
    /// it can in every mode.
    pub open spec fn with_oam_copied(self, address: u16, value: u8) -> Ppu {
        if address < OAM_SIZE {
            Ppu { oam: vstd::array::spec_array_update(self.oam, address as int, value), ..self }
        } else {
            self
        }
    }

    pub fn read_vram(&self, address: u16) -> (r: u8)
        ensures
            r == self.vram_value(address),
    {
        if (address as usize) < VRAM_SIZE && !matches!(self.stat.mode, Mode::PixelTransfer) {
            self.vram[address as usize]
        } else {
            0xFF
        }
    }

    pub fn write_vram(&mut self, address: u16, value: u8)
        ensures
            *final(self) == old(self).with_vram(address, value),
            old(self).wf() ==> final(self).wf(),
    {
        if (address as usize) < VRAM_SIZE && !matches!(self.stat.mode, Mode::PixelTransfer) {
            self.vram[address as usize] = value;
        }
    }

    pub fn read_oam(&self, address: u16) -> (r: u8)
        ensures
            r == self.oam_value(address),
    {
        if (address as usize) < OAM_SIZE && matches!(self.stat.mode, Mode::HBlank | Mode::VBlank) {
            self.oam[address as usize]
        } else {
            0xFF
        }
    }

    pub fn write_oam(&mut self, address: u16, value: u8)
        ensures
            *final(self) == old(self).with_oam(address, value),
            old(self).wf() ==> final(self).wf(),
    {
        if (address as usize) < OAM_SIZE && matches!(self.stat.mode, Mode::HBlank | Mode::VBlank) {
            self.oam[address as usize] = value;
        }
    }

    /// Stores a byte of a sprite memory copy.
    pub fn copy_to_oam(&mut self, address: u16, value: u8)
        ensures
            *final(self) == old(self).with_oam_copied(address, value),
            old(self).wf() ==> final(self).wf(),
    {
        if (address as usize) < OAM_SIZE {
            self.oam[address as usize] = value;
        }
    }

    /// What a read of the register at `address` returns; addresses
    /// without a register read as all ones.
    #[verifier::opaque]
    pub open spec fn register_value(self, address: u16) -> int {
        if address == LCDC {
            self.lcdc.byte()
        } else if address == STAT {
            self.stat.byte()
        } else if address == SCROLL_Y {
            self.scroll_y as int
        } else if address == SCROLL_X {
            self.scroll_x as int
        } else if address == LINE_Y {
            self.line_y as int
        } else if address == LINE_Y_COMPARE {
            self.line_y_compare as int
        } else if address == OAM_DMA {
            self.dma_address as int
        } else if address == BG_PALETTE {
            self.palettes.bg.byte()
        } else if address == OBJ_PALETTE_0 {
            self.palettes.obj_0.byte()
        } else if address == OBJ_PALETTE_1 {
            self.palettes.obj_1.byte()
        } else if address == WINDOW_Y {
            self.window_y as int
        } else if address == WINDOW_X {
            self.window_x as int
        } else {
            0xFF
        }
    }

    /// While the display is on, bit 2 of the status register is the
    /// live comparison of the line with the compared line; bits 6 to 3
    /// are the enables as last written, bits 1 and 0 the mode, and bit
    /// 7 reads as one.
    pub proof fn lemma_status_register(self)
        requires
            self.wf(),
        ensures
            self.register_value(STAT) == 128 + (if self.stat.coincidence_interrupt_enabled {
                64int
            } else {
                0
            }) + (if self.stat.oam_interrupt_enabled { 32int } else { 0 }) + (
            if self.stat.vblank_interrupt_enabled { 16int } else { 0 }) + (
            if self.stat.hblank_interrupt_enabled { 8int } else { 0 }) + (
            if self.stat.lyc_coincidence { 4int } else { 0 }) + self.stat.mode.number(),
            self.lcdc.lcd_enable ==> ((self.register_value(STAT) / 4) % 2 == 1) == (
            self.register_value(LINE_Y) == self.register_value(LINE_Y_COMPARE)),
    {
        reveal(Ppu::register_value);
    }

    pub fn read_registers(&self, address: u16) -> (r: u8)
        ensures
            r as int == self.register_value(address),
            address == STAT ==> r as int == self.stat.byte(),
            address == STAT && self.wf() && self.lcdc.lcd_enable ==> ((r / 4) % 2 == 1) == (
            self.line_y == self.line_y_compare),
    {
        reveal(Ppu::register_value);
        match address {
            LCDC => self.lcdc.value(),
            STAT => self.stat.value(),
            SCROLL_Y => self.scroll_y,
            SCROLL_X => self.scroll_x,
            LINE_Y => self.line_y,
            LINE_Y_COMPARE => self.line_y_compare,
            OAM_DMA => self.dma_address,
            BG_PALETTE => self.palettes.bg.value(),
            OBJ_PALETTE_0 => self.palettes.obj_0.value(),
            OBJ_PALETTE_1 => self.palettes.obj_1.value(),
            WINDOW_Y => self.window_y,
            WINDOW_X => self.window_x,
            _ => 0xFF,
        }
    }

    /// The unit as switching the display on leaves it: at the start of
    /// the sprite search of line zero with an empty pipeline, and with
    /// the coincidence flag taken anew for line zero.
    #[verifier::opaque]
    pub open spec fn restarted(self) -> Ppu {
        Ppu {
            stat: LcdStatus {
                mode: Mode::OamSearch,
                lyc_coincidence: self.line_y_compare == 0,
                ..self.stat
            },
            line_y: 0,
            line_cycles_count: 0,
            oam_index: 0,
            x_pos: 0,
            line_y_window: 0,
            window_triggered: false,
            bg_fifo: self.bg_fifo.cleared(),
            fetcher: self.fetcher.line_started(),
            visible_objs: self.visible_objs.cleared(),
            ..self
        }
    }

    /// The palettes after a write to `address`.
    pub open spec fn palettes_after_write(self, address: u16, value: u8) -> Palettes {
        if address == BG_PALETTE {
            Palettes { bg: Palette::of_byte(value), ..self.palettes }
        } else if address == OBJ_PALETTE_0 {
            Palettes { obj_0: Palette::of_byte(value), ..self.palettes }
        } else if address == OBJ_PALETTE_1 {
            Palettes { obj_1: Palette::of_byte(value), ..self.palettes }
        } else {
            self.palettes
        }
    }

    /// The unit after a write to the control register: switching the
    /// display on restarts the frame.
    #[verifier::opaque]
    pub open spec fn with_lcdc(self, value: u8) -> Ppu {
        let set = Ppu { lcdc: LcdControl::of_byte(value), ..self };
        if !self.lcdc.lcd_enable && value >= 128 {
            set.restarted()
        } else {
            set
        }
    }

    /// The unit after a write to the compared line: while the display
    /// is on, the coincidence flag is taken anew at once.
    #[verifier::opaque]
    pub open spec fn with_line_y_compare(self, value: u8) -> Ppu {
        Ppu {
            line_y_compare: value,
            stat: LcdStatus {
                lyc_coincidence: if self.lcdc.lcd_enable {
                    self.line_y == value
                } else {
                    self.stat.lyc_coincidence
                },
                ..self.stat
            },
            ..self
        }
    }

    /// The unit after a write to a register. The line counter is
    /// read-only and a write to the copy register files a request.
    #[verifier::opaque]
    pub open spec fn after_register_write(self, address: u16, value: u8) -> Ppu {
        if address == LCDC {
            self.with_lcdc(value)
        } else if address == STAT {
            Ppu { stat: self.stat.with_byte(value), ..self }
        } else if address == SCROLL_Y {
            Ppu { scroll_y: value, ..self }
        } else if address == SCROLL_X {
            Ppu { scroll_x: value, ..self }
        } else if address == LINE_Y {
            self
        } else if address == LINE_Y_COMPARE {
            self.with_line_y_compare(value)
        } else if address == OAM_DMA {
            Ppu { dma: DmaRequest::Start(value), dma_address: value, ..self }
        } else if address == WINDOW_Y {
            Ppu { window_y: value, ..self }
        } else if address == WINDOW_X {
            Ppu { window_x: value, ..self }
        } else {
            Ppu { palettes: self.palettes_after_write(address, value), ..self }
        }
    }

    fn restart(&mut self)
        requires
            old(self).pipeline_wf(),
        ensures
            *final(self) == old(self).restarted(),
            final(self).wf(),
    {
        reveal(Ppu::restarted);
        let mut stat = self.stat;
        stat.mode = Mode::OamSearch;
        stat.lyc_coincidence = self.line_y_compare == 0;
        self.stat = stat;
        self.line_y = 0;
        self.line_cycles_count = 0;
        self.oam_index = 0;
        self.x_pos = 0;
        self.line_y_window = 0;
        self.window_triggered = false;
        let mut queue = self.bg_fifo;
        queue.clear();
        self.bg_fifo = queue;
        let mut fetcher = self.fetcher;
        fetcher.start_line();
        self.fetcher = fetcher;
        let mut found = self.visible_objs;
        found.clear();
        self.visible_objs = found;
    }

    fn write_palette(&mut self, address: u16, value: u8)
        ensures
            *final(self) == (Ppu {
                palettes: old(self).palettes_after_write(address, value),
                ..*old(self)
            }),
            old(self).wf() ==> final(self).wf(),
    {
        let mut palettes = self.palettes;
        if address == BG_PALETTE {
            let mut p = palettes.bg;
            p.set_value(value);
            palettes.bg = p;
        } else if address == OBJ_PALETTE_0 {
            let mut p = palettes.obj_0;
            p.set_value(value);
            palettes.obj_0 = p;
        } else if address == OBJ_PALETTE_1 {
            let mut p = palettes.obj_1;
            p.set_value(value);
            palettes.obj_1 = p;
        }
        self.palettes = palettes;
    }

    fn write_line_y_compare(&mut self, value: u8)
        requires
            old(self).wf(),
        ensures
            *final(self) == old(self).with_line_y_compare(value),
            final(self).wf(),
    {
        reveal(Ppu::with_line_y_compare);
        self.line_y_compare = value;
        if self.lcdc.lcd_enable {
            let mut stat = self.stat;
            stat.lyc_coincidence = self.line_y == value;
            self.stat = stat;
        }
    }

    fn write_lcdc(&mut self, value: u8)
        requires
            old(self).wf(),
        ensures
            *final(self) == old(self).with_lcdc(value),
            final(self).wf(),
    {
        reveal(Ppu::with_lcdc);
        let was_on = self.lcdc.lcd_enable;
        let mut lcdc = self.lcdc;
        lcdc.set_value(value);
        self.lcdc = lcdc;
        if !was_on && lcdc.lcd_enable {
            self.restart();
        }
    }

    fn write_scroll_or_window(&mut self, address: u16, value: u8)
        requires
            old(self).wf(),
            address == STAT || address == SCROLL_Y || address == SCROLL_X || address == OAM_DMA
                || address == WINDOW_Y || address == WINDOW_X,
        ensures
            *final(self) == old(self).after_register_write(address, value),
            final(self).wf(),
    {
        reveal(Ppu::after_register_write);
        if address == STAT {
            let mut stat = self.stat;
            stat.set_value(value);
            self.stat = stat;
        } else if address == SCROLL_Y {
            self.scroll_y = value;
        } else if address == SCROLL_X {
            self.scroll_x = value;
        } else if address == OAM_DMA {
            self.dma = DmaRequest::Start(value);
            self.dma_address = value;
        } else if address == WINDOW_Y {
            self.window_y = value;
        } else {
            self.window_x = value;
        }
    }

    /// Writes `value` to the register at `address`; addresses without
    /// a register take nothing.
    pub fn write_registers(&mut self, address: u16, value: u8)
        requires
            old(self).wf(),
        ensures
            *final(self) == old(self).after_register_write(address, value),
            final(self).wf(),
    {
        reveal(Ppu::after_register_write);
        if address == LCDC {
            self.write_lcdc(value);
        } else if address == LINE_Y_COMPARE {
            self.write_line_y_compare(value);
        } else if address == STAT || address == SCROLL_Y || address == SCROLL_X || address == OAM_DMA
            || address == WINDOW_Y || address == WINDOW_X {
            self.write_scroll_or_window(address, value);
        } else if address != LINE_Y {
            self.write_palette(address, value);
        }
    }

    /// The unit `count` machine cycles later.
    pub open spec fn ticks(self, count: nat) -> Ppu
        decreases count,
    {
        if count == 0 {
            self
        } else {
            self.ticked().ticks((count - 1) as nat)
        }
    }

    proof fn lemma_transferred_keeps_clock(self, dots: nat)
        ensures
            self.transferred(dots).line_y == self.line_y,
            self.transferred(dots).line_cycles_count == self.line_cycles_count,
            self.transferred(dots).lcdc == self.lcdc,
            self.transferred(dots).oam == self.oam,
            self.transferred(dots).vram == self.vram,
        decreases dots,
    {
        reveal(Ppu::window_begun);
        reveal(Ppu::fetched);
        reveal(Ppu::pixel_out);
        reveal(Ppu::line_finished);
        if dots > 0 {
            let next = self.dotted();
            if next.x_pos != LCD_SIZE_X + 8 {
                next.lemma_transferred_keeps_clock((dots - 1) as nat);
            }
        }
    }

    /// With the display on, a machine cycle moves the position in the
    /// frame on by one, wrapping at the frame's length, and leaves the
    /// display on.
    pub proof fn lemma_tick_advances_frame(self)
        requires
            self.clock_wf(),
            self.lcdc.lcd_enable,
        ensures
            self.ticked().clock_wf(),
            self.ticked().lcdc.lcd_enable,
            self.ticked().frame_position() == (self.frame_position() + 1) % (CYCLES_PER_FRAME as int),
    {
        reveal(Ppu::oam_searched);
        reveal(Ppu::line_advanced);
        self.lemma_transferred_keeps_clock(4);
    }

    /// A machine cycle of the unit changes neither video memory nor
    /// sprite memory, and takes up the request for a copy.
    pub proof fn lemma_tick_keeps_memory(self)
        ensures
            self.ticked().oam == self.oam,
            self.ticked().vram == self.vram,
            self.ticked().dma is Idle,
    {
        reveal(Ppu::oam_searched);
        reveal(Ppu::line_advanced);
        self.lemma_transferred_keeps_clock(4);
    }

    /// A frame takes 17,556 machine cycles, which is 70,224 master
    /// cycles: with the display on, `count` machine cycles move the
    /// position in the frame on by `count` modulo that length, so the
    /// unit is back on its line and cycle after exactly one frame and
    /// not before.
    pub proof fn lemma_frame_length(self, count: nat)
        requires
            self.clock_wf(),
            self.lcdc.lcd_enable,
        ensures
            self.ticks(count).clock_wf(),
            self.ticks(count).lcdc.lcd_enable,
            self.ticks(count).frame_position() == (self.frame_position() + count) % (
            CYCLES_PER_FRAME as int),
            count == CYCLES_PER_FRAME ==> self.ticks(count).line_y == self.line_y && self.ticks(
                count,
            ).line_cycles_count == self.line_cycles_count,
            0 < count < CYCLES_PER_FRAME ==> self.ticks(count).frame_position()
                != self.frame_position(),
        decreases count,
    {
        if count > 0 {
            self.lemma_tick_advances_frame();
            self.ticked().lemma_frame_length((count - 1) as nat);
        }
    }
}


impl Ppu {
    /// Whether the unit is well formed, for a state that comes from
    /// outside.
    pub fn is_wf(&self) -> (r: bool)
        ensures
            r == self.wf(),
    {
        let pipeline = self.bg_fifo.start < 8 && self.bg_fifo.size <= 8 && self.obj_fifo.start < 8
            && self.obj_fifo.size <= 8 && self.fetcher.action.is_wf() && self.fetcher.tile_map_index
            < 32 && self.visible_objs.count <= MAX_VISIBLE_SPRITES && self.x_pos < LCD_SIZE_X + 8;
        let clock = self.line_y < LINES_PER_FRAME && self.line_cycles_count < CYCLES_PER_LINE;
        let flag = !self.lcdc.lcd_enable || self.stat.lyc_coincidence == (self.line_y
            == self.line_y_compare);
        let drawing = match self.stat.mode {
            Mode::OamSearch => self.line_y < LCD_SIZE_Y && self.line_cycles_count < 20
                && self.oam_index == 8 * self.line_cycles_count as usize,
            Mode::PixelTransfer => self.line_y < LCD_SIZE_Y,
            _ => true,
        };
        pipeline && clock && flag && drawing
    }
}


impl Ppu {
    /// The sprites in the first `count` memory slots.
    pub open spec fn sprites(self, count: int) -> Seq<Attributes> {
        Seq::new(count as nat, |slot: int| self.sprite(slot))
    }

    /// The first ten of a list of sprites.
    pub open spec fn first_ten(list: Seq<Attributes>) -> Seq<Attributes> {
        if list.len() > MAX_VISIBLE_SPRITES {
            list.take(MAX_VISIBLE_SPRITES as int)
        } else {
            list
        }
    }

    /// The unit after `count` sprites were examined.
    pub open spec fn searched(self, count: nat) -> Ppu
        decreases count,
    {
        if count == 0 {
            self
        } else {
            self.searched((count - 1) as nat).oam_searched()
        }
    }

    /// The sprite search keeps the first ten sprites that show on the
    /// line, in the order of their memory slots: from an empty list,
    /// after `count` slots were examined the list holds the first ten
    /// of those among them that show on the line.
    pub proof fn lemma_search_finds_first_ten(self, count: nat)
        requires
            self.oam_index == 0,
            self.visible_objs.count == 0,
            count <= 40,
        ensures
            self.searched(count).oam_index == 4 * count,
            self.searched(count).oam == self.oam,
            self.searched(count).line_y == self.line_y,
            self.searched(count).lcdc == self.lcdc,
            self.searched(count).visible_objs.count <= MAX_VISIBLE_SPRITES,
            self.searched(count).visible_objs.found() == Self::first_ten(
                self.sprites(count as int).filter(|obj: Attributes| self.on_line(obj)),
            ),
        decreases count,
    {
        reveal(Ppu::oam_searched);
        let shows = |obj: Attributes| self.on_line(obj);
        if count == 0 {
            assert(self.sprites(0) =~= Seq::<Attributes>::empty());
            assert(Seq::<Attributes>::empty().filter(shows) =~= Seq::<Attributes>::empty()) by {
                reveal(Seq::filter);
            }
            assert(self.visible_objs.found() =~= Seq::<Attributes>::empty());
        } else {
            let n = (count - 1) as nat;
            self.lemma_search_finds_first_ten(n);
            let before = self.searched(n);
            let after = self.searched(count);
            let obj = self.sprite(n as int);
            assert(before.sprite(before.oam_index as int / 4) == obj);
            assert(before.on_line(obj) == shows(obj));
            let all = self.sprites(n as int);
            assert(self.sprites(count as int) =~= all.push(obj));
            all.lemma_filter_push(obj, shows);
            let kept = all.filter(shows);
            assert(before.visible_objs.found().len() == before.visible_objs.count);
            if shows(obj) {
                if before.visible_objs.count < MAX_VISIBLE_SPRITES {
                    assert(kept.len() == before.visible_objs.count);
                    assert(after.visible_objs.found() =~= before.visible_objs.found().push(obj));
                } else {
                    assert(kept.push(obj).take(MAX_VISIBLE_SPRITES as int) =~= kept.take(
                        MAX_VISIBLE_SPRITES as int,
                    ));
                    assert(kept.len() == 10 ==> kept.take(MAX_VISIBLE_SPRITES as int) =~= kept);
                }
            }
        }
    }
}

} // verus!
