//! The pixel pipeline: the two pixel queues, the fetcher that fills
//! them from video memory, and the mixer that picks the shade shown.

use super::lcd_control::{LcdControl, SpriteSize, TileDataAddressing, TileMapRange};
use super::obj::{Attributes, Palette as ObjPalette, Priority, VisibleObjs};
use super::palette::Color;
use super::Palettes;
use vstd::prelude::*;

verus! {

/// Capacity of a pixel queue.
pub const FIFO_SIZE: usize = 8;

/// Tiles per row of a tile map.
pub const TILE_MAP_WIDTH: u16 = 32;

/// Size of video memory.
pub const VRAM_SIZE: usize = 0x2000;

/// The array whose elements are those of `s`, for `s` of length eight.
pub open spec fn array8<T>(s: Seq<T>) -> [T; 8] {
    choose|a: [T; 8]| a@ == s
}

/// An array is the array of its elements.
pub proof fn lemma_array8<T>(a: [T; 8])
    ensures
        array8(a@) == a,
{
    let c = array8(a@);
    assert(c@ == a@);
    assert(c =~= a);
}

/// A background or window pixel: a colour index.
#[derive(Clone, Copy, Debug, PartialEq, Eq)]
pub struct BgPixel {
    pub index: u8,
}

impl Default for BgPixel {
    fn default() -> (r: Self)
        ensures
            r == (BgPixel { index: 0 }),
    {
        BgPixel { index: 0 }
    }
}

/// A sprite pixel: a colour index with the sprite's palette and
/// priority. Index zero is transparent.
#[derive(Clone, Copy, Debug, PartialEq, Eq)]
pub struct ObjPixel {
    pub index: u8,
    pub palette: ObjPalette,
    pub priority: Priority,
}

impl ObjPixel {
    pub open spec fn transparent() -> Self {
        ObjPixel { index: 0, palette: ObjPalette::ObjP0, priority: Priority::BehindNonZeroBg }
    }
}

impl Default for ObjPixel {
    fn default() -> (r: Self)
        ensures
            r == ObjPixel::transparent(),
    {
        ObjPixel { index: 0, palette: ObjPalette::ObjP0, priority: Priority::BehindNonZeroBg }
    }
}

/// The shade of one screen pixel. A sprite pixel is shown through its
/// palette if sprites are on, it is not transparent, and it has
/// priority or the background index is zero. Otherwise the background
/// is shown through its palette, or white where the background is off.
pub open spec fn mixed_color(
    bg_pixel: BgPixel,
    obj_pixel: Option<ObjPixel>,
    lcdc: LcdControl,
    palettes: Palettes,
) -> Color {
    if obj_pixel is Some && lcdc.obj_enable && obj_pixel->0.index != 0 && (
    obj_pixel->0.priority is AboveBg || bg_pixel.index == 0) {
        match obj_pixel->0.palette {
            ObjPalette::ObjP0 => palettes.obj_0.shade(obj_pixel->0.index),
            ObjPalette::ObjP1 => palettes.obj_1.shade(obj_pixel->0.index),
        }
    } else if lcdc.bg_window_enable {
        palettes.bg.shade(bg_pixel.index)
    } else {
        Color::White
    }
}

pub fn mix_pixels(
    bg_pixel: BgPixel,
    obj_pixel: Option<ObjPixel>,
    lcdc: &LcdControl,
    palettes: &Palettes,
) -> (r: Color)
    ensures
        r == mixed_color(bg_pixel, obj_pixel, *lcdc, *palettes),
{
    if let Some(o) = obj_pixel {
        if lcdc.obj_enable && o.index != 0 && (matches!(o.priority, Priority::AboveBg)
            || bg_pixel.index == 0) {
            return match o.palette {
                ObjPalette::ObjP0 => palettes.obj_0.color(o.index),
                ObjPalette::ObjP1 => palettes.obj_1.color(o.index),
            };
        }
    }
    if lcdc.bg_window_enable {
        palettes.bg.color(bg_pixel.index)
    } else {
        Color::White
    }
}

/// A queue of at most eight pixels in a ring of eight slots.
#[derive(Clone, Copy, Debug, PartialEq, Eq)]
pub struct PixelFifo<T> {
    pub fifo: [T; 8],
    pub start: usize,
    pub size: usize,
}

impl<T> View for PixelFifo<T> {
    type V = Seq<T>;

    /// The queued pixels, oldest first.
    open spec fn view(&self) -> Seq<T> {
        Seq::new(self.size as nat, |i: int| self.fifo[(self.start + i) % 8])
    }
}

impl<T> PixelFifo<T> {
    pub open spec fn wf(self) -> bool {
        self.start < FIFO_SIZE && self.size <= FIFO_SIZE
    }

    /// The queue without its oldest pixel.
    pub open spec fn popped(self) -> Self {
        if self.size > 0 {
            PixelFifo { start: ((self.start + 1) % 8) as usize, size: (self.size - 1) as usize, ..self }
        } else {
            self
        }
    }

    /// The oldest pixel, if there is one.
    pub open spec fn front(self) -> Option<T> {
        if self.size > 0 {
            Some(self.fifo[self.start as int])
        } else {
            None
        }
    }

    pub open spec fn cleared(self) -> Self {
        PixelFifo { start: 0, size: 0, ..self }
    }

    /// A queue that holds exactly `pixels`.
    pub open spec fn filled(pixels: [T; 8]) -> Self {
        PixelFifo { fifo: pixels, start: 0, size: 8 }
    }
}

impl<T: Copy + Default> PixelFifo<T> {
    pub fn new() -> (r: Self)
        ensures
            r.wf(),
            r.start == 0,
            r.size == 0,
            r@ == Seq::<T>::empty(),
    {
        let r = PixelFifo { fifo: [T::default();8], start: 0, size: 0 };
        assert(r@ =~= Seq::<T>::empty());
        r
    }

    pub fn pop(&mut self) -> (r: Option<T>)
        requires
            old(self).wf(),
        ensures
            r == old(self).front(),
            *final(self) == old(self).popped(),
            final(self).wf(),
            old(self)@.len() > 0 ==> r == Some(old(self)@[0]) && final(self)@ == old(self)@.drop_first(),
            old(self)@.len() == 0 ==> r is None,
    {
        if self.size > 0 {
            let pixel = self.fifo[self.start];
            self.start = (self.start + 1) % 8;
            self.size -= 1;
            proof {
                assert(old(self)@[0] == pixel);
                assert forall|i: int| 0 <= i < self.size implies self@[i] == old(self)@.drop_first()[i] by {
                    assert((self.start + i) % 8 == (old(self).start + (i + 1)) % 8);
                }
                assert(self@ =~= old(self)@.drop_first());
            }
            Some(pixel)
        } else {
            None
        }
    }

    pub fn clear(&mut self)
        ensures
            *final(self) == old(self).cleared(),
            final(self).wf(),
            final(self)@ == Seq::<T>::empty(),
    {
        self.start = 0;
        self.size = 0;
        assert(self@ =~= Seq::<T>::empty());
    }
}

impl PixelFifo<BgPixel> {
    /// The queue after eight pixels were offered: an empty queue takes
    /// them, any other stays as it is.
    pub open spec fn offered(self, pixels: [BgPixel; 8]) -> Self {
        if self.size == 0 {
            Self::filled(pixels)
        } else {
            self
        }
    }

    /// Offers eight pixels and says whether they were taken.
    pub fn push_line(&mut self, pixels: &[BgPixel; 8]) -> (taken: bool)
        ensures
            taken == (old(self).size == 0),
            *final(self) == old(self).offered(*pixels),
            taken ==> final(self)@ == pixels@ && final(self).wf(),
    {
        if self.size == 0 {
            self.fifo = *pixels;
            self.start = 0;
            self.size = 8;
            assert(self@ =~= pixels@);
            true
        } else {
            false
        }
    }
}

/// Eight sprite pixels laid over a queue: the queue is filled up with
/// transparent pixels, and a new pixel replaces a transparent one only.
pub open spec fn merged_line(queue: Seq<ObjPixel>, pixels: Seq<ObjPixel>) -> Seq<ObjPixel> {
    Seq::new(
        8,
        |i: int|
            {
                let below = if i < queue.len() { queue[i] } else { ObjPixel::transparent() };
                if below.index == 0 && pixels[i].index > 0 {
                    pixels[i]
                } else {
                    below
                }
            },
    )
}

impl PixelFifo<ObjPixel> {
    /// The queue after the eight pixels of a sprite row were merged in.
    pub open spec fn merged(self, pixels: [ObjPixel; 8]) -> Self {
        Self::filled(array8(merged_line(self@, pixels@)))
    }

    /// Merges the eight pixels of a sprite row into the queue.
    pub fn push_line(&mut self, pixels: &[ObjPixel; 8])
        requires
            old(self).wf(),
        ensures
            *final(self) == old(self).merged(*pixels),
            final(self)@ == merged_line(old(self)@, pixels@),
            final(self).wf(),
    {
        let mut line: [ObjPixel; 8] = *pixels;
        let mut i: usize = 0;
        while i < 8
            invariant
                i <= 8,
                self.wf(),
                *self == *old(self),
                forall|j: int| 0 <= j < i ==> line[j] == merged_line(self@, pixels@)[j],
                forall|j: int| i <= j < 8 ==> line[j] == pixels[j],
            decreases 8 - i,
        {
            let below = if i < self.size {
                self.fifo[(self.start + i) % 8]
            } else {
                ObjPixel { index: 0, palette: ObjPalette::ObjP0, priority: Priority::BehindNonZeroBg }
            };
            if !(below.index == 0 && pixels[i].index > 0) {
                line[i] = below;
            }
            i += 1;
        }
        proof {
            assert(line@ =~= merged_line(self@, pixels@));
            lemma_array8(line);
        }
        self.fifo = line;
        self.start = 0;
        self.size = 8;
        assert(self@ =~= line@);
    }
}


/// The divisor that brings the bit of pixel `k` of a row, counted from
/// the left, to the lowest place.
pub open spec fn pixel_weight(k: int) -> int {
    if k == 0 {
        128
    } else if k == 1 {
        64
    } else if k == 2 {
        32
    } else if k == 3 {
        16
    } else if k == 4 {
        8
    } else if k == 5 {
        4
    } else if k == 6 {
        2
    } else {
        1
    }
}

/// The colour index of pixel `k` of a row, counted from the left: its
/// bit in the high plane, then its bit in the low plane.
pub open spec fn pixel_index(data_l: u8, data_h: u8, k: int) -> u8 {
    (((data_h as int / pixel_weight(k)) % 2) * 2 + (data_l as int / pixel_weight(k)) % 2) as u8
}

/// The eight background pixels of a row of tile data.
pub open spec fn bg_row_pixels(data_l: u8, data_h: u8) -> [BgPixel; 8] {
    array8(Seq::new(8, |k: int| BgPixel { index: pixel_index(data_l, data_h, k) }))
}

/// The eight pixels of a sprite row, mirrored if the sprite is.
pub open spec fn obj_row_pixels(data_l: u8, data_h: u8, obj: Attributes) -> [ObjPixel; 8] {
    array8(
        Seq::new(
            8,
            |k: int|
                ObjPixel {
                    index: pixel_index(data_l, data_h, if obj.flip_x { 7 - k } else { k }),
                    palette: obj.palette,
                    priority: obj.priority,
                },
        ),
    )
}

/// The row of a sprite that line `line_y` shows, counted modulo the
/// sprite height and from the bottom for a flipped sprite.
pub open spec fn obj_line(obj: Attributes, line_y: u8, size: SpriteSize) -> int {
    let row = (line_y + 16 - obj.y) % (size.rows() as int);
    if obj.flip_y {
        size.rows() - 1 - row
    } else {
        row
    }
}

/// Where the sprite at slot `from` or later that starts at `x_pos` and
/// is not drawn yet sits, if there is one.
pub open spec fn next_obj_from(visible: VisibleObjs, drawn: [bool; 10], x_pos: u8, from: int) -> Option<
    usize,
>
    decreases 10 - from,
{
    if from < 0 || from >= visible.count || from >= 10 {
        None
    } else if visible.objs[from].x == x_pos && !drawn[from] {
        Some(from as usize)
    } else {
        next_obj_from(visible, drawn, x_pos, from + 1)
    }
}

/// The action after the row of a sprite was located: the row's low
/// bit plane is read. A tall sprite starts at an even tile.
#[verifier::opaque]
pub open spec fn row_located(
    visible_objs: VisibleObjs,
    lcdc: LcdControl,
    line_y: u8,
    vram: [u8; 8192],
    attr_index: usize,
) -> Action {
    let obj = visible_objs.objs[attr_index as int];
    let line = obj_line(obj, line_y, lcdc.obj_size);
    let index = match lcdc.obj_size {
        SpriteSize::S8x8 => obj.tile_index,
        SpriteSize::S8x16 => (obj.tile_index - obj.tile_index % 2) as u8,
    };
    let data_address = TileDataAddressing::Unsigned.obj_row(index, line as u16, lcdc.obj_size);
    Action::ObjReadDataH { data_address: data_address as u16, data_l: vram[data_address], attr_index }
}

/// What the fetcher does next.
#[derive(Clone, Copy, Debug, PartialEq, Eq)]
pub enum Action {
    ObjReadAttr,
    ObjReadDataL { attr_index: usize },
    ObjReadDataH { data_address: u16, data_l: u8, attr_index: usize },
    BgReadStartTile,
    BgReadStartDataL,
    BgReadStartDataH,
    BgReadTile,
    BgReadDataL { tile_index: u8 },
    BgReadDataH { data_address: u16, data_l: u8 },
    BgWait { pixels: [BgPixel; 8] },
}

impl Action {
    pub open spec fn wf(self) -> bool {
        match self {
            Action::ObjReadDataL { attr_index } => attr_index < 10,
            Action::ObjReadDataH { data_address, data_l, attr_index } => attr_index < 10
                && data_address + 1 < VRAM_SIZE,
            Action::BgReadDataH { data_address, data_l } => data_address + 1 < VRAM_SIZE,
            _ => true,
        }
    }

    /// Whether a sprite fetch is under way.
    pub open spec fn for_obj(self) -> bool {
        self is ObjReadAttr || self is ObjReadDataL || self is ObjReadDataH
    }

    pub fn pending_obj(&self) -> (r: bool)
        ensures
            r == self.for_obj(),
    {
        matches!(
            self,
            Action::ObjReadAttr | Action::ObjReadDataL { .. } | Action::ObjReadDataH { .. }
        )
    }
}

/// The fetcher: its next action, whether it idles this dot, the tile
/// column it has reached and which of the line's sprites are drawn.
#[derive(Clone, Copy, Debug, PartialEq, Eq)]
pub struct Fetcher {
    pub action: Action,
    pub waiting_cycle: bool,
    pub tile_map_index: u8,
    pub drawn_objs: [bool; 10],
}

/// What the fetcher reads during one dot.
pub struct FetchInput {
    pub visible_objs: VisibleObjs,
    pub lcdc: LcdControl,
    pub x_pos: u8,
    pub line_y: u8,
    pub scroll_x: u8,
    pub scroll_y: u8,
    pub vram: [u8; 8192],
    pub window_triggered: bool,
    pub line_y_window: u8,
}

/// The fetcher and the two queues after one dot, and whether a sprite
/// is still to be fetched at the current column.
pub struct FetchOutcome {
    pub fetcher: Fetcher,
    pub bg_fifo: PixelFifo<BgPixel>,
    pub obj_fifo: PixelFifo<ObjPixel>,
    pub pending: bool,
}

impl FetchInput {
    /// The line of the background or of the window that is drawn.
    pub open spec fn map_line(self) -> u16 {
        if !self.window_triggered {
            ((self.line_y + self.scroll_y) % 256) as u16
        } else {
            self.line_y_window as u16
        }
    }

    /// Where in video memory the tile index for tile column `column`
    /// of the current line is found.
    pub open spec fn map_address(self, column: u8) -> int {
        let map = if self.window_triggered { self.lcdc.window_tile_map } else { self.lcdc.bg_tile_map };
        let offset = if self.window_triggered { 0int } else { self.scroll_x as int / 8 };
        map.base() + (self.map_line() / 8) * TILE_MAP_WIDTH + (column + offset) % (
        TILE_MAP_WIDTH as int)
    }

    pub open spec fn next_obj(self, drawn: [bool; 10]) -> Option<usize> {
        next_obj_from(self.visible_objs, drawn, self.x_pos, 0)
    }

}

impl Fetcher {
    pub open spec fn wf(self) -> bool {
        self.action.wf() && self.tile_map_index < TILE_MAP_WIDTH
    }

    pub open spec fn initial() -> Self {
        Fetcher {
            action: Action::BgReadStartTile,
            waiting_cycle: false,
            tile_map_index: 0,
            drawn_objs: vstd::array::spec_array_fill_for_copy_type::<bool, 10>(false),
        }
    }

    /// The fetcher at the start of a line.
    pub open spec fn line_started(self) -> Self {
        Fetcher { waiting_cycle: self.waiting_cycle, ..Self::initial() }
    }

    /// The fetcher when the window starts on the current line.
    pub open spec fn window_started(self) -> Self {
        Fetcher { action: Action::BgReadTile, tile_map_index: 0, ..self }
    }

    /// The action after a row of background pixels was offered.
    pub open spec fn after_offer(self, taken: bool, pixels: [BgPixel; 8]) -> Fetcher {
        if taken {
            Fetcher {
                action: Action::BgReadTile,
                tile_map_index: ((self.tile_map_index + 1) % (TILE_MAP_WIDTH as int)) as u8,
                ..self
            }
        } else {
            Fetcher { action: Action::BgWait { pixels }, ..self }
        }
    }

    /// The fetcher and the queues after the high bit plane of a
    /// sprite row was read: the row's pixels are merged into the sprite
    /// queue, the sprite counts as drawn, and the fetcher turns to the
    /// next sprite at this column or back to the background.
    #[verifier::opaque]
    pub open spec fn row_merged(
        self,
        bg_fifo: PixelFifo<BgPixel>,
        obj_fifo: PixelFifo<ObjPixel>,
        input: FetchInput,
        data_address: u16,
        data_l: u8,
        attr_index: usize,
    ) -> FetchOutcome {
        let obj = input.visible_objs.objs[attr_index as int];
        let data_h = input.vram[data_address + 1];
        let drawn = vstd::array::spec_array_update(self.drawn_objs, attr_index as int, true);
        let after = input.next_obj(drawn);
        FetchOutcome {
            fetcher: Fetcher {
                action: if after is Some {
                    Action::ObjReadAttr
                } else if input.x_pos == 0 {
                    Action::BgReadStartTile
                } else {
                    Action::BgReadTile
                },
                drawn_objs: drawn,
                ..self
            },
            bg_fifo,
            obj_fifo: obj_fifo.merged(obj_row_pixels(data_l, data_h, obj)),
            pending: after is Some,
        }
    }

    /// One working step of the fetcher, taken every other dot.
    #[verifier::opaque]
    pub open spec fn advanced(
        self,
        bg_fifo: PixelFifo<BgPixel>,
        obj_fifo: PixelFifo<ObjPixel>,
        input: FetchInput,
    ) -> FetchOutcome {
        let next = input.next_obj(self.drawn_objs);
        let action = if !self.action.for_obj() && next is Some {
            Action::ObjReadAttr
        } else {
            self.action
        };
        let same = FetchOutcome { fetcher: self, bg_fifo, obj_fifo, pending: next is Some };
        match action {
            Action::ObjReadAttr => FetchOutcome {
                fetcher: Fetcher {
                    action: if next is Some {
                        Action::ObjReadDataL { attr_index: next->0 }
                    } else {
                        Action::BgReadTile
                    },
                    ..self
                },
                ..same
            },
            Action::ObjReadDataL { attr_index } => FetchOutcome {
                fetcher: Fetcher {
                    action: row_located(
                        input.visible_objs,
                        input.lcdc,
                        input.line_y,
                        input.vram,
                        attr_index,
                    ),
                    ..self
                },
                ..same
            },
            Action::ObjReadDataH { data_address, data_l, attr_index } => self.row_merged(
                bg_fifo,
                obj_fifo,
                input,
                data_address,
                data_l,
                attr_index,
            ),
            Action::BgReadStartTile => FetchOutcome {
                fetcher: Fetcher { action: Action::BgReadStartDataL, ..self },
                ..same
            },
            Action::BgReadStartDataL => FetchOutcome {
                fetcher: Fetcher { action: Action::BgReadStartDataH, ..self },
                ..same
            },
            Action::BgReadStartDataH => {
                let pixels = vstd::array::spec_array_fill_for_copy_type::<BgPixel, 8>(
                    BgPixel { index: 0 },
                );
                FetchOutcome {
                    fetcher: if bg_fifo.size == 0 {
                        Fetcher { action: Action::BgReadTile, ..self }
                    } else {
                        Fetcher { action: Action::BgWait { pixels }, ..self }
                    },
                    bg_fifo: bg_fifo.offered(pixels),
                    ..same
                }
            },
            Action::BgReadTile => FetchOutcome {
                fetcher: Fetcher {
                    action: Action::BgReadDataL {
                        tile_index: input.vram[input.map_address(self.tile_map_index)],
                    },
                    ..self
                },
                ..same
            },
            Action::BgReadDataL { tile_index } => {
                let data_address = input.lcdc.bg_window_addressing.bg_row(tile_index, input.map_line());
                FetchOutcome {
                    fetcher: Fetcher {
                        action: Action::BgReadDataH {
                            data_address: data_address as u16,
                            data_l: input.vram[data_address],
                        },
                        ..self
                    },
                    ..same
                }
            },
            Action::BgReadDataH { data_address, data_l } => {
                let pixels = bg_row_pixels(data_l, input.vram[data_address + 1]);
                FetchOutcome {
                    fetcher: self.after_offer(bg_fifo.size == 0, pixels),
                    bg_fifo: bg_fifo.offered(pixels),
                    ..same
                }
            },
            Action::BgWait { pixels } => FetchOutcome {
                fetcher: if bg_fifo.size == 0 {
                    self.after_offer(true, pixels)
                } else {
                    self
                },
                bg_fifo: bg_fifo.offered(pixels),
                ..same
            },
        }
    }

    /// The fetcher and the queues after one dot: the fetcher idles and
    /// works in turn.
    pub open spec fn stepped(
        self,
        bg_fifo: PixelFifo<BgPixel>,
        obj_fifo: PixelFifo<ObjPixel>,
        input: FetchInput,
    ) -> FetchOutcome {
        let turned = Fetcher { waiting_cycle: !self.waiting_cycle, ..self };
        if self.waiting_cycle {
            FetchOutcome {
                fetcher: turned,
                bg_fifo,
                obj_fifo,
                pending: input.next_obj(self.drawn_objs) is Some,
            }
        } else {
            turned.advanced(bg_fifo, obj_fifo, input)
        }
    }

    pub fn new() -> (r: Self)
        ensures
            r == Self::initial(),
            r.wf(),
    {
        Fetcher {
            action: Action::BgReadStartTile,
            waiting_cycle: false,
            tile_map_index: 0,
            drawn_objs: [false;10],
        }
    }

    pub fn start_line(&mut self)
        ensures
            *final(self) == old(self).line_started(),
            final(self).wf(),
    {
        self.action = Action::BgReadStartTile;
        self.tile_map_index = 0;
        self.drawn_objs = [false;10];
    }

    pub fn start_window(&mut self)
        ensures
            *final(self) == old(self).window_started(),
            final(self).wf(),
    {
        self.action = Action::BgReadTile;
        self.tile_map_index = 0;
    }

    fn pair(data_l: u8, data_h: u8, weight: u8) -> (r: u8)
        requires
            weight > 0,
        ensures
            r as int == ((data_h as int / weight as int) % 2) * 2 + (data_l as int / weight as int)
                % 2,
    {
        ((data_h / weight) % 2) * 2 + (data_l / weight) % 2
    }

    /// The colour indices of the eight pixels of a row, leftmost first.
    pub fn unpack_indices(data_l: u8, data_h: u8) -> (r: [u8; 8])
        ensures
            forall|k: int| 0 <= k < 8 ==> r[k] == pixel_index(data_l, data_h, k),
    {
        [
            Self::pair(data_l, data_h, 128),
            Self::pair(data_l, data_h, 64),
            Self::pair(data_l, data_h, 32),
            Self::pair(data_l, data_h, 16),
            Self::pair(data_l, data_h, 8),
            Self::pair(data_l, data_h, 4),
            Self::pair(data_l, data_h, 2),
            Self::pair(data_l, data_h, 1),
        ]
    }

    fn next_obj(visible_objs: &VisibleObjs, drawn_objs: &[bool; 10], x_pos: u8) -> (r: Option<usize>)
        requires
            visible_objs.wf(),
        ensures
            r == next_obj_from(*visible_objs, *drawn_objs, x_pos, 0),
            r is Some ==> r->0 < 10,
    {
        let mut i: usize = 0;
        while i < visible_objs.count
            invariant
                i <= visible_objs.count <= 10,
                next_obj_from(*visible_objs, *drawn_objs, x_pos, 0) == next_obj_from(
                    *visible_objs,
                    *drawn_objs,
                    x_pos,
                    i as int,
                ),
            decreases visible_objs.count - i,
        {
            if visible_objs.objs[i].x == x_pos && !drawn_objs[i] {
                return Some(i);
            }
            i += 1;
        }
        None
    }

    fn bg_pixels(data_l: u8, data_h: u8) -> (r: [BgPixel; 8])
        ensures
            r == bg_row_pixels(data_l, data_h),
    {
        let indices = Self::unpack_indices(data_l, data_h);
        let r = [
            BgPixel { index: indices[0] },
            BgPixel { index: indices[1] },
            BgPixel { index: indices[2] },
            BgPixel { index: indices[3] },
            BgPixel { index: indices[4] },
            BgPixel { index: indices[5] },
            BgPixel { index: indices[6] },
            BgPixel { index: indices[7] },
        ];
        proof {
            assert(r@ =~= Seq::new(8, |k: int| BgPixel { index: pixel_index(data_l, data_h, k) }));
            lemma_array8(r);
        }
        r
    }

    fn obj_pixels(data_l: u8, data_h: u8, obj: &Attributes) -> (r: [ObjPixel; 8])
        ensures
            r == obj_row_pixels(data_l, data_h, *obj),
    {
        let indices = Self::unpack_indices(data_l, data_h);
        let palette = obj.palette;
        let priority = obj.priority;
        let r = if obj.flip_x {
            [
                ObjPixel { index: indices[7], palette, priority },
                ObjPixel { index: indices[6], palette, priority },
                ObjPixel { index: indices[5], palette, priority },
                ObjPixel { index: indices[4], palette, priority },
                ObjPixel { index: indices[3], palette, priority },
                ObjPixel { index: indices[2], palette, priority },
                ObjPixel { index: indices[1], palette, priority },
                ObjPixel { index: indices[0], palette, priority },
            ]
        } else {
            [
                ObjPixel { index: indices[0], palette, priority },
                ObjPixel { index: indices[1], palette, priority },
                ObjPixel { index: indices[2], palette, priority },
                ObjPixel { index: indices[3], palette, priority },
                ObjPixel { index: indices[4], palette, priority },
                ObjPixel { index: indices[5], palette, priority },
                ObjPixel { index: indices[6], palette, priority },
                ObjPixel { index: indices[7], palette, priority },
            ]
        };
        proof {
            assert(r@ =~= Seq::new(
                8,
                |k: int|
                    ObjPixel {
                        index: pixel_index(data_l, data_h, if obj.flip_x { 7 - k } else { k }),
                        palette: obj.palette,
                        priority: obj.priority,
                    },
            ));
            lemma_array8(r);
        }
        r
    }
}


impl Fetcher {
    fn offer(&mut self, bg_fifo: &mut PixelFifo<BgPixel>, pixels: [BgPixel; 8])
        requires
            old(self).tile_map_index < TILE_MAP_WIDTH,
        ensures
            *final(self) == old(self).after_offer(old(bg_fifo).size == 0, pixels),
            *final(bg_fifo) == old(bg_fifo).offered(pixels),
            final(self).wf(),
    {
        if bg_fifo.push_line(&pixels) {
            self.tile_map_index = (self.tile_map_index + 1) % (TILE_MAP_WIDTH as u8);
            self.action = Action::BgReadTile;
        } else {
            self.action = Action::BgWait { pixels };
        }
    }

    fn locate_row(
        visible_objs: &VisibleObjs,
        lcdc: &LcdControl,
        line_y: u8,
        vram: &[u8; 8192],
        attr_index: usize,
    ) -> (r: Action)
        requires
            attr_index < 10,
        ensures
            r == row_located(*visible_objs, *lcdc, line_y, *vram, attr_index),
            r.wf(),
    {
        reveal(row_located);
        let obj = visible_objs.objs[attr_index];
        let height: u16 = lcdc.obj_size.height() as u16;
        let row: u16 = match lcdc.obj_size {
            SpriteSize::S8x8 => (line_y as u16 + 16 + 256 - obj.y as u16) % 8,
            SpriteSize::S8x16 => (line_y as u16 + 16 + 256 - obj.y as u16) % 16,
        };
        let line: u16 = if obj.flip_y { height - 1 - row } else { row };
        let index: u8 = match lcdc.obj_size {
            SpriteSize::S8x8 => obj.tile_index,
            SpriteSize::S8x16 => obj.tile_index - obj.tile_index % 2,
        };
        assert(line as int == obj_line(obj, line_y, lcdc.obj_size));
        let data_address = TileDataAddressing::Unsigned.address_from_index_obj(
            index,
            line,
            lcdc.obj_size,
        );
        Action::ObjReadDataH { data_address, data_l: vram[data_address as usize], attr_index }
    }

    fn merge_row(
        &mut self,
        obj_fifo: &mut PixelFifo<ObjPixel>,
        visible_objs: &VisibleObjs,
        x_pos: u8,
        vram: &[u8; 8192],
        data_address: u16,
        data_l: u8,
        attr_index: usize,
    ) -> (pending: bool)
        requires
            old(self).tile_map_index < TILE_MAP_WIDTH,
            old(obj_fifo).wf(),
            visible_objs.wf(),
            attr_index < 10,
            data_address + 1 < VRAM_SIZE,
        ensures
            forall|bg_fifo: PixelFifo<BgPixel>, input: FetchInput|
                input.visible_objs == *visible_objs && input.x_pos == x_pos && input.vram == *vram
                    ==> #[trigger] old(self).row_merged(
                    bg_fifo,
                    *old(obj_fifo),
                    input,
                    data_address,
                    data_l,
                    attr_index,
                ) == (FetchOutcome {
                    fetcher: *final(self),
                    bg_fifo,
                    obj_fifo: *final(obj_fifo),
                    pending,
                }),
            final(self).wf(),
            final(obj_fifo).wf(),
    {
        reveal(Fetcher::row_merged);
        let obj = visible_objs.objs[attr_index];
        let data_h = vram[data_address as usize + 1];
        let pixels = Self::obj_pixels(data_l, data_h, &obj);
        obj_fifo.push_line(&pixels);
        let mut drawn = self.drawn_objs;
        drawn[attr_index] = true;
        self.drawn_objs = drawn;
        let after = Self::next_obj(visible_objs, &drawn, x_pos);
        self.action = if after.is_some() {
            Action::ObjReadAttr
        } else if x_pos == 0 {
            Action::BgReadStartTile
        } else {
            Action::BgReadTile
        };
        after.is_some()
    }

    fn advance_obj(
        &mut self,
        bg_fifo: &mut PixelFifo<BgPixel>,
        obj_fifo: &mut PixelFifo<ObjPixel>,
        visible_objs: &VisibleObjs,
        lcdc: &LcdControl,
        x_pos: u8,
        line_y: u8,
        scroll_x: u8,
        scroll_y: u8,
        vram: &[u8; 8192],
        window_triggered: bool,
        line_y_window: u8,
    ) -> (pending: bool)
        requires
            old(self).wf(),
            old(bg_fifo).wf(),
            old(obj_fifo).wf(),
            visible_objs.wf(),
            old(self).action.for_obj() || next_obj_from(
                *visible_objs,
                old(self).drawn_objs,
                x_pos,
                0,
            ) is Some,
        ensures
            ({
                let outcome = old(self).advanced(
                    *old(bg_fifo),
                    *old(obj_fifo),
                    (FetchInput {
                        visible_objs: *visible_objs,
                        lcdc: *lcdc,
                        x_pos,
                        line_y,
                        scroll_x,
                        scroll_y,
                        vram: *vram,
                        window_triggered,
                        line_y_window,
                    }),
                );
                &&& *final(self) == outcome.fetcher
                &&& *final(bg_fifo) == outcome.bg_fifo
                &&& *final(obj_fifo) == outcome.obj_fifo
                &&& pending == outcome.pending
            }),
            final(self).wf(),
            final(bg_fifo).wf(),
            final(obj_fifo).wf(),
    {
        reveal(Fetcher::advanced);
        let next = Self::next_obj(visible_objs, &self.drawn_objs, x_pos);
        let action = if !self.action.pending_obj() { Action::ObjReadAttr } else { self.action };
        match action {
            Action::ObjReadDataL { attr_index } => {
                self.action = Self::locate_row(visible_objs, lcdc, line_y, vram, attr_index);
                next.is_some()
            },
            Action::ObjReadDataH { data_address, data_l, attr_index } => {
                self.merge_row(obj_fifo, visible_objs, x_pos, vram, data_address, data_l, attr_index)
            },
            _ => {
                self.action = match next {
                    Some(attr_index) => Action::ObjReadDataL { attr_index },
                    None => Action::BgReadTile,
                };
                next.is_some()
            },
        }
    }

    fn advance_bg(
        &mut self,
        bg_fifo: &mut PixelFifo<BgPixel>,
        obj_fifo: &mut PixelFifo<ObjPixel>,
        visible_objs: &VisibleObjs,
        lcdc: &LcdControl,
        x_pos: u8,
        line_y: u8,
        scroll_x: u8,
        scroll_y: u8,
        vram: &[u8; 8192],
        window_triggered: bool,
        line_y_window: u8,
    ) -> (pending: bool)
        requires
            old(self).wf(),
            old(bg_fifo).wf(),
            old(obj_fifo).wf(),
            visible_objs.wf(),
            !old(self).action.for_obj(),
            next_obj_from(*visible_objs, old(self).drawn_objs, x_pos, 0) is None,
        ensures
            ({
                let outcome = old(self).advanced(
                    *old(bg_fifo),
                    *old(obj_fifo),
                    (FetchInput {
                        visible_objs: *visible_objs,
                        lcdc: *lcdc,
                        x_pos,
                        line_y,
                        scroll_x,
                        scroll_y,
                        vram: *vram,
                        window_triggered,
                        line_y_window,
                    }),
                );
                &&& *final(self) == outcome.fetcher
                &&& *final(bg_fifo) == outcome.bg_fifo
                &&& *final(obj_fifo) == outcome.obj_fifo
                &&& pending == outcome.pending
            }),
            final(self).wf(),
            final(bg_fifo).wf(),
            final(obj_fifo).wf(),
    {
        reveal(Fetcher::advanced);
        let ghost input = FetchInput {
            visible_objs: *visible_objs,
            lcdc: *lcdc,
            x_pos,
            line_y,
            scroll_x,
            scroll_y,
            vram: *vram,
            window_triggered,
            line_y_window,
        };
        let map_line: u16 = if !window_triggered {
            (line_y as u16 + scroll_y as u16) % 256
        } else {
            line_y_window as u16
        };
        match self.action {
            Action::BgReadStartTile => {
                self.action = Action::BgReadStartDataL;
            },
            Action::BgReadStartDataL => {
                self.action = Action::BgReadStartDataH;
            },
            Action::BgReadStartDataH => {
                let pixels = [BgPixel { index: 0 };8];
                if bg_fifo.push_line(&pixels) {
                    self.action = Action::BgReadTile;
                } else {
                    self.action = Action::BgWait { pixels };
                }
            },
            Action::BgReadTile => {
                let map = if window_triggered { lcdc.window_tile_map } else { lcdc.bg_tile_map };
                let offset: u16 = if window_triggered { 0 } else { scroll_x as u16 / 8 };
                let column: u16 = (self.tile_map_index as u16 + offset) % TILE_MAP_WIDTH;
                let address: u16 = map.base_address() + (map_line / 8) * TILE_MAP_WIDTH + column;
                assert(address as int == input.map_address(self.tile_map_index));
                self.action = Action::BgReadDataL { tile_index: vram[address as usize] };
            },
            Action::BgReadDataL { tile_index } => {
                let data_address = lcdc.bg_window_addressing.address_from_index_bg(tile_index, map_line);
                self.action = Action::BgReadDataH { data_address, data_l: vram[data_address as usize] };
            },
            Action::BgReadDataH { data_address, data_l } => {
                let pixels = Self::bg_pixels(data_l, vram[data_address as usize + 1]);
                self.offer(bg_fifo, pixels);
            },
            Action::BgWait { pixels } => {
                if bg_fifo.size == 0 {
                    self.offer(bg_fifo, pixels);
                }
            },
            _ => {},
        }
        false
    }

    fn advance(
        &mut self,
        bg_fifo: &mut PixelFifo<BgPixel>,
        obj_fifo: &mut PixelFifo<ObjPixel>,
        visible_objs: &VisibleObjs,
        lcdc: &LcdControl,
        x_pos: u8,
        line_y: u8,
        scroll_x: u8,
        scroll_y: u8,
        vram: &[u8; 8192],
        window_triggered: bool,
        line_y_window: u8,
    ) -> (pending: bool)
        requires
            old(self).wf(),
            old(bg_fifo).wf(),
            old(obj_fifo).wf(),
            visible_objs.wf(),
        ensures
            ({
                let outcome = old(self).advanced(
                    *old(bg_fifo),
                    *old(obj_fifo),
                    (FetchInput {
                        visible_objs: *visible_objs,
                        lcdc: *lcdc,
                        x_pos,
                        line_y,
                        scroll_x,
                        scroll_y,
                        vram: *vram,
                        window_triggered,
                        line_y_window,
                    }),
                );
                &&& *final(self) == outcome.fetcher
                &&& *final(bg_fifo) == outcome.bg_fifo
                &&& *final(obj_fifo) == outcome.obj_fifo
                &&& pending == outcome.pending
            }),
            final(self).wf(),
            final(bg_fifo).wf(),
            final(obj_fifo).wf(),
    {
        let next = Self::next_obj(visible_objs, &self.drawn_objs, x_pos);
        if self.action.pending_obj() || next.is_some() {
            self.advance_obj(
            bg_fifo,
            obj_fifo,
            visible_objs,
            lcdc,
            x_pos,
            line_y,
            scroll_x,
            scroll_y,
            vram,
            window_triggered,
            line_y_window,
            )
        } else {
            self.advance_bg(
            bg_fifo,
            obj_fifo,
            visible_objs,
            lcdc,
            x_pos,
            line_y,
            scroll_x,
            scroll_y,
            vram,
            window_triggered,
            line_y_window,
            )
        }
    }

    /// Runs the fetcher for one dot and says whether a sprite is still
    /// to be fetched at the current column.
    pub fn tick(
        &mut self,
        bg_fifo: &mut PixelFifo<BgPixel>,
        obj_fifo: &mut PixelFifo<ObjPixel>,
        visible_objs: &VisibleObjs,
        lcdc: &LcdControl,
        x_pos: u8,
        line_y: u8,
        scroll_x: u8,
        scroll_y: u8,
        vram: &[u8; 8192],
        window_triggered: bool,
        line_y_window: u8,
    ) -> (pending: bool)
        requires
            old(self).wf(),
            old(bg_fifo).wf(),
            old(obj_fifo).wf(),
            visible_objs.wf(),
        ensures
            ({
                let outcome = old(self).stepped(
                    *old(bg_fifo),
                    *old(obj_fifo),
                    (FetchInput {
                        visible_objs: *visible_objs,
                        lcdc: *lcdc,
                        x_pos,
                        line_y,
                        scroll_x,
                        scroll_y,
                        vram: *vram,
                        window_triggered,
                        line_y_window,
                    }),
                );
                &&& *final(self) == outcome.fetcher
                &&& *final(bg_fifo) == outcome.bg_fifo
                &&& *final(obj_fifo) == outcome.obj_fifo
                &&& pending == outcome.pending
            }),
            final(self).wf(),
            final(bg_fifo).wf(),
            final(obj_fifo).wf(),
    {
        let waiting = self.waiting_cycle;
        self.waiting_cycle = !waiting;
        if waiting {
            return Self::next_obj(visible_objs, &self.drawn_objs, x_pos).is_some();
        }
        self.advance(
            bg_fifo,
            obj_fifo,
            visible_objs,
            lcdc,
            x_pos,
            line_y,
            scroll_x,
            scroll_y,
            vram,
            window_triggered,
            line_y_window,
        )
    }
}


impl Action {
    pub fn is_wf(&self) -> (r: bool)
        ensures
            r == self.wf(),
    {
        match self {
            Action::ObjReadDataL { attr_index } => *attr_index < 10,
            Action::ObjReadDataH { data_address, data_l, attr_index } => *attr_index < 10
                && (*data_address as usize) < VRAM_SIZE - 1,
            Action::BgReadDataH { data_address, data_l } => (*data_address as usize) < VRAM_SIZE - 1,
            _ => true,
        }
    }
}

} // verus!
