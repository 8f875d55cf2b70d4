//! Laws of a line without sprites and without the window. Such a
//! line takes a fixed number of dots, and where its tiles show one
//! colour it is painted in that colour from its first column on,
//! whatever the scroll registers hold: the pixels dropped for fine
//! scrolling and the eight hidden columns come before anything that
//! is shown. The laws are stated of the dots of pixel transfer first,
//! then of the unit's machine cycles from the sprite search on.

use super::lcd_control::{LcdControl, TileDataAddressing};
use super::pixel_transfer::{
    array8, bg_row_pixels, mixed_color, next_obj_from, pixel_index, Action, BgPixel, FetchInput,
    Fetcher, ObjPixel, PixelFifo, TILE_MAP_WIDTH, VRAM_SIZE,
};
use super::{Color, Ppu, CYCLES_PER_LINE, LCDC, LCD_SIZE_X, LCD_SIZE_Y};
use vstd::array::spec_array_update;
use vstd::prelude::*;

verus! {

/// Whether row `line` of tile `tile` has colour index `index` in all
/// of its eight pixels.
pub open spec fn row_shows(
    vram: [u8; 8192],
    addressing: TileDataAddressing,
    tile: u8,
    line: u16,
    index: u8,
) -> bool {
    let at = addressing.bg_row(tile, line);
    forall|j: int| 0 <= j < 8 ==> #[trigger] pixel_index(vram[at], vram[at + 1], j) == index
}

/// Whether every tile of the line that the fetcher reads has colour
/// index `index` in the row drawn.
pub open spec fn line_shows(input: FetchInput, index: u8) -> bool {
    forall|column: u8|
        column < TILE_MAP_WIDTH ==> row_shows(
            input.vram,
            input.lcdc.bg_window_addressing,
            input.vram[#[trigger] input.map_address(column)],
            input.map_line(),
            index,
        )
}

/// A background map that holds one tile throughout shows on every
/// line what that tile shows in the row drawn.
pub proof fn lemma_map_of_one_tile(input: FetchInput, tile: u8, index: u8)
    requires
        !input.window_triggered,
        forall|at: int|
            input.lcdc.bg_tile_map.base() <= at < input.lcdc.bg_tile_map.base() + 1024
                ==> #[trigger] input.vram[at] == tile,
        row_shows(input.vram, input.lcdc.bg_window_addressing, tile, input.map_line(), index),
    ensures
        line_shows(input, index),
{
    assert forall|column: u8| column < TILE_MAP_WIDTH implies row_shows(
        input.vram,
        input.lcdc.bg_window_addressing,
        input.vram[#[trigger] input.map_address(column)],
        input.map_line(),
        index,
    ) by {
        let at = input.map_address(column);
        assert(input.lcdc.bg_tile_map.base() <= at < input.lcdc.bg_tile_map.base() + 1024);
    }
}

/// Whether the fetcher works on the background and what it holds of
/// tile data has colour index `index` throughout.
pub open spec fn fetches_only(fetcher: Fetcher, input: FetchInput, index: u8) -> bool {
    &&& fetcher.tile_map_index < TILE_MAP_WIDTH
    &&& match fetcher.action {
        Action::ObjReadAttr => false,
        Action::ObjReadDataL { attr_index } => false,
        Action::ObjReadDataH { data_address, data_l, attr_index } => false,
        Action::BgReadDataL { tile_index } => row_shows(
            input.vram,
            input.lcdc.bg_window_addressing,
            tile_index,
            input.map_line(),
            index,
        ),
        Action::BgReadDataH { data_address, data_l } => data_address + 1 < VRAM_SIZE && forall|
            j: int,
        |
            0 <= j < 8 ==> #[trigger] pixel_index(data_l, input.vram[data_address + 1], j)
                == index,
        Action::BgWait { pixels } => forall|j: int| 0 <= j < 8 ==> (#[trigger] pixels[j]).index
            == index,
        _ => true,
    }
}

/// Whether the fetcher has not yet handed out the eight hidden pixels
/// that start a line.
pub open spec fn starting(fetcher: Fetcher) -> bool {
    fetcher.action is BgReadStartTile || fetcher.action is BgReadStartDataL
        || fetcher.action is BgReadStartDataH
}

/// An array of eight holds what the sequence of eight holds from which
/// it is made.
proof fn lemma_array8_holds<T>(s: Seq<T>)
    requires
        s.len() == 8,
    ensures
        array8(s)@ == s,
{
    broadcast use vstd::array::group_array_axioms;

    let a0: [T; 8] = arbitrary();
    let a1 = spec_array_update(a0, 0, s[0]);
    let a2 = spec_array_update(a1, 1, s[1]);
    let a3 = spec_array_update(a2, 2, s[2]);
    let a4 = spec_array_update(a3, 3, s[3]);
    let a5 = spec_array_update(a4, 4, s[4]);
    let a6 = spec_array_update(a5, 5, s[5]);
    let a7 = spec_array_update(a6, 6, s[6]);
    let a8 = spec_array_update(a7, 7, s[7]);
    assert(a8@ =~= s);
}

/// The pixels of a row that has one colour index in all of its pixels
/// have that index.
proof fn lemma_row_pixels(data_l: u8, data_h: u8, index: u8)
    requires
        forall|j: int| 0 <= j < 8 ==> #[trigger] pixel_index(data_l, data_h, j) == index,
    ensures
        forall|j: int| 0 <= j < 8 ==> (#[trigger] bg_row_pixels(data_l, data_h)[j]).index == index,
{
    broadcast use vstd::array::group_array_axioms;

    let s = Seq::new(8, |k: int| BgPixel { index: pixel_index(data_l, data_h, k) });
    lemma_array8_holds(s);
    assert forall|j: int| 0 <= j < 8 implies (#[trigger] bg_row_pixels(data_l, data_h)[j]).index
        == index by {
        assert(bg_row_pixels(data_l, data_h)@[j] == s[j]);
    }
}

/// One dot of the fetcher on a line without sprites whose tiles all
/// show one colour index: no sprite is pending, the sprite queue stays,
/// and the background queue stays or, being empty, takes eight pixels,
/// which have that index but for the eight hidden ones that start the
/// line.
proof fn lemma_fetch_step(
    fetcher: Fetcher,
    bg_fifo: PixelFifo<BgPixel>,
    obj_fifo: PixelFifo<ObjPixel>,
    input: FetchInput,
    index: u8,
)
    requires
        input.visible_objs.count == 0,
        !input.window_triggered,
        fetches_only(fetcher, input, index),
        line_shows(input, index),
        starting(fetcher) ==> bg_fifo.size == 0,
    ensures
        ({
            let out = fetcher.stepped(bg_fifo, obj_fifo, input);
            &&& !out.pending
            &&& out.obj_fifo == obj_fifo
            &&& fetches_only(out.fetcher, input, index)
            &&& starting(out.fetcher) ==> starting(fetcher) && out.bg_fifo == bg_fifo
            &&& out.bg_fifo == bg_fifo || {
                &&& bg_fifo.size == 0
                &&& out.bg_fifo.start == 0
                &&& out.bg_fifo.size == 8
                &&& forall|i: int|
                    0 <= i < 8 ==> (#[trigger] out.bg_fifo.fifo[i]).index == index || starting(
                        fetcher,
                    )
            }
        }),
{
    broadcast use vstd::array::group_array_axioms;

    reveal(Fetcher::advanced);
    reveal_with_fuel(next_obj_from, 2);
    assert(input.next_obj(fetcher.drawn_objs) is None);
    if !fetcher.waiting_cycle {
        let turned = Fetcher { waiting_cycle: true, ..fetcher };
        match fetcher.action {
            Action::BgReadTile => {
                let column = fetcher.tile_map_index;
                assert(row_shows(
                    input.vram,
                    input.lcdc.bg_window_addressing,
                    input.vram[input.map_address(column)],
                    input.map_line(),
                    index,
                ));
            },
            Action::BgReadDataL { tile_index } => {
                let at = input.lcdc.bg_window_addressing.bg_row(tile_index, input.map_line());
                assert(0 <= at && at + 1 < VRAM_SIZE);
            },
            Action::BgReadDataH { data_address, data_l } => {
                lemma_row_pixels(data_l, input.vram[data_address + 1], index);
            },
            _ => {},
        }
    }
}

/// The screen colour of a background pixel of colour index `index`
/// that no sprite covers.
pub open spec fn plain_color(p: Ppu, index: u8) -> Color {
    Color(Color::of_shade(mixed_color(BgPixel { index }, None, p.lcdc, p.palettes)))
}

/// Whether the unit draws a line without sprites and without the
/// window whose tiles all show colour index `index`: what waits in the
/// background queue has that index, but for the pixels that are dropped
/// for fine scrolling or leave at one of the eight hidden columns.
pub open spec fn plain_line(p: Ppu, index: u8) -> bool {
    &&& p.pipeline_wf()
    &&& p.stat.mode is PixelTransfer
    &&& p.x_pos < LCD_SIZE_X + 8
    &&& p.line_y < LCD_SIZE_Y
    &&& !p.lcdc.window_enable
    &&& !p.window_triggered
    &&& p.visible_objs.count == 0
    &&& p.obj_fifo.size == 0
    &&& line_shows(p.fetch_input(), index)
    &&& fetches_only(p.fetcher, p.fetch_input(), index)
    &&& starting(p.fetcher) ==> p.bg_fifo.size == 0 && p.x_pos == 0
    &&& forall|i: int|
        0 <= i < p.bg_fifo.size ==> (#[trigger] p.bg_fifo@[i]).index == index || i
            < p.to_discard_x || p.x_pos + i - p.to_discard_x < 8
}

/// Whether the first `columns` pixels of line `line` of the screen
/// have the colour `color`.
pub open spec fn line_painted(screen: [Color; 23040], line: int, columns: int, color: Color) -> bool {
    forall|c: int| 0 <= c < columns ==> #[trigger] screen[line * LCD_SIZE_X + c] == color
}

/// Whether the unit begins the pixel transfer of a line without
/// sprites and without the window: queues are empty, the fetcher is at
/// its start, and the pixels to drop are those of the fine scroll.
pub open spec fn line_begins(p: Ppu) -> bool {
    &&& p.pipeline_wf()
    &&& p.stat.mode is PixelTransfer
    &&& p.x_pos == 0
    &&& p.to_discard_x == p.scroll_x % 8
    &&& p.line_y < LCD_SIZE_Y
    &&& !p.lcdc.window_enable
    &&& !p.window_triggered
    &&& p.visible_objs.count == 0
    &&& p.obj_fifo.size == 0
    &&& p.bg_fifo.size == 0
    &&& p.fetcher.action is BgReadStartTile
}

/// What a line shows depends on video memory, the control register,
/// the line and the scroll registers alone.
proof fn lemma_same_line_shows(first: FetchInput, second: FetchInput, index: u8)
    requires
        line_shows(first, index),
        second.vram == first.vram,
        second.lcdc == first.lcdc,
        second.line_y == first.line_y,
        second.scroll_x == first.scroll_x,
        second.scroll_y == first.scroll_y,
        second.window_triggered == first.window_triggered,
        second.line_y_window == first.line_y_window,
    ensures
        line_shows(second, index),
{
    assert forall|column: u8| column < TILE_MAP_WIDTH implies row_shows(
        second.vram,
        second.lcdc.bg_window_addressing,
        second.vram[#[trigger] second.map_address(column)],
        second.map_line(),
        index,
    ) by {
        assert(second.map_address(column) == first.map_address(column));
    }
}

/// What a line shows does not depend on the column that the unit
/// has reached.
proof fn lemma_column_is_no_matter(input: FetchInput, fetcher: Fetcher, x_pos: u8, index: u8)
    requires
        line_shows(input, index),
        fetches_only(fetcher, input, index),
    ensures
        line_shows(FetchInput { x_pos, ..input }, index),
        fetches_only(fetcher, FetchInput { x_pos, ..input }, index),
{
    lemma_same_line_shows(input, FetchInput { x_pos, ..input }, index);
}

/// Whether two states agree on all but the fetcher, the queues, the
/// column, the pixels to drop and the screen.
pub open spec fn same_line(p: Ppu, q: Ppu) -> bool {
    &&& q.stat == p.stat
    &&& q.lcdc == p.lcdc
    &&& q.palettes == p.palettes
    &&& q.line_y == p.line_y
    &&& q.line_cycles_count == p.line_cycles_count
    &&& q.scroll_x == p.scroll_x
    &&& q.scroll_y == p.scroll_y
    &&& q.vram == p.vram
    &&& q.visible_objs == p.visible_objs
    &&& q.window_triggered == p.window_triggered
    &&& q.line_y_window == p.line_y_window
}

/// The fetcher's dot on a plain line: the line stays plain, no sprite
/// is pending, and column and screen stay.
proof fn lemma_plain_fetch(p: Ppu, index: u8)
    requires
        plain_line(p, index),
    ensures
        ({
            let f = p.window_begun().fetched();
            &&& p.window_begun() == p
            &&& !p.fetch_outcome().pending
            &&& plain_line(f, index)
            &&& same_line(p, f)
            &&& f.x_pos == p.x_pos
            &&& f.to_discard_x == p.to_discard_x
            &&& f.screen == p.screen
        }),
{
    reveal(Ppu::window_begun);
    reveal(Ppu::fetched);
    let input = p.fetch_input();
    lemma_fetch_step(p.fetcher, p.bg_fifo, p.obj_fifo, input, index);
    let out = p.fetch_outcome();
    let f = p.fetched();
    assert(f.fetch_input() == input);
    assert forall|i: int| 0 <= i < f.bg_fifo.size implies (#[trigger] f.bg_fifo@[i]).index
        == index || i < f.to_discard_x || f.x_pos + i - f.to_discard_x < 8 by {
        if out.bg_fifo == p.bg_fifo {
            assert(f.bg_fifo@[i] == p.bg_fifo@[i]);
        } else {
            assert(f.bg_fifo@[i] == out.bg_fifo.fifo[i]);
        }
    }
}

/// A pixel leaves the queue of a plain line: the line stays plain,
/// and if the pixel is shown it has the plain colour.
proof fn lemma_plain_pixel_out(f: Ppu, index: u8)
    requires
        plain_line(f, index),
        f.bg_fifo.size > 0,
        line_painted(f.screen, f.line_y as int, f.x_pos - 8, plain_color(f, index)),
    ensures
        ({
            let q = f.pixel_out(f.bg_fifo.front()->0);
            &&& q.x_pos <= LCD_SIZE_X + 8
            &&& q.x_pos < LCD_SIZE_X + 8 ==> plain_line(q, index)
            &&& same_line(f, q)
            &&& line_painted(q.screen, f.line_y as int, q.x_pos - 8, plain_color(f, index))
        }),
{
    broadcast use vstd::array::group_array_axioms;

    reveal(Ppu::pixel_out);
    let q = f.pixel_out(f.bg_fifo.front()->0);
    lemma_column_is_no_matter(f.fetch_input(), f.fetcher, q.x_pos, index);
    assert(q.fetch_input() == FetchInput { x_pos: q.x_pos, ..f.fetch_input() });
    assert(f.bg_fifo.front()->0 == f.bg_fifo@[0]);
    assert forall|i: int| 0 <= i < q.bg_fifo.size implies (#[trigger] q.bg_fifo@[i]).index
        == index || i < q.to_discard_x || q.x_pos + i - q.to_discard_x < 8 by {
        assert(q.bg_fifo@[i] == f.bg_fifo@[i + 1]);
    }
}

/// One dot of a plain line: the line stays plain, and each pixel that
/// was shown so far, or is shown by this dot, has the plain colour.
proof fn lemma_dot(p: Ppu, index: u8)
    requires
        plain_line(p, index),
        line_painted(p.screen, p.line_y as int, p.x_pos - 8, plain_color(p, index)),
    ensures
        ({
            let q = p.dotted();
            &&& q.x_pos <= LCD_SIZE_X + 8
            &&& q.x_pos < LCD_SIZE_X + 8 ==> plain_line(q, index)
            &&& same_line(p, q)
            &&& line_painted(q.screen, p.line_y as int, q.x_pos - 8, plain_color(p, index))
        }),
{
    lemma_plain_fetch(p, index);
    let f = p.window_begun().fetched();
    if f.bg_fifo.front() is Some {
        lemma_plain_pixel_out(f, index);
    }
}

/// A line without sprites and without the window whose tiles all show
/// one colour index is painted in that index's colour from its first
/// column on, whatever the scroll registers hold: the pixels dropped
/// for fine scrolling and the eight hidden columns take up what comes
/// before the tiles' own pixels. After any number of dots the columns
/// shown so far have the colour, and once the line is finished all of
/// its columns have it.
pub proof fn lemma_plain_line_is_painted(p: Ppu, index: u8, dots: nat)
    requires
        plain_line(p, index),
        line_painted(p.screen, p.line_y as int, p.x_pos - 8, plain_color(p, index)),
    ensures
        ({
            let q = p.transferred(dots);
            &&& q.line_y == p.line_y
            &&& q.line_cycles_count == p.line_cycles_count
            &&& plain_color(q, index) == plain_color(p, index)
            &&& if q.stat.mode is HBlank {
                line_painted(q.screen, p.line_y as int, LCD_SIZE_X as int, plain_color(p, index))
            } else {
                &&& plain_line(q, index)
                &&& line_painted(q.screen, p.line_y as int, q.x_pos - 8, plain_color(p, index))
            }
        }),
    decreases dots,
{
    if dots > 0 {
        reveal(Ppu::line_finished);
        lemma_dot(p, index);
        let next = p.dotted();
        if next.x_pos != LCD_SIZE_X + 8 {
            lemma_plain_line_is_painted(next, index, (dots - 1) as nat);
        }
    }
}

/// One machine cycle within a plain line, with the display on: the
/// line is finished and painted whole, or it is still plain and what
/// was shown of it so far is painted.
pub proof fn lemma_tick_paints_plain_line(p: Ppu, index: u8)
    requires
        p.lcdc.lcd_enable,
        !p.ends_line(),
        plain_line(p, index),
        line_painted(p.screen, p.line_y as int, p.x_pos - 8, plain_color(p, index)),
    ensures
        ({
            let q = p.ticked();
            &&& q.line_y == p.line_y
            &&& plain_color(q, index) == plain_color(p, index)
            &&& if q.stat.mode is HBlank {
                line_painted(q.screen, p.line_y as int, LCD_SIZE_X as int, plain_color(p, index))
            } else {
                &&& plain_line(q, index)
                &&& line_painted(q.screen, p.line_y as int, q.x_pos - 8, plain_color(p, index))
            }
        }),
{
    reveal(Ppu::line_advanced);
    lemma_plain_line_is_painted(p, index, 4);
    let worked = p.transferred(4);
    let q = p.ticked();
    assert(p.mode_worked() == worked);
    assert(!worked.ends_line());
    assert(q == Ppu { dma: super::DmaRequest::Idle, ..worked.line_advanced() });
    if !(worked.stat.mode is HBlank) {
        assert(q.fetch_input() == worked.fetch_input());
        assert(q.bg_fifo == worked.bg_fifo);
    }
}

/// How many pixels the background queue holds before a dot of a line
/// without sprites and without the window, by what the fetcher is
/// about to do: the fetcher takes eight dots for a row of eight pixels
/// and the queue loses a pixel with every dot, so the two keep step.
pub open spec fn queued_at(fetcher: Fetcher) -> int {
    let idle: int = if fetcher.waiting_cycle { 1 } else { 0 };
    match fetcher.action {
        Action::BgReadTile => 6 + idle,
        Action::BgReadDataL { tile_index } => 4 + idle,
        Action::BgReadDataH { data_address, data_l } => 2 + idle,
        Action::BgWait { pixels } => idle,
        _ => 0,
    }
}

/// How many dots pass at the start of a line before the first pixel
/// leaves the background queue.
pub open spec fn lead_in(fetcher: Fetcher) -> int {
    let idle: int = if fetcher.waiting_cycle { 1 } else { 0 };
    match fetcher.action {
        Action::BgReadStartTile => 4 + idle,
        Action::BgReadStartDataL => 2 + idle,
        Action::BgReadStartDataH => idle,
        _ => 0,
    }
}

/// Whether the unit is within the pixel transfer of a line without
/// sprites and without the window, begun with empty queues.
pub open spec fn steady_line(p: Ppu) -> bool {
    &&& p.pipeline_wf()
    &&& p.stat.mode is PixelTransfer
    &&& p.x_pos < LCD_SIZE_X + 8
    &&& p.line_y < LCD_SIZE_Y
    &&& !p.lcdc.window_enable
    &&& !p.window_triggered
    &&& p.visible_objs.count == 0
    &&& !p.fetcher.action.for_obj()
    &&& p.bg_fifo.size == queued_at(p.fetcher)
    &&& p.to_discard_x < 8
    &&& p.to_discard_x == 0 || p.x_pos == 0
    &&& starting(p.fetcher) ==> p.x_pos == 0
}

/// How many dots of pixel transfer a steady line still takes: the
/// lead-in, the pixels dropped for fine scrolling, and one dot for
/// each column that is left, the eight hidden ones among them.
pub open spec fn dots_left(p: Ppu) -> int {
    lead_in(p.fetcher) + p.to_discard_x + (LCD_SIZE_X + 8 - p.x_pos)
}

/// One dot of a steady line takes one dot off what is left of it.
proof fn lemma_steady_dot(p: Ppu)
    requires
        steady_line(p),
    ensures
        ({
            let q = p.dotted();
            &&& q.stat == p.stat
            &&& q.x_pos <= LCD_SIZE_X + 8
            &&& q.x_pos < LCD_SIZE_X + 8 ==> steady_line(q)
            &&& dots_left(q) == dots_left(p) - 1
            &&& q.x_pos > 0 ==> q.to_discard_x == 0 && lead_in(q.fetcher) == 0
        }),
{
    broadcast use vstd::array::group_array_axioms;

    reveal(Ppu::window_begun);
    reveal(Ppu::fetched);
    reveal(Ppu::pixel_out);
    reveal(Fetcher::advanced);
    reveal_with_fuel(next_obj_from, 2);
    let input = p.fetch_input();
    assert(input.next_obj(p.fetcher.drawn_objs) is None);
}

/// A line without sprites and without the window is finished after
/// exactly as many dots as are left of it, and not before: from its
/// start that is four or five dots of lead-in, the fine scroll, and
/// 168 columns.
pub proof fn lemma_steady_line_length(p: Ppu, dots: nat)
    requires
        steady_line(p),
    ensures
        p.transferred(dots).stat.mode is HBlank <==> dots >= dots_left(p),
        dots < dots_left(p) ==> steady_line(p.transferred(dots)) && dots_left(
            p.transferred(dots),
        ) == dots_left(p) - dots,
    decreases dots,
{
    if dots > 0 {
        reveal(Ppu::line_finished);
        lemma_steady_dot(p);
        let next = p.dotted();
        if next.x_pos != LCD_SIZE_X + 8 {
            lemma_steady_line_length(next, (dots - 1) as nat);
        }
    }
}

/// One machine cycle within a steady line, with the display on, takes
/// four dots off what is left of the line, and the line is finished
/// by it if no more than four were left.
pub proof fn lemma_tick_on_steady_line(p: Ppu)
    requires
        p.lcdc.lcd_enable,
        !p.ends_line(),
        steady_line(p),
    ensures
        p.ticked().stat.mode is HBlank <==> dots_left(p) <= 4,
        dots_left(p) > 4 ==> steady_line(p.ticked()) && dots_left(p.ticked()) == dots_left(p) - 4,
{
    reveal(Ppu::line_advanced);
    lemma_steady_line_length(p, 4);
    p.lemma_transferred_keeps_clock(4);
    let worked = p.transferred(4);
    let q = p.ticked();
    assert(p.mode_worked() == worked);
    assert(q == Ppu { dma: super::DmaRequest::Idle, ..worked.line_advanced() });
    if dots_left(p) > 4 {
        assert(q.fetch_input() == worked.fetch_input());
    }
}

/// A line without sprites and without the window whose tiles all show
/// colour index `index` in the row drawn is, from its start, finished
/// after 172 or 173 dots and those of the fine scroll, and then shows
/// that index's colour in all of its 160 columns, the first among
/// them, whatever the scroll registers hold.
pub proof fn lemma_scrolled_plain_line(p: Ppu, index: u8)
    requires
        line_begins(p),
        line_shows(p.fetch_input(), index),
    ensures
        dots_left(p) == 172 + p.scroll_x % 8 + (if p.fetcher.waiting_cycle { 1int } else { 0 }),
        forall|dots: nat| dots < dots_left(p) ==> !(#[trigger] p.transferred(dots).stat.mode is HBlank),
        forall|dots: nat|
            dots >= dots_left(p) ==> {
                let q = #[trigger] p.transferred(dots);
                &&& q.stat.mode is HBlank
                &&& q.line_y == p.line_y
                &&& line_painted(q.screen, p.line_y as int, LCD_SIZE_X as int, plain_color(p, index))
            },
{
    assert forall|dots: nat| true implies {
        let q = #[trigger] p.transferred(dots);
        &&& q.stat.mode is HBlank <==> dots >= dots_left(p)
        &&& q.line_y == p.line_y
        &&& q.stat.mode is HBlank ==> line_painted(
            q.screen,
            p.line_y as int,
            LCD_SIZE_X as int,
            plain_color(p, index),
        )
    } by {
        lemma_steady_line_length(p, dots);
        lemma_plain_line_is_painted(p, index, dots);
    }
}

/// Whether the unit is in the sprite search of a line on which no
/// sprite of sprite memory shows, with the display on, the window off,
/// and the pipeline at rest.
pub open spec fn line_awaits(p: Ppu) -> bool {
    &&& p.pipeline_wf()
    &&& p.lcdc.lcd_enable
    &&& p.stat.mode is OamSearch
    &&& p.line_y < LCD_SIZE_Y
    &&& p.line_cycles_count < 20
    &&& p.oam_index == 8 * p.line_cycles_count
    &&& p.x_pos == 0
    &&& !p.lcdc.window_enable
    &&& !p.window_triggered
    &&& p.visible_objs.count == 0
    &&& p.obj_fifo.size == 0
    &&& p.bg_fifo.size == 0
    &&& p.fetcher.action is BgReadStartTile
    &&& forall|slot: int| 0 <= slot < 40 ==> !p.on_line(#[trigger] p.sprite(slot))
}

/// Whether two states agree on what a line is drawn from and on the
/// screen.
pub open spec fn same_picture(p: Ppu, q: Ppu) -> bool {
    &&& q.lcdc == p.lcdc
    &&& q.palettes == p.palettes
    &&& q.line_y == p.line_y
    &&& q.scroll_x == p.scroll_x
    &&& q.scroll_y == p.scroll_y
    &&& q.vram == p.vram
    &&& q.oam == p.oam
    &&& q.line_y_window == p.line_y_window
    &&& q.fetcher.waiting_cycle == p.fetcher.waiting_cycle
    &&& q.screen == p.screen
}

/// One machine cycle of the sprite search of a line on which no
/// sprite shows: the search goes on, or with its twentieth cycle the
/// line begins.
proof fn lemma_search_tick(p: Ppu)
    requires
        line_awaits(p),
    ensures
        same_picture(p, p.ticked()),
        p.ticked().line_cycles_count == p.line_cycles_count + 1,
        p.line_cycles_count < 19 ==> line_awaits(p.ticked()),
        p.line_cycles_count == 19 ==> line_begins(p.ticked()),
{
    reveal(Ppu::oam_searched);
    reveal(Ppu::line_advanced);
    let first = p.oam_searched();
    let slot = 2 * p.line_cycles_count;
    assert(p.oam_index as int / 4 == slot);
    assert(!p.on_line(p.sprite(slot)));
    assert(first.oam_index as int / 4 == slot + 1);
    assert(first.sprite(slot + 1) == p.sprite(slot + 1));
    assert(!p.on_line(p.sprite(slot + 1)));
    let q = p.ticked();
    assert forall|slot: int| 0 <= slot < 40 implies !q.on_line(#[trigger] q.sprite(slot)) by {
        assert(q.sprite(slot) == p.sprite(slot));
        assert(!p.on_line(p.sprite(slot)));
    }
}

/// The sprite search of a line on which no sprite shows ends with the
/// twentieth machine cycle of the line, and the line begins.
proof fn lemma_search_ends(p: Ppu, count: nat)
    requires
        line_awaits(p),
        p.line_cycles_count + count <= 20,
    ensures
        same_picture(p, p.ticks(count)),
        p.ticks(count).line_cycles_count == p.line_cycles_count + count,
        p.line_cycles_count + count < 20 ==> line_awaits(p.ticks(count)),
        p.line_cycles_count + count == 20 ==> line_begins(p.ticks(count)),
    decreases count,
{
    if count > 0 {
        lemma_search_tick(p);
        if count > 1 {
            lemma_search_ends(p.ticked(), (count - 1) as nat);
        } else {
            assert(p.ticked().ticks(0) == p.ticked());
        }
    }
}

/// Machine cycles of horizontal blanking before the line's last leave
/// the screen and the mode as they are.
proof fn lemma_blanking_ticks(p: Ppu, count: nat)
    requires
        p.lcdc.lcd_enable,
        p.stat.mode is HBlank,
        p.line_cycles_count + count < CYCLES_PER_LINE,
    ensures
        p.ticks(count).stat.mode is HBlank,
        p.ticks(count).screen == p.screen,
        p.ticks(count).line_y == p.line_y,
        p.ticks(count).line_cycles_count == p.line_cycles_count + count,
    decreases count,
{
    if count > 0 {
        reveal(Ppu::line_advanced);
        lemma_blanking_ticks(p.ticked(), (count - 1) as nat);
    }
}

/// Machine cycles of a plain line before the line's last: the line is
/// finished and painted whole once four times their number reaches
/// the dots that were left, and not before.
proof fn lemma_transfer_ticks(p: Ppu, index: u8, count: nat)
    requires
        p.lcdc.lcd_enable,
        plain_line(p, index),
        steady_line(p),
        line_painted(p.screen, p.line_y as int, p.x_pos - 8, plain_color(p, index)),
        p.line_cycles_count + count < CYCLES_PER_LINE,
    ensures
        ({
            let q = p.ticks(count);
            &&& q.line_y == p.line_y
            &&& q.line_cycles_count == p.line_cycles_count + count
            &&& q.stat.mode is HBlank <==> 4 * count >= dots_left(p)
            &&& q.stat.mode is HBlank ==> line_painted(
                q.screen,
                p.line_y as int,
                LCD_SIZE_X as int,
                plain_color(p, index),
            )
        }),
    decreases count,
{
    if count > 0 {
        reveal(Ppu::line_advanced);
        lemma_tick_paints_plain_line(p, index);
        lemma_tick_on_steady_line(p);
        p.lemma_transferred_keeps_clock(4);
        p.lemma_tick_advances_frame();
        let next = p.ticked();
        assert(p.mode_worked() == p.transferred(4));
        assert(next.line_cycles_count == p.line_cycles_count + 1);
        if dots_left(p) <= 4 {
            lemma_blanking_ticks(next, (count - 1) as nat);
        } else {
            lemma_transfer_ticks(next, index, (count - 1) as nat);
        }
    }
}

/// The scrolled line as a whole. Take a line on which no sprite shows,
/// with the window off, whose tiles all show colour index `index` in
/// the row drawn, from the first machine cycle of its sprite search.
/// Its pixel transfer begins with the twentieth cycle and takes 172 or
/// 173 dots and those of the fine scroll; from then to the last cycle
/// of the line the unit is blanking and all 160 columns of the line,
/// the first among them, show that index's colour, whatever the scroll
/// registers hold.
pub proof fn lemma_plain_line_of_the_unit(p: Ppu, index: u8, count: nat)
    requires
        line_awaits(p),
        p.line_cycles_count == 0,
        line_shows(p.fetch_input(), index),
        20 <= count < CYCLES_PER_LINE,
    ensures
        ({
            let q = p.ticks(count);
            let dots = 172 + p.scroll_x % 8 + (if p.fetcher.waiting_cycle { 1int } else { 0 });
            &&& q.line_y == p.line_y
            &&& q.line_cycles_count == count
            &&& q.stat.mode is HBlank <==> 4 * (count - 20) >= dots
            &&& q.stat.mode is HBlank ==> line_painted(
                q.screen,
                p.line_y as int,
                LCD_SIZE_X as int,
                plain_color(p, index),
            )
            &&& count >= 66 ==> q.stat.mode is HBlank
        }),
{
    lemma_search_ends(p, 20);
    let begun = p.ticks(20);
    lemma_ticks_add(p, 20, (count - 20) as nat);
    assert(begun.window_triggered == p.window_triggered);
    lemma_same_line_shows(p.fetch_input(), begun.fetch_input(), index);
    lemma_transfer_ticks(begun, index, (count - 20) as nat);
}

/// Machine cycles add up.
proof fn lemma_ticks_add(p: Ppu, first: nat, then: nat)
    ensures
        p.ticks(first + then) == p.ticks(first).ticks(then),
    decreases first,
{
    if first > 0 {
        lemma_ticks_add(p.ticked(), (first - 1) as nat, then);
    }
}

/// Switching the display on, with the window off, an empty sprite
/// queue and no sprite that shows on line zero, leaves the unit at the
/// first machine cycle of the sprite search of such a line.
pub proof fn lemma_display_on_awaits(p: Ppu, value: u8)
    requires
        p.wf(),
        !p.lcdc.lcd_enable,
        value >= 128,
        !LcdControl::of_byte(value).window_enable,
        p.obj_fifo.size == 0,
        forall|slot: int|
            0 <= slot < 40 ==> !(Ppu { line_y: 0, lcdc: LcdControl::of_byte(value), ..p }).on_line(
                #[trigger] p.sprite(slot),
            ),
    ensures
        ({
            let q = p.after_register_write(LCDC, value);
            &&& line_awaits(q)
            &&& q.line_y == 0
            &&& q.line_cycles_count == 0
            &&& q.lcdc == LcdControl::of_byte(value)
            &&& q.vram == p.vram
            &&& q.palettes == p.palettes
            &&& q.scroll_x == p.scroll_x
            &&& q.scroll_y == p.scroll_y
            &&& q.fetcher.waiting_cycle == p.fetcher.waiting_cycle
        }),
{
    reveal(Ppu::after_register_write);
    reveal(Ppu::with_lcdc);
    reveal(Ppu::restarted);
    let q = p.after_register_write(LCDC, value);
    let set = Ppu { line_y: 0, lcdc: LcdControl::of_byte(value), ..p };
    assert forall|slot: int| 0 <= slot < 40 implies !q.on_line(#[trigger] q.sprite(slot)) by {
        assert(q.sprite(slot) == p.sprite(slot));
        assert(!set.on_line(p.sprite(slot)));
    }
}

} // verus!
