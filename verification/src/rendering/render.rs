use crate::bits::{bit_is_set, bit_weight, test_bit};
use crate::ppu::palette::{background_palette, get_bg_palette, sprite_colors, sprite_palette};
use crate::ppu::ppu::{name_table_ranges, PPU};
use crate::ppu::register::pattern_table;
use crate::ppu::state::PpuState;
use crate::rendering::frame::{with_pixel, Frame};
use crate::rendering::palette::{color_of, system_color};
use crate::rom::Mirroring;
use core::ops::Range;
use vstd::prelude::*;

verus! {

/// Background tiles in one nametable: 30 rows of 32.
pub const TILES_PER_TABLE: usize = 960;

/// A rectangle of pixels: the columns from `x1` up to, but without, `x2`
/// and the rows from `y1` up to, but without, `y2`.
#[derive(Clone, Copy, PartialEq, Eq, Structural, Debug)]
pub struct ViewPort {
    pub x1: usize,
    pub y1: usize,
    pub x2: usize,
    pub y2: usize,
}

impl ViewPort {
    pub open spec fn contains(self, x: int, y: int) -> bool {
        self.x1 <= x < self.x2 && self.y1 <= y < self.y2
    }

    pub fn new(x1: usize, y1: usize, x2: usize, y2: usize) -> (view_port: ViewPort)
        ensures
            view_port == (ViewPort { x1, y1, x2, y2 }),
    {
        ViewPort { x1, y1, x2, y2 }
    }

    pub fn holds(&self, x: usize, y: usize) -> (inside: bool)
        ensures
            inside == self.contains(x as int, y as int),
    {
        x >= self.x1 && x < self.x2 && y >= self.y1 && y < self.y2
    }
}

/// The colour number, 0 to 3, of the pixel in column `x` of row `y` of a
/// pattern of 16 bytes. The first eight bytes hold the low bit of each
/// pixel and the last eight the high bit; the leftmost pixel is in bit 7.
pub open spec fn pattern_pixel(pattern: Seq<u8>, x: int, y: int) -> int {
    bit_weight(1, bit_is_set(pattern[y + 8], 7 - x)) + bit_weight(
        0,
        bit_is_set(pattern[y], 7 - x),
    )
}

/// One nametable to paint: where it starts in nametable memory, the part
/// of it that shows, and how far that part is moved on the frame.
pub struct Layer {
    pub start: int,
    pub view_port: ViewPort,
    pub shift_x: int,
    pub shift_y: int,
}

/// The frame after the pixel in column `x` of row `y` of background tile
/// `tile` was painted: where the pixel shows, the frame takes the colour
/// that the pattern and the palette of the tile give it.
pub open spec fn background_pixel(
    frame: Seq<u8>,
    ppu: PpuState,
    layer: Layer,
    tile: int,
    x: int,
    y: int,
) -> Seq<u8> {
    let pattern = ppu.pattern(
        pattern_table(bit_is_set(ppu.ctrl, 4)),
        ppu.vram[layer.start + tile] as int,
    );
    let colors = background_palette(ppu, tile % 32, tile / 32);
    let pixel_x = tile % 32 * 8 + x;
    let pixel_y = tile / 32 * 8 + y;
    if layer.view_port.contains(pixel_x, pixel_y) {
        with_pixel(
            frame,
            layer.shift_x + pixel_x,
            layer.shift_y + pixel_y,
            system_color(colors[pattern_pixel(pattern, x, y)]),
        )
    } else {
        frame
    }
}

/// The frame after the first `steps` pixels of a nametable were painted.
/// The tiles come in the order of nametable memory, the rows of a tile
/// from top to bottom and the pixels of a row from right to left.
pub open spec fn paint_background(frame: Seq<u8>, ppu: PpuState, layer: Layer, steps: nat) -> Seq<
    u8,
>
    decreases steps,
{
    if steps == 0 {
        frame
    } else {
        let step = steps - 1;
        background_pixel(
            paint_background(frame, ppu, layer, step as nat),
            ppu,
            layer,
            step / 64,
            7 - step % 8,
            step % 64 / 8,
        )
    }
}

/// The frame after the pixel in column `x` of row `y` of sprite `sprite`
/// was painted. Colour number 0 is transparent. Bit 6 of the sprite's
/// attributes flips it horizontally, bit 7 vertically, and bits 0-1 pick
/// its palette.
pub open spec fn sprite_pixel(frame: Seq<u8>, ppu: PpuState, sprite: int, x: int, y: int) -> Seq<
    u8,
> {
    let base = sprite * 4;
    let attributes = ppu.oam[base + 2];
    let pattern = ppu.pattern(pattern_table(bit_is_set(ppu.ctrl, 3)), ppu.oam[base + 1] as int);
    let value = pattern_pixel(pattern, x, y);
    let colors = sprite_colors(ppu, attributes % 4);
    let column = ppu.oam[base + 3] + (if bit_is_set(attributes, 6) {
        7 - x
    } else {
        x
    });
    let row = ppu.oam[base] + (if bit_is_set(attributes, 7) {
        7 - y
    } else {
        y
    });
    if value == 0 {
        frame
    } else {
        with_pixel(frame, column, row, system_color(colors[value]))
    }
}

/// The frame after the first `steps` sprite pixels were painted. The
/// sprites come from the last to the first, so that sprite 0 ends up on
/// top; the rows of a sprite come from top to bottom and the pixels of a
/// row from right to left.
pub open spec fn paint_sprites(frame: Seq<u8>, ppu: PpuState, steps: nat) -> Seq<u8>
    decreases steps,
{
    if steps == 0 {
        frame
    } else {
        let step = steps - 1;
        sprite_pixel(
            paint_sprites(frame, ppu, step as nat),
            ppu,
            63 - step / 64,
            7 - step % 8,
            step % 64 / 8,
        )
    }
}

/// The frame after the background was painted: the nametable that PPUCTRL
/// selects, moved by the scroll, and in the gap that this leaves the
/// nametable beside it.
pub open spec fn paint_scrolled(frame: Seq<u8>, ppu: PpuState) -> Seq<u8> {
    let tables = name_table_ranges(ppu.mirroring, ppu.ctrl);
    let scroll_x = ppu.scroll_x as int;
    let scroll_y = ppu.scroll_y as int;
    let main = paint_background(
        frame,
        ppu,
        Layer {
            start: tables.0.start as int,
            view_port: ViewPort { x1: ppu.scroll_x as usize, y1: ppu.scroll_y as usize, x2: 256, y2: 240 },
            shift_x: -scroll_x,
            shift_y: -scroll_y,
        },
        61440,
    );
    if scroll_x > 0 {
        paint_background(
            main,
            ppu,
            Layer {
                start: tables.1.start as int,
                view_port: ViewPort { x1: 0, y1: 0, x2: ppu.scroll_x as usize, y2: 240 },
                shift_x: 256 - scroll_x,
                shift_y: 0,
            },
            61440,
        )
    } else if scroll_y > 0 {
        paint_background(
            main,
            ppu,
            Layer {
                start: tables.1.start as int,
                view_port: ViewPort { x1: 0, y1: 0, x2: 256, y2: ppu.scroll_y as usize },
                shift_x: 0,
                shift_y: 240 - scroll_y,
            },
            61440,
        )
    } else {
        main
    }
}

/// The frame that shows what the PPU holds: the scrolled background with
/// the 64 sprites on top.
pub open spec fn rendered(frame: Seq<u8>, ppu: PpuState) -> Seq<u8> {
    paint_sprites(paint_scrolled(frame, ppu), ppu, 4096)
}

fn pixel_value(pattern: &[u8], x: usize, y: usize) -> (value: u8)
    requires
        pattern@.len() == 16,
        x < 8,
        y < 8,
    ensures
        value == pattern_pixel(pattern@, x as int, y as int),
        value < 4,
{
    let bit: u8 = 7 - x as u8;
    let upper = pattern[y];
    let lower = pattern[y + 8];
    let mut value: u8 = 0;
    if test_bit(lower, bit) {
        value = value + 2;
    }
    if test_bit(upper, bit) {
        value = value + 1;
    }
    value
}

/// Sets the pixel that lies `shift_x` columns and `shift_y` rows from
/// column `x` of row `y`, where that is a pixel of the frame.
fn plot(frame: &mut Frame, shift_x: isize, x: usize, shift_y: isize, y: usize, rgb: (u8, u8, u8))
    requires
        old(frame)@.len() == 184320,
        x < 0x8000,
        y < 0x8000,
    ensures
        final(frame)@ == with_pixel(old(frame)@, shift_x + x, shift_y + y, rgb),
        final(frame)@.len() == 184320,
{
    let column = shift_x.checked_add(x as isize);
    let row = shift_y.checked_add(y as isize);
    match (column, row) {
        (Some(column), Some(row)) => {
            if column >= 0 && row >= 0 {
                frame.set_pixel(column as usize, row as usize, rgb);
            }
        },
        _ => {},
    }
}

/// Paints the pixel in column `x` of row `y` of background tile `tile`,
/// whose pattern and palette the caller has fetched.
fn render_background_pixel(
    ppu: &PPU,
    frame: &mut Frame,
    pattern: &[u8],
    palette: &[u8; 4],
    view_port: &ViewPort,
    shift_x: isize,
    shift_y: isize,
    tile: usize,
    x: usize,
    y: usize,
    Ghost(layer): Ghost<Layer>,
)
    requires
        old(frame)@.len() == 184320,
        tile < 960,
        x < 8,
        y < 8,
        layer.view_port == *view_port,
        layer.shift_x == shift_x,
        layer.shift_y == shift_y,
        pattern@ == ppu@.pattern(
            pattern_table(bit_is_set(ppu@.ctrl, 4)),
            ppu@.vram[layer.start + tile] as int,
        ),
        pattern@.len() == 16,
        palette@ == background_palette(ppu@, tile as int % 32, tile as int / 32),
    ensures
        final(frame)@ == background_pixel(old(frame)@, ppu@, layer, tile as int, x as int, y as int),
        final(frame)@.len() == 184320,
{
    let value = pixel_value(pattern, x, y);
    let rgb = color_of(palette[value as usize]);
    let pixel_x = tile % 32 * 8 + x;
    let pixel_y = tile / 32 * 8 + y;
    if view_port.holds(pixel_x, pixel_y) {
        plot(frame, shift_x, pixel_x, shift_y, pixel_y, rgb);
    }
}

/// Paints the part of one nametable that lies within `view_port`, moved by
/// `shift_x` columns and `shift_y` rows.
#[verifier::rlimit(50)]
pub fn render_name_table(
    ppu: &PPU,
    frame: &mut Frame,
    name_table_range: Range<usize>,
    view_port: ViewPort,
    shift_x: isize,
    shift_y: isize,
)
    requires
        ppu@.wf(),
        old(frame)@.len() == 184320,
        name_table_range.start + 960 <= name_table_range.end,
        name_table_range.end <= 2048,
    ensures
        final(frame)@ == paint_background(
            old(frame)@,
            ppu@,
            Layer {
                start: name_table_range.start as int,
                view_port,
                shift_x: shift_x as int,
                shift_y: shift_y as int,
            },
            61440,
        ),
        final(frame)@.len() == 184320,
{
    let ghost layer = Layer {
        start: name_table_range.start as int,
        view_port,
        shift_x: shift_x as int,
        shift_y: shift_y as int,
    };
    let mut i: usize = 0;
    while i < TILES_PER_TABLE
        invariant
            i <= 960,
            ppu@.wf(),
            frame@.len() == 184320,
            name_table_range.start + 960 <= name_table_range.end,
            name_table_range.end <= 2048,
            layer.start == name_table_range.start,
            layer.view_port == view_port,
            layer.shift_x == shift_x,
            layer.shift_y == shift_y,
            frame@ == paint_background(old(frame)@, ppu@, layer, (i * 64) as nat),
        decreases 960 - i,
    {
        let tile_x = i % 32;
        let tile_y = i / 32;
        let tile = ppu.read_tile(i, &name_table_range);
        let palette = get_bg_palette(ppu, tile_x, tile_y);
        let mut y: usize = 0;
        while y < 8
            invariant
                i < 960,
                y <= 8,
                tile_x == i % 32,
                tile_y == i / 32,
                ppu@.wf(),
                frame@.len() == 184320,
                layer.start == name_table_range.start,
                layer.view_port == view_port,
                layer.shift_x == shift_x,
                layer.shift_y == shift_y,
                tile@ == ppu@.pattern(
                    pattern_table(bit_is_set(ppu@.ctrl, 4)),
                    ppu@.vram[layer.start + i] as int,
                ),
                tile@.len() == 16,
                palette@ == background_palette(ppu@, tile_x as int, tile_y as int),
                frame@ == paint_background(old(frame)@, ppu@, layer, (i * 64 + y * 8) as nat),
            decreases 8 - y,
        {
            let mut step: usize = 0;
            while step < 8
                invariant
                    i < 960,
                    y < 8,
                    step <= 8,
                    tile_x == i % 32,
                    tile_y == i / 32,
                    ppu@.wf(),
                    frame@.len() == 184320,
                    layer.start == name_table_range.start,
                    layer.view_port == view_port,
                    layer.shift_x == shift_x,
                    layer.shift_y == shift_y,
                    tile@ == ppu@.pattern(
                        pattern_table(bit_is_set(ppu@.ctrl, 4)),
                        ppu@.vram[layer.start + i] as int,
                    ),
                    tile@.len() == 16,
                    palette@ == background_palette(ppu@, tile_x as int, tile_y as int),
                    frame@ == paint_background(
                        old(frame)@,
                        ppu@,
                        layer,
                        (i * 64 + y * 8 + step) as nat,
                    ),
                decreases 8 - step,
            {
                let ghost done = (i * 64 + y * 8 + step) as int;
                assert(done / 64 == i && done % 8 == step && done % 64 / 8 == y);
                render_background_pixel(
                    ppu,
                    frame,
                    tile,
                    &palette,
                    &view_port,
                    shift_x,
                    shift_y,
                    i,
                    7 - step,
                    y,
                    Ghost(layer),
                );
                step += 1;
            }
            y += 1;
        }
        i += 1;
    }
}

/// Paints the pixel in column `x` of row `y` of sprite `sprite`.
fn render_sprite_pixel(ppu: &PPU, frame: &mut Frame, sprite: usize, x: usize, y: usize)
    requires
        ppu@.wf(),
        old(frame)@.len() == 184320,
        sprite < 64,
        x < 8,
        y < 8,
    ensures
        final(frame)@ == sprite_pixel(old(frame)@, ppu@, sprite as int, x as int, y as int),
        final(frame)@.len() == 184320,
{
    let i = sprite * 4;
    let tile_idx = ppu.read_oamdata(i + 1) as usize;
    let tile_x = ppu.read_oamdata(i + 3) as usize;
    let tile_y = ppu.read_oamdata(i) as usize;
    let attributes = ppu.read_oamdata(i + 2);
    let sprite_tile = ppu.read_sprite_tile(tile_idx);
    let value = pixel_value(sprite_tile, x, y);
    if value != 0 {
        let sprite_palette = sprite_palette(ppu, attributes % 4);
        let rgb = color_of(sprite_palette[value as usize]);
        let column = if test_bit(attributes, 6) {
            tile_x + 7 - x
        } else {
            tile_x + x
        };
        let row = if test_bit(attributes, 7) {
            tile_y + 7 - y
        } else {
            tile_y + y
        };
        frame.set_pixel(column, row, rgb);
    }
}

/// Paints the 64 sprites, the last one first.
#[verifier::rlimit(50)]
fn render_sprites(ppu: &PPU, frame: &mut Frame)
    requires
        ppu@.wf(),
        old(frame)@.len() == 184320,
    ensures
        final(frame)@ == paint_sprites(old(frame)@, ppu@, 4096),
        final(frame)@.len() == 184320,
{
    let mut count: usize = 0;
    while count < 64
        invariant
            count <= 64,
            ppu@.wf(),
            frame@.len() == 184320,
            frame@ == paint_sprites(old(frame)@, ppu@, (count * 64) as nat),
        decreases 64 - count,
    {
        let mut y: usize = 0;
        while y < 8
            invariant
                count < 64,
                y <= 8,
                ppu@.wf(),
                frame@.len() == 184320,
                frame@ == paint_sprites(old(frame)@, ppu@, (count * 64 + y * 8) as nat),
            decreases 8 - y,
        {
            let mut step: usize = 0;
            while step < 8
                invariant
                    count < 64,
                    y < 8,
                    step <= 8,
                    ppu@.wf(),
                    frame@.len() == 184320,
                    frame@ == paint_sprites(
                        old(frame)@,
                        ppu@,
                        (count * 64 + y * 8 + step) as nat,
                    ),
                decreases 8 - step,
            {
                let ghost done = (count * 64 + y * 8 + step) as int;
                assert(done / 64 == count && done % 8 == step && done % 64 / 8 == y);
                render_sprite_pixel(ppu, frame, 63 - count, 7 - step, y);
                step += 1;
            }
            y += 1;
        }
        count += 1;
    }
}

/// Paints what the PPU holds onto the frame: the background, moved by the
/// scroll, and the sprites on top of it.
pub fn render(ppu: &PPU, frame: &mut Frame)
    requires
        ppu@.wf(),
        ppu@.mirroring != Mirroring::FourScreen,
        old(frame)@.len() == 184320,
    ensures
        final(frame)@ == rendered(old(frame)@, ppu@),
        final(frame)@.len() == 184320,
{
    let (main_name_table, second_name_table) = ppu.get_name_table_ranges();
    let scroll_x = ppu.get_x_scroll() as usize;
    let scroll_y = ppu.get_y_scroll() as usize;
    render_name_table(
        ppu,
        frame,
        main_name_table,
        ViewPort::new(scroll_x, scroll_y, 256, 240),
        -(scroll_x as isize),
        -(scroll_y as isize),
    );
    if scroll_x > 0 {
        render_name_table(
            ppu,
            frame,
            second_name_table,
            ViewPort::new(0, 0, scroll_x, 240),
            (256 - scroll_x) as isize,
            0,
        );
    } else if scroll_y > 0 {
        render_name_table(
            ppu,
            frame,
            second_name_table,
            ViewPort::new(0, 0, 256, scroll_y),
            0,
            240 - scroll_y as isize,
        );
    }
    render_sprites(ppu, frame);
}

} // verus!
