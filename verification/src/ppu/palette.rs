use crate::ppu::ppu::PPU;
use crate::ppu::state::PpuState;
use vstd::prelude::*;

verus! {

/// The place in nametable memory of the attribute byte that colours the
/// background tile in column `tile_column` of row `tile_row`.
pub open spec fn attribute_index(tile_column: int, tile_row: int) -> int {
    0x03C0 + tile_row / 4 * 8 + tile_column / 4
}

/// The background palette, 0 to 3, that an attribute byte gives the tile
/// in column `tile_column` of row `tile_row`. The byte holds two bits for
/// each quarter of a block of four by four tiles: the top left quarter in
/// bits 0-1, the top right in bits 2-3, the bottom left in bits 4-5 and
/// the bottom right in bits 6-7.
pub open spec fn attribute_palette(attribute: u8, tile_column: int, tile_row: int) -> u8 {
    if tile_column % 4 / 2 == 0 && tile_row % 4 / 2 == 0 {
        attribute % 4
    } else if tile_row % 4 / 2 == 0 {
        attribute / 4 % 4
    } else if tile_column % 4 / 2 == 0 {
        attribute / 16 % 4
    } else {
        attribute / 64
    }
}

/// The four colours of the background tile in column `tile_column` of row
/// `tile_row`: the backdrop colour and the three colours of the palette
/// that the attribute byte selects.
pub open spec fn background_palette(ppu: PpuState, tile_column: int, tile_row: int) -> Seq<u8> {
    let start = 1 + 4 * attribute_palette(
        ppu.vram[attribute_index(tile_column, tile_row)],
        tile_column,
        tile_row,
    );
    seq![ppu.palette[0], ppu.palette[start], ppu.palette[start + 1], ppu.palette[start + 2]]
}

/// The four colours of sprite palette `index`: colour 0 stands for
/// "transparent" and is given as 0.
pub open spec fn sprite_colors(ppu: PpuState, index: u8) -> Seq<u8> {
    let start = 0x11 + 4 * index;
    seq![0u8, ppu.palette[start], ppu.palette[start + 1], ppu.palette[start + 2]]
}

pub fn get_bg_palette(ppu: &PPU, tile_column: usize, tile_row: usize) -> (colors: [u8; 4])
    requires
        ppu@.wf(),
        tile_column < 32,
        tile_row < 32,
    ensures
        colors@ == background_palette(ppu@, tile_column as int, tile_row as int),
{
    let attr_byte = ppu.read_vram(0x03C0 + (tile_row / 4 * 8 + tile_column / 4));
    let palette_idx = if tile_column % 4 / 2 == 0 && tile_row % 4 / 2 == 0 {
        attr_byte % 4
    } else if tile_row % 4 / 2 == 0 {
        attr_byte / 4 % 4
    } else if tile_column % 4 / 2 == 0 {
        attr_byte / 16 % 4
    } else {
        attr_byte / 64
    };
    let palette_start: usize = 1 + palette_idx as usize * 4;
    let colors = [
        ppu.read_palette_table(0),
        ppu.read_palette_table(palette_start),
        ppu.read_palette_table(palette_start + 1),
        ppu.read_palette_table(palette_start + 2),
    ];
    assert(colors@ =~= background_palette(ppu@, tile_column as int, tile_row as int));
    colors
}

pub fn sprite_palette(ppu: &PPU, palette_idx: u8) -> (colors: [u8; 4])
    requires
        ppu@.wf(),
        palette_idx < 4,
    ensures
        colors@ == sprite_colors(ppu@, palette_idx),
{
    let start: usize = 0x11 + palette_idx as usize * 4;
    let colors = [
        0,
        ppu.read_palette_table(start),
        ppu.read_palette_table(start + 1),
        ppu.read_palette_table(start + 2),
    ];
    assert(colors@ =~= sprite_colors(ppu@, palette_idx));
    colors
}

} // verus!
