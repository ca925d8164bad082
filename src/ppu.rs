use vstd::prelude::*;

verus! {

/// Size of the whole address space, and of a bus image.
pub const MEMORY_SIZE: usize = 0x10000;

/// First address of video RAM; tile data starts here.
pub const VRAM_BEGIN: u16 = 0x8000;

/// Background tile map when the BGTileMap control flag is clear.
pub const BGMAP0_ADDRESS: u16 = 0x9800;

/// Background tile map when the BGTileMap control flag is set.
pub const BGMAP1_ADDRESS: u16 = 0x9C00;

/// Number of tiles held in video RAM.
pub const TILE_COUNT: u16 = 384;

/// The pre-palette value (0..=3) of pixel (`row`, `col`) of tile `tile`, decoded
/// from the two bit planes that the tile's row occupies in video RAM.
pub open spec fn tile_pixel(mem: Seq<u8>, tile: int, row: int, col: int) -> u8 {
    let addr = 0x8000 + tile * 16 + row * 2;
    let lo = mem[addr];
    let hi = mem[addr + 1];
    let shift = (7 - col) as u8;
    (((hi >> shift) & 1u8) * 2 + ((lo >> shift) & 1u8)) as u8
}

/// Base address of the background tile map that a control byte selects.
pub open spec fn bg_map_base(control: u8) -> u16 {
    if control & 0x08u8 != 0 {
        BGMAP1_ADDRESS
    } else {
        BGMAP0_ADDRESS
    }
}

/// The pre-palette value of pixel (`x`, `y`) of the 256x256 background.
pub open spec fn bg_pixel(mem: Seq<u8>, control: u8, x: int, y: int) -> u8 {
    let tile = mem[bg_map_base(control) + (y / 8) * 32 + x / 8];
    tile_pixel(mem, tile as int, y % 8, x % 8)
}

/// Decodes one pixel of a tile straight from video RAM.
pub fn tile_pixel_value(mem: &Vec<u8>, tile: u16, row: u8, col: u8) -> (r: u8)
    requires
        mem@.len() == MEMORY_SIZE,
        tile < TILE_COUNT,
        row < 8,
        col < 8,
    ensures
        r == tile_pixel(mem@, tile as int, row as int, col as int),
        r < 4,
{
    let addr: usize = 0x8000 + (tile as usize) * 16 + (row as usize) * 2;
    let lo = mem[addr];
    let hi = mem[addr + 1];
    let shift: u8 = 7 - col;
    let h = (hi >> shift) & 1;
    let l = (lo >> shift) & 1;
    assert(h <= 1 && l <= 1) by (bit_vector)
        requires
            h == (hi >> shift) & 1u8,
            l == (lo >> shift) & 1u8,
    ;
    h * 2 + l
}

/// The background tile map base that a control byte selects.
pub fn background_map_base(control: u8) -> (r: u16)
    ensures
        r == bg_map_base(control),
{
    if control & 0x08 != 0 {
        BGMAP1_ADDRESS
    } else {
        BGMAP0_ADDRESS
    }
}

/// Resolves pixel (`x`, `y`) of the background through the tile map.
pub fn background_pixel(mem: &Vec<u8>, control: u8, x: u8, y: u8) -> (r: u8)
    requires
        mem@.len() == MEMORY_SIZE,
    ensures
        r == bg_pixel(mem@, control, x as int, y as int),
        r < 4,
{
    let base = background_map_base(control);
    let tile = mem[base as usize + (y as usize / 8) * 32 + x as usize / 8];
    tile_pixel_value(mem, tile as u16, y % 8, x % 8)
}

} // verus!
