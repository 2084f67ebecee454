//! How the map is drawn: one tile per cell and the look of each.

use vstd::prelude::*;
use vstd::arithmetic::div_mod::lemma_fundamental_div_mod_converse;
use crate::map::{CurrentMap, GridPos, MapView};
use crate::terrain::Field;

verus! {

/// Edge length of a square tile, in pixels.
pub const TILE_SIZE: u32 = 16;

/// The image that holds the tile textures side by side.
pub const TILE_SHEET: &'static str = "tiles.png";

/// Texture of every impassable cell.
pub const IMPASSABLE_TEXTURE: u32 = 2;

/// The texture a cell is drawn with. Passable cells form a checkerboard of the
/// textures 0 and 1, by the parity of `x + y`; impassable cells all look alike.
pub open spec fn spec_texture_index(field: Field, x: int, y: int) -> int {
    match field {
        Field::Passable => (x + y) % 2,
        Field::Impassable => 2,
    }
}

/// The texture that the cell at `pos` is drawn with, given its terrain.
pub fn texture_index(field: Field, pos: GridPos) -> (index: u32)
    ensures
        index == spec_texture_index(field, pos.x as int, pos.y as int),
{
    match field {
        Field::Passable => (pos.x % 2 + pos.y % 2) % 2,
        Field::Impassable => IMPASSABLE_TEXTURE,
    }
}

/// A passable cell is never drawn like an impassable one, and the texture of
/// any cell is one of 0, 1 and 2.
pub proof fn lemma_texture_index_range(field: Field, x: int, y: int)
    ensures
        0 <= spec_texture_index(field, x, y) <= 2,
        spec_texture_index(field, x, y) == 2 <==> field == Field::Impassable,
{
}

/// Passable cells keep their texture along a diagonal step.
pub proof fn lemma_checkerboard_diagonal(x: int, y: int)
    ensures
        spec_texture_index(Field::Passable, x + 1, y + 1) == spec_texture_index(
            Field::Passable,
            x,
            y,
        ),
{
}

/// Passable cells that share an edge differ in texture.
pub proof fn lemma_checkerboard_neighbours(x: int, y: int)
    ensures
        spec_texture_index(Field::Passable, x + 1, y) != spec_texture_index(Field::Passable, x, y),
        spec_texture_index(Field::Passable, x, y + 1) != spec_texture_index(Field::Passable, x, y),
{
}

/// One tile of the drawn map: where it goes and which texture it shows.
#[derive(Clone, Copy, Debug, PartialEq, Eq, Structural)]
pub struct TilePlacement {
    pub pos: GridPos,
    pub texture_index: u32,
}

/// The tile drawn for the cell `(x, y)` of `map`.
pub open spec fn spec_tile(map: MapView, x: int, y: int) -> TilePlacement {
    TilePlacement {
        pos: GridPos { x: x as u32, y: y as u32 },
        texture_index: spec_texture_index(map.at(x, y), x, y) as u32,
    }
}

/// The tiles of `map` in the order they are laid: column by column, and
/// within a column from row 0 upwards. Tile number `k` belongs to column
/// `k / height` and row `k % height`.
pub open spec fn spec_tile_layout(map: MapView) -> Seq<TilePlacement> {
    Seq::new(
        map.width * map.height,
        |k: int| spec_tile(map, k / (map.height as int), k % (map.height as int)),
    )
}

/// The tile of the cell `(x, y)` is number `x * height + y` of the layout.
pub proof fn lemma_tile_layout_at(map: MapView, x: int, y: int)
    requires
        map.in_bounds(x, y),
    ensures
        0 <= x * map.height + y < spec_tile_layout(map).len(),
        spec_tile_layout(map)[x * map.height + y] == spec_tile(map, x, y),
{
    let h = map.height as int;
    let w = map.width as int;
    let k = x * h + y;
    assert(0 <= x * h && x * h + h <= w * h) by (nonlinear_arith)
        requires
            0 <= x < w,
            0 <= h,
    ;
    lemma_fundamental_div_mod_converse(k, h, x, y);
}

/// Lays out one tile per cell of `map`, column by column.
pub fn tile_layout(map: &CurrentMap) -> (tiles: Vec<TilePlacement>)
    ensures
        tiles@ == spec_tile_layout(map@),
{
    let width = map.width();
    let height = map.height();
    let mut tiles: Vec<TilePlacement> = Vec::new();
    let mut x: u32 = 0;
    while x < width
        invariant
            map@.wf(),
            width == map@.width,
            height == map@.height,
            x <= width,
            tiles@.len() == x * height,
            forall|k: int| 0 <= k < tiles@.len() ==> tiles@[k] == spec_tile_layout(map@)[k],
        decreases width - x,
    {
        let mut y: u32 = 0;
        while y < height
            invariant
                map@.wf(),
                width == map@.width,
                height == map@.height,
                x < width,
                y <= height,
                tiles@.len() == x * height + y,
                forall|k: int| 0 <= k < tiles@.len() ==> tiles@[k] == spec_tile_layout(map@)[k],
            decreases height - y,
        {
            let pos = GridPos { x, y };
            let tile = TilePlacement { pos, texture_index: texture_index(map.get(pos), pos) };
            proof {
                lemma_tile_layout_at(map@, x as int, y as int);
            }
            tiles.push(tile);
            y += 1;
        }
        assert(x * height + height == (x + 1) * height) by (nonlinear_arith);
        x += 1;
    }
    assert(width * height == map@.width * map@.height);
    assert(tiles@ =~= spec_tile_layout(map@));
    tiles
}

} // verus!
