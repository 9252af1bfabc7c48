//! The overworld map: one tile per character of a text, walls at `#` and
//! encounter zones at `~`.

use vstd::prelude::*;
use crate::ascii::{spawn_ascii_sprite, Color, Sprite};
use crate::geometry::{Pos, Pos3, TILE_SIZE};

verus! {

/// Glyph of a wall cell.
pub const WALL_GLYPH: char = '#';

/// Glyph of an encounter cell.
pub const ENCOUNTER_GLYPH: char = '~';

/// Render depth of map tiles.
pub const TILE_DEPTH: i64 = 100;

/// Largest number of rows, and of characters in a row, that a map may have.
pub const MAX_MAP_SIDE: usize = 1_000_000_000;

/// Grey of map glyphs, in thousandths.
pub const TILE_SHADE: u16 = 900;

/// A wall tile, at the centre of its cell.
#[derive(Clone, Copy, Debug, PartialEq, Eq, Structural)]
pub struct SimpleTileCollider {
    pub pos: Pos,
}

/// An encounter tile, at the centre of its cell.
#[derive(Clone, Copy, Debug, PartialEq, Eq, Structural)]
pub struct EncounterSpawner {
    pub pos: Pos,
}

/// One map cell.
#[derive(Clone, Copy, Debug, PartialEq, Eq, Structural)]
pub struct Tile {
    pub glyph: char,
    pub sprite: Sprite,
}

/// All tiles of a map, in reading order, with the walls and encounter zones
/// among them.
pub struct TileMap {
    pub tiles: Vec<Tile>,
    pub colliders: Vec<SimpleTileCollider>,
    pub encounters: Vec<EncounterSpawner>,
}

/// Centre of the cell in column `x` of row `y`.
pub open spec fn cell_pos(x: int, y: int) -> Pos {
    Pos { x: (x * TILE_SIZE) as i64, y: (-y * TILE_SIZE) as i64 }
}

/// The tile for character `c` in column `x` of row `y`.
pub open spec fn tile_of(c: char, x: int, y: int) -> Tile {
    Tile {
        glyph: c,
        sprite: Sprite {
            index: c as u32,
            color: Color { r: TILE_SHADE, g: TILE_SHADE, b: TILE_SHADE, a: 1000 },
            translation: Pos3 { x: cell_pos(x, y).x, y: cell_pos(x, y).y, z: TILE_DEPTH },
            size: TILE_SIZE,
            visible: true,
        },
    }
}

/// The tiles of row `y`, left to right.
pub open spec fn row_tiles(row: Seq<char>, y: int) -> Seq<Tile> {
    Seq::new(row.len(), |x: int| tile_of(row[x], x, y))
}

/// The tiles of all rows, top to bottom.
pub open spec fn map_tiles(rows: Seq<Seq<char>>) -> Seq<Tile>
    decreases rows.len(),
{
    if rows.len() == 0 {
        Seq::empty()
    } else {
        map_tiles(rows.drop_last()) + row_tiles(rows.last(), rows.len() - 1)
    }
}

/// Position of a tile's cell.
pub open spec fn tile_pos(t: Tile) -> Pos {
    Pos { x: t.sprite.translation.x, y: t.sprite.translation.y }
}

/// The walls among `tiles`, in order.
pub open spec fn walls_of(tiles: Seq<Tile>) -> Seq<SimpleTileCollider>
    decreases tiles.len(),
{
    if tiles.len() == 0 {
        Seq::empty()
    } else if tiles.last().glyph == WALL_GLYPH {
        walls_of(tiles.drop_last()).push(SimpleTileCollider { pos: tile_pos(tiles.last()) })
    } else {
        walls_of(tiles.drop_last())
    }
}

/// The encounter zones among `tiles`, in order.
pub open spec fn zones_of(tiles: Seq<Tile>) -> Seq<EncounterSpawner>
    decreases tiles.len(),
{
    if tiles.len() == 0 {
        Seq::empty()
    } else if tiles.last().glyph == ENCOUNTER_GLYPH {
        zones_of(tiles.drop_last()).push(EncounterSpawner { pos: tile_pos(tiles.last()) })
    } else {
        zones_of(tiles.drop_last())
    }
}

/// The characters of each row.
pub open spec fn rows_view(rows: Seq<Vec<char>>) -> Seq<Seq<char>> {
    rows.map_values(|r: Vec<char>| r@)
}

/// No more rows than `MAX_MAP_SIDE`, and no row longer.
pub open spec fn rows_fit(rows: Seq<Vec<char>>) -> bool {
    &&& rows.len() <= MAX_MAP_SIDE
    &&& forall|y: int| 0 <= y < rows.len() ==> #[trigger] rows[y]@.len() <= MAX_MAP_SIDE
}

impl TileMap {
    /// The walls and encounter zones are those among the tiles.
    pub open spec fn wf(&self) -> bool {
        &&& self.colliders@ == walls_of(self.tiles@)
        &&& self.encounters@ == zones_of(self.tiles@)
    }

    /// Builds the map of a text given as its rows: every character becomes a
    /// tile, whatever it is.
    pub fn load(rows: &Vec<Vec<char>>) -> (m: TileMap)
        requires
            rows_fit(rows@),
        ensures
            m.tiles@ == map_tiles(rows_view(rows@)),
            m.wf(),
    {
        let mut tiles: Vec<Tile> = Vec::new();
        let mut colliders: Vec<SimpleTileCollider> = Vec::new();
        let mut encounters: Vec<EncounterSpawner> = Vec::new();
        let mut y: usize = 0;
        while y < rows.len()
            invariant
                y <= rows@.len(),
                rows_fit(rows@),
                tiles@ == map_tiles(rows_view(rows@).take(y as int)),
                colliders@ == walls_of(tiles@),
                encounters@ == zones_of(tiles@),
            decreases rows@.len() - y,
        {
            let row = &rows[y];
            assert(row@.len() <= MAX_MAP_SIDE);
            let ghost before = tiles@;
            let mut x: usize = 0;
            while x < row.len()
                invariant
                    y < rows@.len(),
                    row == rows@[y as int],
                    x <= row@.len(),
                    row@.len() <= MAX_MAP_SIDE,
                    y < MAX_MAP_SIDE,
                    tiles@ == before + row_tiles(row@, y as int).take(x as int),
                    colliders@ == walls_of(tiles@),
                    encounters@ == zones_of(tiles@),
                decreases row@.len() - x,
            {
                let c = row[x];
                let shade = Color { r: TILE_SHADE, g: TILE_SHADE, b: TILE_SHADE, a: 1000 };
                let px: i64 = (x as i64) * (TILE_SIZE as i64);
                let py: i64 = -((y as i64) * (TILE_SIZE as i64));
                let sprite = spawn_ascii_sprite(c as u32, shade, Pos3 { x: px, y: py, z: TILE_DEPTH });
                let tile = Tile { glyph: c, sprite };
                assert(px == x * TILE_SIZE && py == -y * TILE_SIZE);
                assert(tile == tile_of(row@[x as int], x as int, y as int));
                let ghost prev = tiles@;
                tiles.push(tile);
                assert(tiles@.drop_last() == prev);
                if c == WALL_GLYPH {
                    colliders.push(SimpleTileCollider { pos: Pos { x: px, y: py } });
                }
                if c == ENCOUNTER_GLYPH {
                    encounters.push(EncounterSpawner { pos: Pos { x: px, y: py } });
                }
                assert(row_tiles(row@, y as int).take(x + 1) == row_tiles(row@, y as int).take(x as int).push(tile));
                x = x + 1;
            }
            proof {
                let rv = rows_view(rows@);
                assert(rv.take(y + 1).drop_last() == rv.take(y as int));
                assert(row_tiles(row@, y as int).take(x as int) == row_tiles(row@, y as int));
                assert(rv.take(y + 1).last() == row@);
            }
            y = y + 1;
        }
        assert(rows_view(rows@).take(rows@.len() as int) == rows_view(rows@));
        TileMap { tiles, colliders, encounters }
    }
}

} // verus!
