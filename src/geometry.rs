//! World coordinates and the axis-aligned box test shared by movement and
//! encounter detection.

use vstd::prelude::*;

verus! {

/// Side of one map cell, in world units.
pub const TILE_SIZE: u32 = 100;

/// Side of the player's box when tested against walls: 90% of a cell.
pub const PLAYER_WALL_BOX: u32 = 90;

/// A point of the plane, in world units; y grows upwards.
#[derive(Clone, Copy, Debug, PartialEq, Eq, Structural)]
pub struct Pos {
    pub x: i64,
    pub y: i64,
}

/// A point with a render depth.
#[derive(Clone, Copy, Debug, PartialEq, Eq, Structural)]
pub struct Pos3 {
    pub x: i64,
    pub y: i64,
    pub z: i64,
}

/// Two boxes, centred at `a` and `b` with sides `sa` and `sb`, share interior
/// points: on each axis the distance of the centres is under half the sum of
/// the sides.
pub open spec fn overlaps(a: Pos, sa: int, b: Pos, sb: int) -> bool {
    &&& 2 * a.x - sa < 2 * b.x + sb
    &&& 2 * a.x + sa > 2 * b.x - sb
    &&& 2 * a.y - sa < 2 * b.y + sb
    &&& 2 * a.y + sa > 2 * b.y - sb
}

/// Whether the box of side `sa` centred at `a` and the box of side `sb`
/// centred at `b` overlap.
pub fn collide(a: Pos, sa: u32, b: Pos, sb: u32) -> (r: bool)
    ensures
        r == overlaps(a, sa as int, b, sb as int),
{
    let ax: i128 = 2 * (a.x as i128);
    let ay: i128 = 2 * (a.y as i128);
    let bx: i128 = 2 * (b.x as i128);
    let by: i128 = 2 * (b.y as i128);
    let sa: i128 = sa as i128;
    let sb: i128 = sb as i128;
    ax - sa < bx + sb && ax + sa > bx - sb && ay - sa < by + sb && ay + sa > by - sb
}

/// The player, about to stand at `target`, would touch the wall tile at
/// `wall`: the player's box is shrunk to 90% of a cell, the wall's is a cell.
pub open spec fn hits_wall(target: Pos, wall: Pos) -> bool {
    overlaps(target, PLAYER_WALL_BOX as int, wall, TILE_SIZE as int)
}

/// The player at `target`, at full cell size, touches the tile at `tile`.
pub open spec fn touches_tile(target: Pos, tile: Pos) -> bool {
    overlaps(target, TILE_SIZE as int, tile, TILE_SIZE as int)
}

/// Whether a player at `target` would touch the wall tile at `wall`.
pub fn wall_collision_check(target: Pos, wall: Pos) -> (r: bool)
    ensures
        r == hits_wall(target, wall),
{
    collide(target, PLAYER_WALL_BOX, wall, TILE_SIZE)
}

/// Whether a player at `target` touches the tile at `tile`.
pub fn tile_overlap_check(target: Pos, tile: Pos) -> (r: bool)
    ensures
        r == touches_tile(target, tile),
{
    collide(target, TILE_SIZE, tile, TILE_SIZE)
}

} // verus!
