//! The player: movement resolved one axis at a time against wall tiles, and
//! the encounter timer that runs while the player walks over encounter tiles.

use vstd::prelude::*;
use crate::geometry::{hits_wall, tile_overlap_check, touches_tile, wall_collision_check, Pos, TILE_SIZE};
use crate::tilemap::{EncounterSpawner, SimpleTileCollider};

verus! {

/// Microseconds in a second.
pub const MICROS_PER_SECOND: u64 = 1_000_000;

/// Walking speed of a new player, in cells per second.
pub const PLAYER_SPEED: u32 = 3;

/// Time spent walking over encounter tiles before an encounter, in
/// microseconds.
pub const ENCOUNTER_PERIOD: u64 = 1_000_000;

/// The player's movement state; `pos` is the centre of its box.
#[derive(Clone, Copy, Debug, PartialEq, Eq, Structural)]
pub struct Player {
    pub pos: Pos,
    pub speed: u32,
    pub active: bool,
    pub just_moved: bool,
}

/// The direction keys held down during a tick.
#[derive(Clone, Copy, Debug, PartialEq, Eq, Structural)]
pub struct MoveInput {
    pub up: bool,
    pub down: bool,
    pub left: bool,
    pub right: bool,
}

/// A repeating timer: time walked over encounter tiles since the last
/// encounter, in microseconds. It pauses, keeping its time, while the player
/// stands still or walks elsewhere; it is never reset.
#[derive(Clone, Copy, Debug, PartialEq, Eq, Structural)]
pub struct EncounterTracker {
    pub elapsed: u64,
    pub period: u64,
}

/// Distance covered on one axis in `dt` microseconds at `speed` cells per
/// second, in world units, rounded down.
pub open spec fn step_len(speed: u32, dt: u64) -> int {
    (speed as int * TILE_SIZE as int * dt as int) / MICROS_PER_SECOND as int
}

/// Horizontal move of a tick: right adds a step, left takes one away.
pub open spec fn x_delta(input: MoveInput, s: int) -> int {
    (if input.right { s } else { 0 }) - (if input.left { s } else { 0 })
}

/// Vertical move of a tick: up adds a step, down takes one away.
pub open spec fn y_delta(input: MoveInput, s: int) -> int {
    (if input.up { s } else { 0 }) - (if input.down { s } else { 0 })
}

/// `v` is a coordinate that the world can hold.
pub open spec fn in_i64(v: int) -> bool {
    i64::MIN <= v <= i64::MAX
}

/// The point (x, y) lies in the representable world and the player's box
/// there touches no wall.
pub open spec fn free_at(walls: Seq<SimpleTileCollider>, x: int, y: int) -> bool {
    &&& in_i64(x)
    &&& in_i64(y)
    &&& forall|i: int| 0 <= i < walls.len() ==> !hits_wall(Pos { x: x as i64, y: y as i64 }, #[trigger] walls[i].pos)
}

/// The player after one tick of input: the x move is tried first and kept
/// only if the place is free, then the y move from where x left it.
pub open spec fn moved(p: Player, input: MoveInput, dt: u64, walls: Seq<SimpleTileCollider>) -> Player {
    if !p.active {
        Player { just_moved: false, ..p }
    } else {
        let s = step_len(p.speed, dt);
        let dx = x_delta(input, s);
        let dy = y_delta(input, s);
        let x_ok = free_at(walls, p.pos.x + dx, p.pos.y as int);
        let x1: int = if x_ok { p.pos.x + dx } else { p.pos.x as int };
        let y_ok = free_at(walls, x1, p.pos.y + dy);
        let y1: int = if y_ok { p.pos.y + dy } else { p.pos.y as int };
        Player {
            pos: Pos { x: x1 as i64, y: y1 as i64 },
            just_moved: (x_ok && dx != 0) || (y_ok && dy != 0),
            ..p
        }
    }
}

/// Movement never brings the player into a wall: each axis move that a tick
/// keeps lands where the player's box (at 90% of a cell) touches no wall
/// tile, and so does the position the tick ends at whenever it changed.
pub proof fn lemma_move_never_enters_wall(
    p: Player,
    input: MoveInput,
    dt: u64,
    walls: Seq<SimpleTileCollider>,
)
    ensures
        ({
            let q = moved(p, input, dt, walls);
            &&& q.pos.x != p.pos.x ==> free_at(walls, q.pos.x as int, p.pos.y as int)
            &&& q.pos.y != p.pos.y ==> free_at(walls, q.pos.x as int, q.pos.y as int)
            &&& q.pos != p.pos ==> forall|i: int|
                0 <= i < walls.len() ==> !hits_wall(q.pos, #[trigger] walls[i].pos)
        }),
{
}

/// Axes are resolved one at a time: a diagonal move blocked on one axis
/// alone still makes the move on the other.
pub proof fn lemma_slide_along_wall(
    p: Player,
    input: MoveInput,
    dt: u64,
    walls: Seq<SimpleTileCollider>,
)
    requires
        p.active,
    ensures
        ({
            let s = step_len(p.speed, dt);
            let dx = x_delta(input, s);
            let dy = y_delta(input, s);
            let q = moved(p, input, dt, walls);
            &&& !free_at(walls, p.pos.x + dx, p.pos.y as int) && free_at(walls, p.pos.x as int, p.pos.y + dy)
                ==> q.pos.x == p.pos.x && q.pos.y == p.pos.y + dy && q.just_moved == (dy != 0)
            &&& free_at(walls, p.pos.x + dx, p.pos.y as int) && !free_at(walls, p.pos.x + dx, p.pos.y + dy)
                ==> q.pos.x == p.pos.x + dx && q.pos.y == p.pos.y && q.just_moved == (dx != 0)
        }),
{
}

/// The X move of a tick is kept exactly when the player's box at the X
/// candidate touches no wall tile (for a candidate the world can hold).
pub proof fn lemma_x_move_kept_iff_clear(
    p: Player,
    input: MoveInput,
    dt: u64,
    walls: Seq<SimpleTileCollider>,
)
    requires
        p.active,
        in_i64(p.pos.x + x_delta(input, step_len(p.speed, dt))),
    ensures
        ({
            let cx = p.pos.x + x_delta(input, step_len(p.speed, dt));
            moved(p, input, dt, walls).pos.x == if exists|i: int|
                0 <= i < walls.len() && hits_wall(Pos { x: cx as i64, y: p.pos.y }, #[trigger] walls[i].pos) {
                p.pos.x as int
            } else {
                cx
            }
        }),
{
}

/// A diagonal move blocked by a wall on one axis alone still makes the move
/// on the other axis, and counts as movement.
pub proof fn lemma_diagonal_slide(
    p: Player,
    input: MoveInput,
    dt: u64,
    walls: Seq<SimpleTileCollider>,
)
    requires
        p.active,
        x_delta(input, step_len(p.speed, dt)) != 0,
        y_delta(input, step_len(p.speed, dt)) != 0,
        in_i64(p.pos.x + x_delta(input, step_len(p.speed, dt))),
        in_i64(p.pos.y + y_delta(input, step_len(p.speed, dt))),
    ensures
        ({
            let dx = x_delta(input, step_len(p.speed, dt));
            let dy = y_delta(input, step_len(p.speed, dt));
            let q = moved(p, input, dt, walls);
            let at_x = Pos { x: (p.pos.x + dx) as i64, y: p.pos.y };
            let at_y = Pos { x: p.pos.x, y: (p.pos.y + dy) as i64 };
            let at_xy = Pos { x: (p.pos.x + dx) as i64, y: (p.pos.y + dy) as i64 };
            &&& (exists|i: int| 0 <= i < walls.len() && hits_wall(at_x, #[trigger] walls[i].pos))
                && (forall|i: int| 0 <= i < walls.len() ==> !hits_wall(at_y, #[trigger] walls[i].pos))
                ==> q.pos == at_y && q.just_moved
            &&& (forall|i: int| 0 <= i < walls.len() ==> !hits_wall(at_x, #[trigger] walls[i].pos))
                && (exists|i: int| 0 <= i < walls.len() && hits_wall(at_xy, #[trigger] walls[i].pos))
                ==> q.pos == at_x && q.just_moved
        }),
{
}

/// An inactive player neither moves nor counts as moving, so the encounter
/// timer stands still until the player is let go again.
pub proof fn lemma_inactive_player_stays(
    p: Player,
    input: MoveInput,
    dt: u64,
    walls: Seq<SimpleTileCollider>,
)
    requires
        !p.active,
    ensures
        moved(p, input, dt, walls).pos == p.pos,
        !moved(p, input, dt, walls).just_moved,
{
}

/// Whether the player at (x, y) is in the world and clear of every wall.
fn is_free(walls: &Vec<SimpleTileCollider>, x: i128, y: i128) -> (r: bool)
    ensures
        r == free_at(walls@, x as int, y as int),
{
    if x < i64::MIN as i128 || x > i64::MAX as i128 || y < i64::MIN as i128 || y > i64::MAX as i128 {
        return false;
    }
    let target = Pos { x: x as i64, y: y as i64 };
    let mut i: usize = 0;
    while i < walls.len()
        invariant
            i <= walls@.len(),
            target == (Pos { x: x as i64, y: y as i64 }),
            forall|j: int| 0 <= j < i ==> !hits_wall(target, #[trigger] walls@[j].pos),
        decreases walls@.len() - i,
    {
        if wall_collision_check(target, walls[i].pos) {
            return false;
        }
        i = i + 1;
    }
    true
}

impl Player {
    /// A player at `pos`, at the starting speed, free to move.
    pub fn new(pos: Pos) -> (p: Player)
        ensures
            p == (Player { pos, speed: PLAYER_SPEED, active: true, just_moved: false }),
    {
        Player { pos, speed: PLAYER_SPEED, active: true, just_moved: false }
    }
}

/// One tick of movement: `dt` microseconds with `input` held, against the
/// walls `walls`.
pub fn player_move(player: &mut Player, input: MoveInput, dt: u64, walls: &Vec<SimpleTileCollider>)
    ensures
        *final(player) == moved(*old(player), input, dt, walls@),
{
    player.just_moved = false;
    if !player.active {
        return;
    }
    assert(player.speed as int * TILE_SIZE as int <= 0xffff_ffff * 100) by (nonlinear_arith)
        requires
            player.speed <= 0xffff_ffff,
            TILE_SIZE == 100,
    ;
    let sp: u128 = (player.speed as u128) * (TILE_SIZE as u128);
    assert(sp * dt <= 0xffff_ffff * 100 * 0xffff_ffff_ffff_ffff) by (nonlinear_arith)
        requires
            sp <= 0xffff_ffff * 100,
            dt <= 0xffff_ffff_ffff_ffff,
    ;
    let prod: u128 = sp * (dt as u128);
    let s: i128 = (prod / (MICROS_PER_SECOND as u128)) as i128;
    let mut dx: i128 = 0;
    if input.right {
        dx = dx + s;
    }
    if input.left {
        dx = dx - s;
    }
    let mut dy: i128 = 0;
    if input.up {
        dy = dy + s;
    }
    if input.down {
        dy = dy - s;
    }
    let tx: i128 = player.pos.x as i128 + dx;
    if is_free(walls, tx, player.pos.y as i128) {
        if dx != 0 {
            player.just_moved = true;
        }
        player.pos.x = tx as i64;
    }
    let ty: i128 = player.pos.y as i128 + dy;
    if is_free(walls, player.pos.x as i128, ty) {
        if dy != 0 {
            player.just_moved = true;
        }
        player.pos.y = ty as i64;
    }
}

/// The player is over some encounter tile, at full cell size.
pub open spec fn on_encounter(zones: Seq<EncounterSpawner>, pos: Pos) -> bool {
    exists|i: int| 0 <= i < zones.len() && touches_tile(pos, #[trigger] zones[i].pos)
}

/// Whether the player at `pos` is over some encounter tile.
pub fn over_encounter(zones: &Vec<EncounterSpawner>, pos: Pos) -> (r: bool)
    ensures
        r == on_encounter(zones@, pos),
{
    let mut i: usize = 0;
    while i < zones.len()
        invariant
            i <= zones@.len(),
            forall|j: int| 0 <= j < i ==> !touches_tile(pos, #[trigger] zones@[j].pos),
        decreases zones@.len() - i,
    {
        if tile_overlap_check(pos, zones[i].pos) {
            return true;
        }
        i = i + 1;
    }
    false
}

impl EncounterTracker {
    pub open spec fn wf(&self) -> bool {
        0 < self.period && self.elapsed < self.period
    }

    /// The elapsed time after `dt` more microseconds: past the period it
    /// wraps around.
    pub open spec fn elapsed_after(&self, dt: u64) -> int {
        (self.elapsed + dt) % (self.period as int)
    }

    /// `dt` more microseconds reach the end of the period.
    pub open spec fn fires_after(&self, dt: u64) -> bool {
        self.elapsed + dt >= self.period
    }

    pub open spec fn new_spec() -> EncounterTracker {
        EncounterTracker { elapsed: 0, period: ENCOUNTER_PERIOD }
    }

    /// A tracker at the start of a period of `ENCOUNTER_PERIOD`.
    pub fn new() -> (t: EncounterTracker)
        ensures
            t == EncounterTracker::new_spec(),
            t.wf(),
    {
        EncounterTracker { elapsed: 0, period: ENCOUNTER_PERIOD }
    }

    /// Advances the timer by `dt` microseconds; true when a period ended.
    pub fn tick(&mut self, dt: u64) -> (fired: bool)
        requires
            old(self).wf(),
        ensures
            final(self).wf(),
            final(self).period == old(self).period,
            final(self).elapsed == old(self).elapsed_after(dt),
            fired == old(self).fires_after(dt),
    {
        let total: u128 = self.elapsed as u128 + dt as u128;
        let wrapped: u128 = total % (self.period as u128);
        self.elapsed = wrapped as u64;
        total >= self.period as u128
    }
}

/// Total of the times `dts`.
pub open spec fn total_time(dts: Seq<u64>) -> int
    decreases dts.len(),
{
    if dts.len() == 0 {
        0
    } else {
        total_time(dts.drop_last()) + dts.last()
    }
}

/// The tracker after running ticks of `dts`, one after another.
pub open spec fn run_tracker(t: EncounterTracker, dts: Seq<u64>) -> EncounterTracker
    decreases dts.len(),
{
    if dts.len() == 0 {
        t
    } else {
        let before = run_tracker(t, dts.drop_last());
        EncounterTracker { elapsed: before.elapsed_after(dts.last()) as u64, ..before }
    }
}

/// Some tick of `dts` completes a period.
pub open spec fn fired_in(t: EncounterTracker, dts: Seq<u64>) -> bool
    decreases dts.len(),
{
    if dts.len() == 0 {
        false
    } else {
        fired_in(t, dts.drop_last()) || run_tracker(t, dts.drop_last()).fires_after(dts.last())
    }
}

/// Until the walked time reaches the period, the tracker just adds it up and
/// no tick fires.
pub proof fn lemma_tracker_adds_up(t: EncounterTracker, dts: Seq<u64>)
    requires
        t.wf(),
        t.elapsed + total_time(dts) < t.period,
    ensures
        run_tracker(t, dts).elapsed == t.elapsed + total_time(dts),
        run_tracker(t, dts).period == t.period,
        !fired_in(t, dts),
    decreases dts.len(),
{
    if dts.len() > 0 {
        lemma_tracker_adds_up(t, dts.drop_last());
        let e = run_tracker(t, dts.drop_last()).elapsed + dts.last();
        vstd::arithmetic::div_mod::lemma_small_mod(e as nat, t.period as nat);
    }
}

/// Over frames in each of which the player moves over an encounter tile,
/// the encounter comes on the first frame by which the walked time reaches
/// the period, and on no frame before it.
pub proof fn lemma_encounter_on_first_full_period(t: EncounterTracker, dts: Seq<u64>)
    requires
        t.wf(),
        dts.len() > 0,
        t.elapsed + total_time(dts.drop_last()) < t.period,
    ensures
        !fired_in(t, dts.drop_last()),
        run_tracker(t, dts.drop_last()).fires_after(dts.last()) == (t.elapsed + total_time(dts) >= t.period),
{
    lemma_tracker_adds_up(t, dts.drop_last());
}

/// One tick of encounter detection, after the player has moved. Only when
/// the player moved this tick and stands over an encounter tile does the
/// timer run; when it completes a period the player stops and the result
/// asks for a fade into combat.
pub fn encounter_check(
    player: &mut Player,
    tracker: &mut EncounterTracker,
    zones: &Vec<EncounterSpawner>,
    dt: u64,
) -> (start_combat: bool)
    requires
        old(tracker).wf(),
    ensures
        final(tracker).wf(),
        final(tracker).period == old(tracker).period,
        ({
            let runs = old(player).just_moved && on_encounter(zones@, old(player).pos);
            &&& runs ==> final(tracker).elapsed == old(tracker).elapsed_after(dt)
            &&& !runs ==> *final(tracker) == *old(tracker)
            &&& start_combat == (runs && old(tracker).fires_after(dt))
            &&& *final(player) == (if start_combat {
                Player { active: false, ..*old(player) }
            } else {
                *old(player)
            })
        }),
{
    if player.just_moved && over_encounter(zones, player.pos) {
        if tracker.tick(dt) {
            player.active = false;
            return true;
        }
    }
    false
}

} // verus!
