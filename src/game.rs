//! The game's top-level state, the per-tick systems of each state, and the
//! hooks that run when the state changes.

use vstd::prelude::*;
use crate::ascii::{Color, Sprite};
use crate::combat::{
    alive_enemy, enemy_sprite, lemma_despawn_leaves_no_enemy, lemma_spawn_gives_one_enemy,
    without_enemies, CombatEntity, CombatScene,
};
use crate::fadeout::{create_fadeout, fresh_fade, FadeStep, ScreenFade};
use crate::geometry::{Pos, Pos3, TILE_SIZE};
use crate::player::{
    encounter_check, moved, on_encounter, player_move, EncounterTracker, MoveInput, Player,
};
use crate::tilemap::{map_tiles, rows_fit, rows_view, walls_of, zones_of, Tile, TileMap};

verus! {

/// The top-level mode of the game.
#[derive(Clone, Copy, Debug, PartialEq, Eq, Hash, Structural)]
pub enum GameState {
    Overworld,
    Combat,
}

/// Glyph of the player.
pub const PLAYER_GLYPH: u32 = 2;

/// Render depth of the player.
pub const PLAYER_DEPTH: i64 = 900;

/// What the player does during one tick.
#[derive(Clone, Copy, Debug, PartialEq, Eq, Structural)]
pub struct FrameInput {
    /// Direction keys held.
    pub moves: MoveInput,
    /// The key that leaves combat was just pressed.
    pub leave_combat: bool,
}

/// The whole game.
pub struct Game {
    pub state: GameState,
    /// A state change asked for during this tick, made at its end.
    pub pending: Option<GameState>,
    pub map: TileMap,
    pub player: Player,
    /// Whether the player and what hangs from it are drawn.
    pub player_visible: bool,
    pub tracker: EncounterTracker,
    /// Centre of the view.
    pub camera: Pos,
    pub fades: Vec<ScreenFade>,
    pub combat: CombatScene,
}

/// The centre of the world.
pub open spec fn origin() -> Pos {
    Pos { x: 0, y: 0 }
}

/// The tiles `ts`, all shown (`v`) or all hidden.
pub open spec fn with_visibility(ts: Seq<Tile>, v: bool) -> Seq<Tile> {
    Seq::new(ts.len(), |i: int| Tile { sprite: Sprite { visible: v, ..ts[i].sprite }, ..ts[i] })
}

/// The fades of `fs` that a tick of `dt` does not finish, ticked.
pub open spec fn kept_fades(fs: Seq<ScreenFade>, dt: u64) -> Seq<ScreenFade>
    decreases fs.len(),
{
    if fs.len() == 0 {
        Seq::empty()
    } else if fs.last().finishes_after(dt) {
        kept_fades(fs.drop_last(), dt)
    } else {
        kept_fades(fs.drop_last(), dt).push(fs.last().after_tick(dt))
    }
}

/// The pending state after a tick of `dt` of the fades `fs`: the request of
/// the last fade that makes one, else `pending`.
pub open spec fn fade_request(fs: Seq<ScreenFade>, dt: u64, pending: Option<GameState>) -> Option<GameState>
    decreases fs.len(),
{
    if fs.len() == 0 {
        pending
    } else {
        match fs.last().request_after(dt) {
            Some(s) => Some(s),
            None => fade_request(fs.drop_last(), dt, pending),
        }
    }
}

/// The state a pending request leads to, if it is a change.
pub open spec fn transition_target(state: GameState, pending: Option<GameState>) -> Option<GameState> {
    match pending {
        Some(s) => if s != state { Some(s) } else { None },
        None => None,
    }
}

/// Hiding or showing tiles keeps their walls and encounter zones.
proof fn lemma_visibility_keeps_kinds(ts: Seq<Tile>, v: bool)
    ensures
        walls_of(with_visibility(ts, v)) == walls_of(ts),
        zones_of(with_visibility(ts, v)) == zones_of(ts),
    decreases ts.len(),
{
    if ts.len() > 0 {
        assert(with_visibility(ts, v).drop_last() == with_visibility(ts.drop_last(), v));
        lemma_visibility_keeps_kinds(ts.drop_last(), v);
    }
}

/// Entering combat with no live enemy leaves exactly one live enemy; leaving
/// combat leaves none, and nothing that hung from one.
pub proof fn lemma_combat_enemies(a: Game, b: Game)
    requires
        Game::transitioned(a, b),
    ensures
        transition_target(a.state, a.pending) == Some(GameState::Combat) && (forall|i: int|
            !alive_enemy(a.combat.entities@, i)) ==> {
            &&& alive_enemy(b.combat.entities@, a.combat.entities@.len() as int)
            &&& forall|i: int| alive_enemy(b.combat.entities@, i) ==> i == a.combat.entities@.len()
        },
        transition_target(a.state, a.pending) == Some(GameState::Overworld) ==> forall|i: int|
            !alive_enemy(b.combat.entities@, i),
{
    lemma_despawn_leaves_no_enemy(a.combat.entities@);
    if forall|i: int| !alive_enemy(a.combat.entities@, i) {
        lemma_spawn_gives_one_enemy(a.combat.entities@, enemy_sprite());
    }
}

impl Game {
    pub open spec fn wf(&self) -> bool {
        &&& self.map.wf()
        &&& self.tracker.wf()
        &&& self.combat.wf()
        &&& forall|i: int| 0 <= i < self.fades@.len() ==> (#[trigger] self.fades@[i]).wf()
    }

    /// The fades ticked by `dt` and their requests noted; nothing else moves.
    pub open spec fn fades_ticked(a: Game, b: Game, dt: u64) -> bool {
        &&& b.fades@ == kept_fades(a.fades@, dt)
        &&& b.pending == fade_request(a.fades@, dt, a.pending)
        &&& b.state == a.state
        &&& b.map == a.map
        &&& b.player == a.player
        &&& b.player_visible == a.player_visible
        &&& b.tracker == a.tracker
        &&& b.camera == a.camera
        &&& b.combat == a.combat
    }

    /// One tick of the overworld: the player moves, the view follows, and the
    /// encounter check may stop the player and start a fade into combat.
    pub open spec fn overworld_ticked(a: Game, b: Game, input: FrameInput, dt: u64) -> bool {
        let p1 = moved(a.player, input.moves, dt, a.map.colliders@);
        let runs = p1.just_moved && on_encounter(a.map.encounters@, p1.pos);
        let start = runs && a.tracker.fires_after(dt);
        &&& b.player == (if start { Player { active: false, ..p1 } } else { p1 })
        &&& b.camera == p1.pos
        &&& b.tracker == (if runs {
            EncounterTracker { elapsed: a.tracker.elapsed_after(dt) as u64, ..a.tracker }
        } else {
            a.tracker
        })
        &&& b.fades@ == (if start {
            a.fades@.push(fresh_fade(Some(GameState::Combat)))
        } else {
            a.fades@
        })
        &&& b.state == a.state
        &&& b.pending == a.pending
        &&& b.map == a.map
        &&& b.player_visible == a.player_visible
        &&& b.combat == a.combat
    }

    /// One tick of combat: the view is centred, and the leave key starts a
    /// fade back to the overworld.
    pub open spec fn combat_ticked(a: Game, b: Game, input: FrameInput) -> bool {
        &&& b.camera == origin()
        &&& b.fades@ == (if input.leave_combat {
            a.fades@.push(fresh_fade(Some(GameState::Overworld)))
        } else {
            a.fades@
        })
        &&& b.state == a.state
        &&& b.pending == a.pending
        &&& b.map == a.map
        &&& b.player == a.player
        &&& b.player_visible == a.player_visible
        &&& b.tracker == a.tracker
        &&& b.combat == a.combat
    }

    /// The pending request applied. Leaving the overworld hides the player
    /// and the map; entering combat spawns an enemy and centres the view;
    /// leaving combat despawns the enemies and all they hold; entering the
    /// overworld shows the player and the map and lets the player move.
    pub open spec fn transitioned(a: Game, b: Game) -> bool {
        &&& b.pending is None
        &&& b.tracker == a.tracker
        &&& b.fades@ == a.fades@
        &&& b.map.colliders@ == a.map.colliders@
        &&& b.map.encounters@ == a.map.encounters@
        &&& match transition_target(a.state, a.pending) {
            None => {
                &&& b.state == a.state
                &&& b.map.tiles@ == a.map.tiles@
                &&& b.player == a.player
                &&& b.player_visible == a.player_visible
                &&& b.camera == a.camera
                &&& b.combat.entities@ == a.combat.entities@
            },
            Some(GameState::Combat) => {
                &&& b.state == GameState::Combat
                &&& b.map.tiles@ == with_visibility(a.map.tiles@, false)
                &&& b.player == a.player
                &&& !b.player_visible
                &&& b.camera == origin()
                &&& b.combat.entities@ == a.combat.entities@.push(
                    CombatEntity { sprite: enemy_sprite(), parent: None, enemy: true, alive: true },
                )
            },
            Some(GameState::Overworld) => {
                &&& b.state == GameState::Overworld
                &&& b.map.tiles@ == with_visibility(a.map.tiles@, true)
                &&& b.player == (Player { active: true, ..a.player })
                &&& b.player_visible
                &&& b.camera == a.camera
                &&& b.combat.entities@ == without_enemies(a.combat.entities@)
            },
        }
    }

    /// A new game in the overworld, on the map of `rows`, with the player two
    /// cells right of and two cells below the top-left cell.
    pub fn new(rows: &Vec<Vec<char>>) -> (g: Game)
        requires
            rows_fit(rows@),
        ensures
            g.wf(),
            g.state == GameState::Overworld,
            g.pending is None,
            g.map.tiles@ == map_tiles(rows_view(rows@)),
            g.player == (Player {
                pos: Pos { x: 200, y: -200i64 },
                speed: crate::player::PLAYER_SPEED,
                active: true,
                just_moved: false,
            }),
            g.player_visible,
            g.tracker == EncounterTracker::new_spec(),
            g.camera == origin(),
            g.fades@.len() == 0,
            g.combat.entities@.len() == 0,
    {
        let map = TileMap::load(rows);
        let start = Pos { x: 2 * (TILE_SIZE as i64), y: -2 * (TILE_SIZE as i64) };
        Game {
            state: GameState::Overworld,
            pending: None,
            map,
            player: Player::new(start),
            player_visible: true,
            tracker: EncounterTracker::new(),
            camera: Pos { x: 0, y: 0 },
            fades: Vec::new(),
            combat: CombatScene::new(),
        }
    }

    /// The player's sprite, where the player stands.
    pub fn player_sprite(&self) -> (s: Sprite)
        ensures
            s == (Sprite {
                index: PLAYER_GLYPH,
                color: Color { r: 300, g: 300, b: 900, a: 1000 },
                translation: Pos3 { x: self.player.pos.x, y: self.player.pos.y, z: PLAYER_DEPTH },
                size: TILE_SIZE,
                visible: self.player_visible,
            }),
    {
        Sprite {
            index: PLAYER_GLYPH,
            color: Color { r: 300, g: 300, b: 900, a: 1000 },
            translation: Pos3 { x: self.player.pos.x, y: self.player.pos.y, z: PLAYER_DEPTH },
            size: TILE_SIZE,
            visible: self.player_visible,
        }
    }

    /// The grey cell drawn behind the player, placed relative to it and shown
    /// with it.
    pub fn background_sprite(&self) -> (s: Sprite)
        ensures
            s == (Sprite {
                index: 0,
                color: Color { r: 500, g: 500, b: 500, a: 1000 },
                translation: Pos3 { x: 0, y: 0, z: -1i64 },
                size: TILE_SIZE,
                visible: self.player_visible,
            }),
    {
        Sprite {
            index: 0,
            color: Color { r: 500, g: 500, b: 500, a: 1000 },
            translation: Pos3 { x: 0, y: 0, z: -1 },
            size: TILE_SIZE,
            visible: self.player_visible,
        }
    }

    /// Ticks every fade by `dt`, notes the state changes they ask for, and
    /// removes the fades that have run their time.
    pub fn tick_fades(&mut self, dt: u64)
        requires
            old(self).wf(),
        ensures
            final(self).wf(),
            Game::fades_ticked(*old(self), *final(self), dt),
    {
        let ghost fs = self.fades@;
        let mut pending = self.pending;
        let mut kept: Vec<ScreenFade> = Vec::new();
        let mut i: usize = 0;
        while i < self.fades.len()
            invariant
                self.fades@ == fs,
                i <= fs.len(),
                forall|j: int| 0 <= j < fs.len() ==> (#[trigger] fs[j]).wf(),
                kept@ == kept_fades(fs.take(i as int), dt),
                pending == fade_request(fs.take(i as int), dt, self.pending),
                forall|j: int| 0 <= j < kept@.len() ==> (#[trigger] kept@[j]).wf(),
            decreases fs.len() - i,
        {
            let mut f = self.fades[i];
            let step: FadeStep = f.tick(dt);
            assert(fs.take(i + 1).drop_last() == fs.take(i as int));
            assert(fs.take(i + 1).last() == fs[i as int]);
            if let Some(s) = step.next_state {
                pending = Some(s);
            }
            if !step.finished {
                kept.push(f);
            }
            i = i + 1;
        }
        assert(fs.take(fs.len() as int) == fs);
        self.fades = kept;
        self.pending = pending;
    }

    /// The overworld's systems for one tick of `dt`.
    pub fn overworld_tick(&mut self, input: FrameInput, dt: u64)
        requires
            old(self).wf(),
        ensures
            final(self).wf(),
            Game::overworld_ticked(*old(self), *final(self), input, dt),
    {
        player_move(&mut self.player, input.moves, dt, &self.map.colliders);
        self.camera = self.player.pos;
        if encounter_check(&mut self.player, &mut self.tracker, &self.map.encounters, dt) {
            self.fades.push(create_fadeout(Some(GameState::Combat)));
        }
    }

    /// Combat's systems for one tick.
    pub fn combat_tick(&mut self, input: FrameInput)
        requires
            old(self).wf(),
        ensures
            final(self).wf(),
            Game::combat_ticked(*old(self), *final(self), input),
    {
        self.camera = Pos { x: 0, y: 0 };
        if input.leave_combat {
            self.fades.push(create_fadeout(Some(GameState::Overworld)));
        }
    }

    /// Shows or hides every tile of the map.
    fn set_map_visibility(&mut self, v: bool)
        requires
            old(self).wf(),
        ensures
            final(self).wf(),
            final(self).map.tiles@ == with_visibility(old(self).map.tiles@, v),
            final(self).map.colliders@ == old(self).map.colliders@,
            final(self).map.encounters@ == old(self).map.encounters@,
            final(self).state == old(self).state,
            final(self).pending == old(self).pending,
            final(self).player == old(self).player,
            final(self).player_visible == old(self).player_visible,
            final(self).tracker == old(self).tracker,
            final(self).camera == old(self).camera,
            final(self).fades@ == old(self).fades@,
            final(self).combat.entities@ == old(self).combat.entities@,
    {
        let ghost ts = self.map.tiles@;
        let mut tiles: Vec<Tile> = Vec::new();
        let mut i: usize = 0;
        while i < self.map.tiles.len()
            invariant
                self.map.tiles@ == ts,
                i <= ts.len(),
                tiles@ == with_visibility(ts, v).take(i as int),
            decreases ts.len() - i,
        {
            let t = self.map.tiles[i];
            let mut sprite = t.sprite;
            sprite.visible = v;
            tiles.push(Tile { sprite, ..t });
            assert(with_visibility(ts, v).take(i + 1) == with_visibility(ts, v).take(i as int).push(
                Tile { sprite, ..t },
            ));
            i = i + 1;
        }
        assert(with_visibility(ts, v).take(ts.len() as int) == with_visibility(ts, v));
        proof {
            lemma_visibility_keeps_kinds(ts, v);
        }
        self.map.tiles = tiles;
    }

    /// Makes the pending state change, if it is one, running the exit hooks
    /// of the old state and the enter hooks of the new.
    pub fn apply_pending(&mut self)
        requires
            old(self).wf(),
        ensures
            final(self).wf(),
            Game::transitioned(*old(self), *final(self)),
    {
        let pending = self.pending;
        self.pending = None;
        if let Some(next) = pending {
            if next != self.state {
                match self.state {
                    GameState::Overworld => {
                        self.player_visible = false;
                        self.set_map_visibility(false);
                    },
                    GameState::Combat => {
                        self.combat.despawn_enemies();
                    },
                }
                self.state = next;
                match next {
                    GameState::Overworld => {
                        self.player.active = true;
                        self.player_visible = true;
                        self.set_map_visibility(true);
                    },
                    GameState::Combat => {
                        self.combat.spawn_enemy();
                        self.camera = Pos { x: 0, y: 0 };
                    },
                }
            }
        }
    }

    /// One whole tick of `dt` microseconds: the fades run, then the systems
    /// of the current state, and last the state change asked for, if any.
    pub fn update(&mut self, input: FrameInput, dt: u64)
        requires
            old(self).wf(),
        ensures
            final(self).wf(),
            exists|g1: Game, g2: Game|
                #![trigger Game::fades_ticked(*old(self), g1, dt), Game::transitioned(g2, *final(self))]
                {
                    &&& Game::fades_ticked(*old(self), g1, dt)
                    &&& (if g1.state == GameState::Overworld {
                        Game::overworld_ticked(g1, g2, input, dt)
                    } else {
                        Game::combat_ticked(g1, g2, input)
                    })
                    &&& Game::transitioned(g2, *final(self))
                },
    {
        self.tick_fades(dt);
        let ghost g1 = *self;
        match self.state {
            GameState::Overworld => self.overworld_tick(input, dt),
            GameState::Combat => self.combat_tick(input),
        }
        let ghost g2 = *self;
        self.apply_pending();
        assert(Game::fades_ticked(*old(self), g1, dt) && (if g1.state == GameState::Overworld {
            Game::overworld_ticked(g1, g2, input, dt)
        } else {
            Game::combat_ticked(g1, g2, input)
        }) && Game::transitioned(g2, *self));
    }
}

} // verus!
