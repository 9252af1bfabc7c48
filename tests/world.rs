use tile_rpg::ascii::{spawn_ascii_sprite, Color};
use tile_rpg::combat::CombatScene;
use tile_rpg::fadeout::{create_fadeout, FADE_DURATION};
use tile_rpg::game::{FrameInput, Game, GameState};
use tile_rpg::geometry::{collide, tile_overlap_check, wall_collision_check, Pos, Pos3};
use tile_rpg::player::{encounter_check, player_move, EncounterTracker, MoveInput, Player};
use tile_rpg::tilemap::TileMap;

fn rows(lines: &[&str]) -> Vec<Vec<char>> {
    lines.iter().map(|l| l.chars().collect()).collect()
}

fn small_map() -> TileMap {
    TileMap::load(&rows(&["####", "#.~#", "####"]))
}

const NONE: MoveInput = MoveInput { up: false, down: false, left: false, right: false };
const LEFT: MoveInput = MoveInput { up: false, down: false, left: true, right: false };
const RIGHT: MoveInput = MoveInput { up: false, down: false, left: false, right: true };
const UP: MoveInput = MoveInput { up: true, down: false, left: false, right: false };
const DOWN: MoveInput = MoveInput { up: false, down: true, left: false, right: false };

/// Time for the starting speed to cover exactly one cell.
const ONE_CELL: u64 = 333_334;

/// One frame at 60 per second.
const FRAME: u64 = 16_667;

#[test]
fn collide_edges() {
    let a = Pos { x: 0, y: 0 };
    assert!(collide(a, 100, Pos { x: 99, y: 0 }, 100));
    assert!(!collide(a, 100, Pos { x: 100, y: 0 }, 100));
    assert!(!collide(a, 100, Pos { x: 0, y: -100 }, 100));
    assert!(collide(a, 100, Pos { x: -99, y: 99 }, 100));
    assert!(wall_collision_check(Pos { x: 94, y: 0 }, a));
    assert!(!wall_collision_check(Pos { x: 95, y: 0 }, a));
    assert!(tile_overlap_check(Pos { x: 95, y: 0 }, a));
    assert!(!tile_overlap_check(Pos { x: 100, y: 0 }, a));
}

#[test]
fn load_map_tiles_and_tags() {
    let m = small_map();
    assert_eq!(m.tiles.len(), 12);
    assert_eq!(m.tiles[5].glyph, '.');
    assert_eq!(m.tiles[5].sprite.index, '.' as u32);
    assert_eq!(m.tiles[5].sprite.translation, Pos3 { x: 100, y: -100, z: 100 });
    assert_eq!(m.tiles[11].sprite.translation, Pos3 { x: 300, y: -200, z: 100 });
    assert_eq!(m.colliders.len(), 10);
    assert_eq!(m.colliders[4].pos, Pos { x: 0, y: -100 });
    assert_eq!(m.colliders[5].pos, Pos { x: 300, y: -100 });
    assert_eq!(m.encounters.len(), 1);
    assert_eq!(m.encounters[0].pos, Pos { x: 200, y: -100 });
}

#[test]
fn load_map_keeps_unknown_glyphs_and_empty_rows() {
    let m = TileMap::load(&rows(&["a", "", "b~"]));
    assert_eq!(m.tiles.len(), 3);
    assert_eq!(m.tiles[1].glyph, 'b');
    assert_eq!(m.tiles[1].sprite.translation, Pos3 { x: 0, y: -200, z: 100 });
    assert_eq!(m.colliders.len(), 0);
    assert_eq!(m.encounters[0].pos, Pos { x: 100, y: -200 });
    assert_eq!(TileMap::load(&Vec::new()).tiles.len(), 0);
}

#[test]
fn moves_into_walls_leave_player_in_place() {
    let m = small_map();
    for input in [LEFT, UP, DOWN] {
        let mut p = Player::new(Pos { x: 100, y: -100 });
        player_move(&mut p, input, ONE_CELL, &m.colliders);
        assert_eq!(p.pos, Pos { x: 100, y: -100 });
        assert!(!p.just_moved);
    }
}

#[test]
fn move_onto_open_cell_is_committed() {
    let m = small_map();
    let mut p = Player::new(Pos { x: 100, y: -100 });
    player_move(&mut p, RIGHT, ONE_CELL, &m.colliders);
    assert_eq!(p.pos, Pos { x: 200, y: -100 });
    assert!(p.just_moved);
}

#[test]
fn small_step_towards_wall_stops_short_of_it() {
    let m = small_map();
    let mut p = Player::new(Pos { x: 100, y: -100 });
    player_move(&mut p, LEFT, FRAME, &m.colliders);
    assert_eq!(p.pos, Pos { x: 95, y: -100 });
    player_move(&mut p, LEFT, FRAME, &m.colliders);
    assert_eq!(p.pos, Pos { x: 95, y: -100 });
    for w in m.colliders.iter() {
        assert!(!wall_collision_check(p.pos, w.pos));
    }
}

#[test]
fn diagonal_move_slides_along_wall() {
    let m = small_map();
    let mut p = Player::new(Pos { x: 100, y: -100 });
    let up_right = MoveInput { up: true, down: false, left: false, right: true };
    player_move(&mut p, up_right, ONE_CELL, &m.colliders);
    assert_eq!(p.pos, Pos { x: 200, y: -100 });
    assert!(p.just_moved);
    let mut q = Player::new(Pos { x: 200, y: -100 });
    let up_left = MoveInput { up: true, down: false, left: true, right: false };
    player_move(&mut q, up_left, ONE_CELL, &m.colliders);
    assert_eq!(q.pos, Pos { x: 100, y: -100 });
}

#[test]
fn inactive_player_does_not_move() {
    let m = small_map();
    let mut p = Player::new(Pos { x: 100, y: -100 });
    p.active = false;
    p.just_moved = true;
    player_move(&mut p, RIGHT, ONE_CELL, &m.colliders);
    assert_eq!(p.pos, Pos { x: 100, y: -100 });
    assert!(!p.just_moved);
}

#[test]
fn opposite_keys_cancel() {
    let m = small_map();
    let mut p = Player::new(Pos { x: 100, y: -100 });
    let both = MoveInput { up: false, down: false, left: true, right: true };
    player_move(&mut p, both, ONE_CELL, &m.colliders);
    assert_eq!(p.pos, Pos { x: 100, y: -100 });
    assert!(!p.just_moved);
}

#[test]
fn standing_on_encounter_tile_does_not_advance_timer() {
    let m = small_map();
    let mut p = Player::new(Pos { x: 200, y: -100 });
    let mut t = EncounterTracker::new();
    for _ in 0..3 {
        player_move(&mut p, NONE, 1_000_000, &m.colliders);
        assert!(!encounter_check(&mut p, &mut t, &m.encounters, 1_000_000));
    }
    assert_eq!(t.elapsed, 0);
    assert!(p.active);
}

#[test]
fn walking_on_encounter_tile_fires_after_one_period() {
    let m = small_map();
    let mut p = Player::new(Pos { x: 200, y: -100 });
    let mut t = EncounterTracker::new();
    let mut fired_at = None;
    for i in 0..100u32 {
        let input = if i % 2 == 0 { LEFT } else { RIGHT };
        player_move(&mut p, input, FRAME, &m.colliders);
        assert!(p.just_moved);
        if encounter_check(&mut p, &mut t, &m.encounters, FRAME) {
            fired_at = Some(i);
            break;
        }
    }
    assert_eq!(fired_at, Some(59));
    assert!(!p.active);
    assert_eq!(t.elapsed, 60 * FRAME - 1_000_000);
}

#[test]
fn moving_off_encounter_tiles_pauses_timer() {
    let m = small_map();
    let mut p = Player::new(Pos { x: 100, y: -100 });
    let mut t = EncounterTracker { elapsed: 400_000, period: 1_000_000 };
    player_move(&mut p, LEFT, FRAME, &m.colliders);
    assert!(!encounter_check(&mut p, &mut t, &m.encounters, FRAME));
    assert_eq!(t.elapsed, 400_000);
}

#[test]
fn encounter_timer_wraps() {
    let mut t = EncounterTracker::new();
    assert!(!t.tick(999_999));
    assert_eq!(t.elapsed, 999_999);
    assert!(t.tick(2_000_002));
    assert_eq!(t.elapsed, 1);
    assert!(t.tick(u64::MAX));
}

#[test]
fn fade_alpha_rises_and_falls() {
    let mut f = create_fadeout(Some(GameState::Combat));
    assert_eq!(f.alpha, 0);
    assert_eq!(f.duration, FADE_DURATION);
    let s = f.tick(250_000);
    assert_eq!(f.alpha, 500);
    assert_eq!(s.next_state, None);
    let s = f.tick(250_000);
    assert_eq!(f.alpha, 1000);
    assert_eq!(s.next_state, None);
    assert!(!f.sent);
    let s = f.tick(1);
    assert_eq!(s.next_state, Some(GameState::Combat));
    assert!(f.sent);
    assert_eq!(f.alpha, 999);
    let s = f.tick(249_999);
    assert_eq!(f.alpha, 500);
    assert_eq!(s.next_state, None);
    assert!(!s.finished);
    let s = f.tick(300_000);
    assert_eq!(f.alpha, 0);
    assert_eq!(f.sprite.color.a, 0);
    assert_eq!(s.next_state, None);
    assert!(s.finished);
    let s = f.tick(300_000);
    assert!(!s.finished);
    assert_eq!(s.next_state, None);
}

#[test]
fn fade_requests_once_in_one_long_tick() {
    let mut f = create_fadeout(Some(GameState::Overworld));
    let s = f.tick(5_000_000);
    assert_eq!(s.next_state, Some(GameState::Overworld));
    assert!(s.finished);
    assert_eq!(f.alpha, 0);
    let mut g = create_fadeout(None);
    let s = g.tick(600_000);
    assert_eq!(s.next_state, None);
    assert!(g.sent);
}

#[test]
fn despawn_removes_enemies_and_descendants() {
    let mut c = CombatScene::new();
    let e = c.spawn_enemy();
    let sprite = spawn_ascii_sprite(7, Color::rgb(1000, 0, 0), Pos3 { x: 0, y: 0, z: 0 });
    let child = c.spawn(sprite, Some(e), false);
    let grandchild = c.spawn(sprite, Some(child), false);
    let other = c.spawn(sprite, None, false);
    c.despawn_enemies();
    assert!(!c.entities[e].alive);
    assert!(!c.entities[child].alive);
    assert!(!c.entities[grandchild].alive);
    assert!(c.entities[other].alive);
    assert_eq!(c.entities[e].sprite.index, 'b' as u32);
}

fn arena() -> Game {
    Game::new(&rows(&["#####", "#...#", "#.~.#", "#...#", "#####"]))
}

fn frame(moves: MoveInput) -> FrameInput {
    FrameInput { moves, leave_combat: false }
}

fn live_enemies(g: &Game) -> usize {
    g.combat.entities.iter().filter(|e| e.alive && e.enemy).count()
}

#[test]
fn new_game_starts_in_overworld() {
    let g = arena();
    assert_eq!(g.state, GameState::Overworld);
    assert_eq!(g.player.pos, Pos { x: 200, y: -200 });
    assert!(g.player.active);
    assert!(g.player_visible);
    assert_eq!(g.map.tiles.len(), 25);
    assert_eq!(g.player_sprite().translation, Pos3 { x: 200, y: -200, z: 900 });
    assert_eq!(g.player_sprite().index, 2);
    assert!(g.background_sprite().visible);
    assert_eq!(g.background_sprite().color, Color::rgb(500, 500, 500));
}

#[test]
fn standing_still_on_encounter_never_starts_combat() {
    let mut g = arena();
    for _ in 0..200 {
        g.update(frame(NONE), FRAME);
    }
    assert_eq!(g.state, GameState::Overworld);
    assert_eq!(g.fades.len(), 0);
    assert_eq!(g.tracker.elapsed, 0);
}

#[test]
fn walking_into_combat_and_back() {
    let mut g = arena();
    let mut ticks = 0;
    while g.fades.is_empty() {
        let input = if ticks % 2 == 0 { LEFT } else { RIGHT };
        g.update(frame(input), FRAME);
        ticks += 1;
        assert!(ticks < 1000);
    }
    assert_eq!(ticks, 60);
    assert!(!g.player.active);
    assert_eq!(g.state, GameState::Overworld);
    let at = g.player.pos;
    while g.state == GameState::Overworld {
        g.update(frame(RIGHT), FRAME);
        assert_eq!(g.player.pos, at);
    }
    assert_eq!(live_enemies(&g), 1);
    assert!(!g.player_visible);
    assert!(g.map.tiles.iter().all(|t| !t.sprite.visible));
    assert_eq!(g.camera, Pos { x: 0, y: 0 });
    for _ in 0..40 {
        g.update(frame(NONE), FRAME);
    }
    assert!(g.fades.is_empty());
    assert_eq!(live_enemies(&g), 1);
    g.update(FrameInput { moves: NONE, leave_combat: true }, FRAME);
    assert_eq!(g.fades.len(), 1);
    while g.state == GameState::Combat {
        g.update(frame(NONE), FRAME);
    }
    assert_eq!(live_enemies(&g), 0);
    assert!(g.player.active);
    assert!(g.player_visible);
    assert!(g.map.tiles.iter().all(|t| t.sprite.visible));
    assert_eq!(g.map.colliders.len(), 16);
}

#[test]
fn same_state_request_changes_nothing() {
    let mut g = arena();
    g.pending = Some(GameState::Overworld);
    g.apply_pending();
    assert_eq!(g.pending, None);
    assert_eq!(g.state, GameState::Overworld);
    assert_eq!(g.combat.entities.len(), 0);
    assert!(g.player_visible);
}

#[test]
fn combat_round_trip_keeps_other_entities() {
    let mut c = CombatScene::new();
    let sprite = spawn_ascii_sprite(7, Color::rgb(0, 1000, 0), Pos3 { x: 0, y: 0, z: 0 });
    let prop = c.spawn(sprite, None, false);
    let hanging = c.spawn(sprite, Some(prop), false);
    let e = c.spawn_enemy();
    c.despawn_enemies();
    assert!(!c.entities[e].alive);
    assert!(c.entities[prop].alive);
    assert!(c.entities[hanging].alive);
    let e2 = c.spawn_enemy();
    c.despawn_enemies();
    assert!(!c.entities[e2].alive);
    assert_eq!(c.entities.iter().filter(|x| x.alive).count(), 2);
}
