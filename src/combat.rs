//! Entities that exist only in combat, with parent links, so that removing
//! an enemy removes everything attached to it.

use vstd::prelude::*;
use crate::ascii::{spawn_ascii_sprite, Color, Sprite};
use crate::geometry::{Pos3, TILE_SIZE};

verus! {

/// Glyph of the enemy: a bat.
pub const ENEMY_GLYPH: u32 = 98;

/// A combat-only entity. `parent` is the index of the entity it hangs from,
/// always an earlier one; `enemy` marks enemies.
#[derive(Clone, Copy, Debug, PartialEq, Eq, Structural)]
pub struct CombatEntity {
    pub sprite: Sprite,
    pub parent: Option<usize>,
    pub enemy: bool,
    pub alive: bool,
}

/// All combat-only entities ever spawned, indexed by id; despawned ones stay,
/// marked dead.
pub struct CombatScene {
    pub entities: Vec<CombatEntity>,
}

/// Entity `i` is an enemy or hangs, through its parents, from one.
pub open spec fn under_enemy(ents: Seq<CombatEntity>, i: int) -> bool
    decreases i,
{
    if 0 <= i < ents.len() {
        ents[i].enemy || match ents[i].parent {
            Some(p) => 0 <= p < i && under_enemy(ents, p as int),
            None => false,
        }
    } else {
        false
    }
}

/// Every parent link points to an earlier entity, and a live entity's parent
/// is live.
pub open spec fn scene_wf(ents: Seq<CombatEntity>) -> bool {
    forall|i: int|
        0 <= i < ents.len() ==> match #[trigger] ents[i].parent {
            Some(p) => p < i && (ents[i].alive ==> ents[p as int].alive),
            None => true,
        }
}

/// Entity `i` is a live enemy.
pub open spec fn alive_enemy(ents: Seq<CombatEntity>, i: int) -> bool {
    0 <= i < ents.len() && ents[i].alive && ents[i].enemy
}

/// The entities with every enemy and all its descendants dead.
pub open spec fn without_enemies(ents: Seq<CombatEntity>) -> Seq<CombatEntity> {
    Seq::new(
        ents.len(),
        |i: int| CombatEntity { alive: ents[i].alive && !under_enemy(ents, i), ..ents[i] },
    )
}

/// The sprite of a newly spawned enemy.
pub open spec fn enemy_sprite() -> Sprite {
    Sprite {
        index: ENEMY_GLYPH,
        color: Color { r: 800, g: 800, b: 800, a: 1000 },
        translation: Pos3 { x: 0, y: 500, z: 100 },
        size: TILE_SIZE,
        visible: true,
    }
}

impl CombatScene {
    /// Every parent link points to an earlier, existing entity.
    pub open spec fn wf(&self) -> bool {
        scene_wf(self.entities@)
    }

    pub fn new() -> (s: CombatScene)
        ensures
            s.entities@.len() == 0,
            s.wf(),
    {
        CombatScene { entities: Vec::new() }
    }

    /// Adds a live entity hanging from `parent` (if any); returns its id.
    pub fn spawn(&mut self, sprite: Sprite, parent: Option<usize>, enemy: bool) -> (id: usize)
        requires
            old(self).wf(),
            parent matches Some(p) ==> p < old(self).entities@.len() && old(self).entities@[p as int].alive,
        ensures
            final(self).wf(),
            id == old(self).entities@.len(),
            final(self).entities@ == old(self).entities@.push(
                CombatEntity { sprite, parent, enemy, alive: true },
            ),
    {
        let id = self.entities.len();
        self.entities.push(CombatEntity { sprite, parent, enemy, alive: true });
        id
    }

    /// Spawns a bat, an enemy with no parent, above the centre of the view.
    pub fn spawn_enemy(&mut self) -> (id: usize)
        requires
            old(self).wf(),
        ensures
            final(self).wf(),
            id == old(self).entities@.len(),
            final(self).entities@ == old(self).entities@.push(
                CombatEntity { sprite: enemy_sprite(), parent: None, enemy: true, alive: true },
            ),
    {
        let sprite = spawn_ascii_sprite(
            ENEMY_GLYPH,
            Color { r: 800, g: 800, b: 800, a: 1000 },
            Pos3 { x: 0, y: 500, z: 100 },
        );
        self.spawn(sprite, None, true)
    }

    /// Despawns every enemy together with all of its descendants.
    pub fn despawn_enemies(&mut self)
        requires
            old(self).wf(),
        ensures
            final(self).wf(),
            final(self).entities@ == without_enemies(old(self).entities@),
    {
        let ghost orig = self.entities@;
        let n = self.entities.len();
        let mut gone: Vec<bool> = Vec::new();
        let mut i: usize = 0;
        while i < n
            invariant
                n == orig.len(),
                i <= n,
                self.entities@.len() == n,
                gone@.len() == i,
                forall|j: int| 0 <= j < i ==> #[trigger] gone@[j] == under_enemy(orig, j),
                scene_wf(orig),
                forall|j: int|
                    0 <= j < i ==> #[trigger] self.entities@[j] == without_enemies(orig)[j],
                forall|j: int| i <= j < n ==> #[trigger] self.entities@[j] == orig[j],
            decreases n - i,
        {
            let e = self.entities[i];
            let doomed = match e.parent {
                Some(p) => e.enemy || gone[p],
                None => e.enemy,
            };
            assert(doomed == under_enemy(orig, i as int));
            gone.push(doomed);
            if doomed {
                self.entities.set(i, CombatEntity { alive: false, ..e });
            }
            i = i + 1;
        }
        assert(self.entities@ == without_enemies(orig));
        assert forall|i: int| 0 <= i < n implies match #[trigger] self.entities@[i].parent {
            Some(p) => p < i && (self.entities@[i].alive ==> self.entities@[p as int].alive),
            None => true,
        } by {
            assert(match orig[i].parent {
                Some(p) => p < i && (orig[i].alive ==> orig[p as int].alive),
                None => true,
            });
            assert(under_enemy(orig, i) == (orig[i].enemy || match orig[i].parent {
                Some(p) => 0 <= p < i && under_enemy(orig, p as int),
                None => false,
            }));
        }
    }
}

/// Adding an entity at the end changes nothing about the earlier ones.
proof fn lemma_under_enemy_push(ents: Seq<CombatEntity>, e: CombatEntity, i: int)
    requires
        0 <= i < ents.len(),
    ensures
        under_enemy(ents.push(e), i) == under_enemy(ents, i),
    decreases i,
{
    assert(ents.push(e)[i] == ents[i]);
    if let Some(p) = ents[i].parent {
        if 0 <= p < i {
            lemma_under_enemy_push(ents, e, p as int);
        }
    }
}

/// With no live enemy, a live entity hangs from no enemy: all its ancestors
/// are live, so none of them is an enemy.
proof fn lemma_live_not_under_enemy(ents: Seq<CombatEntity>, i: int)
    requires
        scene_wf(ents),
        forall|j: int| !alive_enemy(ents, j),
        0 <= i < ents.len(),
        ents[i].alive,
    ensures
        !under_enemy(ents, i),
    decreases i,
{
    assert(!alive_enemy(ents, i));
    if let Some(p) = ents[i].parent {
        lemma_live_not_under_enemy(ents, p as int);
    }
}

/// Entering combat with no live enemy and leaving it again gives every
/// entity that was there before its old liveness back, and leaves the
/// enemy that was spawned dead.
pub proof fn lemma_enemy_round_trip(ents: Seq<CombatEntity>, s: Sprite)
    requires
        scene_wf(ents),
        forall|i: int| !alive_enemy(ents, i),
    ensures
        ({
            let after = without_enemies(
                ents.push(CombatEntity { sprite: s, parent: None, enemy: true, alive: true }),
            );
            &&& after.len() == ents.len() + 1
            &&& forall|i: int| 0 <= i < ents.len() ==> (#[trigger] after[i]).alive == ents[i].alive
            &&& !after[ents.len() as int].alive
            &&& forall|i: int| !alive_enemy(after, i)
        }),
{
    let e = CombatEntity { sprite: s, parent: None, enemy: true, alive: true };
    let pushed = ents.push(e);
    let after = without_enemies(pushed);
    assert forall|i: int| 0 <= i < ents.len() implies (#[trigger] after[i]).alive == ents[i].alive by {
        assert(pushed[i] == ents[i]);
        lemma_under_enemy_push(ents, e, i);
        if ents[i].alive {
            lemma_live_not_under_enemy(ents, i);
        }
    }
    assert(under_enemy(pushed, ents.len() as int));
    lemma_despawn_leaves_no_enemy(pushed);
}

/// Leaving combat leaves no live enemy, and nothing that hung from one.
pub proof fn lemma_despawn_leaves_no_enemy(ents: Seq<CombatEntity>)
    ensures
        forall|i: int| 0 <= i < ents.len() && under_enemy(ents, i) ==> !(#[trigger] without_enemies(ents)[i]).alive,
        forall|i: int| !alive_enemy(without_enemies(ents), i),
{
    assert forall|i: int| !alive_enemy(without_enemies(ents), i) by {
        if 0 <= i < ents.len() && ents[i].enemy {
            assert(under_enemy(ents, i));
        }
    }
}

/// Entering combat with no live enemy leaves exactly one: the one spawned.
pub proof fn lemma_spawn_gives_one_enemy(ents: Seq<CombatEntity>, s: Sprite)
    requires
        forall|i: int| !alive_enemy(ents, i),
    ensures
        ({
            let after = ents.push(CombatEntity { sprite: s, parent: None, enemy: true, alive: true });
            &&& alive_enemy(after, ents.len() as int)
            &&& forall|i: int| alive_enemy(after, i) ==> i == ents.len()
        }),
{
    let after = ents.push(CombatEntity { sprite: s, parent: None, enemy: true, alive: true });
    assert forall|i: int| alive_enemy(after, i) implies i == ents.len() by {
        if i < ents.len() {
            assert(after[i] == ents[i]);
            assert(alive_enemy(ents, i));
        }
    }
}

} // verus!
