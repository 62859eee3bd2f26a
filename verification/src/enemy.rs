//! The enemies: what kinds there are, how they are drawn when they spawn,
//! and how a position read from the ledger moves them.

use crate::chance::random_below;
use crate::coordinate::{dojo_to_bevy_coordinate, CoordinateMap};
use crate::felt::{lemma_pow256_16, Felt};
use vstd::prelude::*;

verus! {

/// The state of one enemy.
#[derive(Clone, Copy, Debug, PartialEq, Eq, Structural)]
pub struct Enemy {
    /// Whether the racer has hit it.
    pub is_hit: bool,
}

impl Default for Enemy {
    fn default() -> (enemy: Enemy)
        ensures
            !enemy.is_hit,
    {
        Enemy { is_hit: false }
    }
}

/// The index of an enemy, as the ledger counts them.
#[derive(Clone, Copy, Debug, PartialEq, Eq)]
pub struct EnemyId(pub Felt);

/// The kinds of enemy.
#[derive(Clone, Copy, Debug, PartialEq, Eq, Structural)]
pub enum EnemyType {
    /// Drives straight on.
    Simple,
    /// Drifts sideways, by this much and to this side.
    Horizontal(i32),
    /// A truck: larger than the others.
    Truck,
}

/// The sideways drift of the enemies that are drawn.
pub const DRIFT: i32 = 3;

/// The number of kinds that are drawn from.
pub const KINDS: usize = 3;

/// The enemies should spawn.
#[derive(Clone, Copy, Debug, PartialEq, Eq, Structural)]
pub struct SpawnEnemies;

/// The position of one enemy as the ledger gave it.
#[derive(Clone, Debug, PartialEq, Eq)]
pub struct UpdateEnemy {
    /// The raw record: `x`, then `y`.
    pub position: Vec<Felt>,
    /// The index of the enemy.
    pub enemy_id: Felt,
}

impl EnemyType {
    /// The kind at `index` among those drawn from.
    pub open spec fn spec_pick(index: int) -> EnemyType {
        if index == 0 {
            EnemyType::Horizontal(DRIFT)
        } else if index == 1 {
            EnemyType::Simple
        } else {
            EnemyType::Truck
        }
    }

    /// The kind at `index` among those drawn from.
    pub fn pick(index: usize) -> (kind: EnemyType)
        requires
            index < KINDS,
        ensures
            kind == EnemyType::spec_pick(index as int),
    {
        let all_vals = [EnemyType::Horizontal(DRIFT), EnemyType::Simple, EnemyType::Truck];
        all_vals[index]
    }

    /// Whether the kind is one of those drawn from.
    pub open spec fn drawable(self) -> bool {
        self == EnemyType::Horizontal(DRIFT) || self == EnemyType::Simple || self
            == EnemyType::Truck
    }

    /// A kind drawn at random.
    pub fn random() -> (kind: EnemyType)
        ensures
            kind.drawable(),
    {
        EnemyType::pick(random_below(KINDS))
    }

    /// How many sprites the kind has.
    pub open spec fn spec_sprite_count(self) -> nat {
        match self {
            EnemyType::Simple => 2,
            EnemyType::Horizontal(_) => 3,
            EnemyType::Truck => 1,
        }
    }

    /// How many sprites the kind has.
    pub fn sprite_count(&self) -> (count: usize)
        ensures
            count == self.spec_sprite_count(),
    {
        match self {
            EnemyType::Simple => 2,
            EnemyType::Horizontal(_) => 3,
            EnemyType::Truck => 1,
        }
    }

    /// The file of the kind's sprite number `pick`.
    pub open spec fn spec_sprite(self, pick: int) -> Seq<char> {
        match self {
            EnemyType::Simple => if pick == 0 {
                "enemy-blue-1.png"@
            } else {
                "enemy-yellow-1.png"@
            },
            EnemyType::Horizontal(_) => if pick == 0 {
                "enemy-blue-2.png"@
            } else if pick == 1 {
                "enemy-yellow-2.png"@
            } else {
                "enemy-yellow-3.png"@
            },
            EnemyType::Truck => "enemy-truck.png"@,
        }
    }

    /// The file of the kind's sprite number `pick`.
    pub fn sprite_at(&self, pick: usize) -> (sprite: &'static str)
        requires
            pick < self.spec_sprite_count(),
        ensures
            sprite@ == self.spec_sprite(pick as int),
    {
        match self {
            EnemyType::Simple => {
                let choices = ["enemy-blue-1.png", "enemy-yellow-1.png"];
                choices[pick]
            },
            EnemyType::Horizontal(_) => {
                let choices = ["enemy-blue-2.png", "enemy-yellow-2.png", "enemy-yellow-3.png"];
                choices[pick]
            },
            EnemyType::Truck => {
                let choices = ["enemy-truck.png"];
                choices[pick]
            },
        }
    }

    /// Whether `sprite` is the file of one of the kind's sprites.
    pub open spec fn has_sprite(self, sprite: Seq<char>) -> bool {
        exists|pick: int|
            0 <= pick < self.spec_sprite_count() && sprite == #[trigger] self.spec_sprite(pick)
    }

    /// The file of one of the kind's sprites, drawn at random where the kind
    /// has more than one.
    pub fn get_sprite(&self) -> (sprite: &'static str)
        ensures
            self.has_sprite(sprite@),
    {
        let pick = match self {
            EnemyType::Truck => 0,
            _ => random_below(self.sprite_count()),
        };
        let sprite = self.sprite_at(pick);
        assert(sprite@ == self.spec_sprite(pick as int));
        sprite
    }

    /// By how much the kind's sprite is enlarged, in tenths.
    pub fn scale_tenths(&self) -> (scale: u32)
        ensures
            scale == if *self is Truck {
                30u32
            } else {
                25u32
            },
    {
        match self {
            EnemyType::Truck => 30,
            _ => 25,
        }
    }

    /// Half the width and half the height of the kind's collider.
    pub fn collider_half_extents(&self) -> (half: (u32, u32))
        ensures
            half == if *self is Truck {
                (6u32, 15u32)
            } else {
                (4u32, 8u32)
            },
    {
        match self {
            EnemyType::Truck => (6, 15),
            _ => (4, 8),
        }
    }
}

/// One enemy to spawn.
#[derive(Clone, Copy, Debug, PartialEq, Eq)]
pub struct EnemySpawn {
    /// Its index.
    pub id: EnemyId,
    /// Its kind.
    pub kind: EnemyType,
    /// The file of its sprite.
    pub sprite: &'static str,
}

impl EnemySpawn {
    /// Whether this is a fitting spawn for the enemy `index`: it carries
    /// that index, a kind that is drawn from, and one of that kind's
    /// sprites.
    pub open spec fn fits(self, index: nat) -> bool {
        &&& self.id.0 == Felt::of(index)
        &&& self.kind.drawable()
        &&& self.kind.has_sprite(self.sprite@)
    }
}

/// What to spawn on one `SpawnEnemies` event: `count` enemies, with the
/// indices from zero up, each of a kind and with a sprite drawn at random.
pub fn spawn_enemies(count: u32) -> (spawns: Vec<EnemySpawn>)
    ensures
        spawns@.len() == count,
        forall|i: int| 0 <= i < count ==> (#[trigger] spawns@[i]).fits(i as nat),
{
    let mut spawns: Vec<EnemySpawn> = Vec::new();
    let mut id: u32 = 0;
    while id < count
        invariant
            0 <= id <= count,
            spawns@.len() == id,
            forall|i: int| 0 <= i < id ==> (#[trigger] spawns@[i]).fits(i as nat),
        decreases count - id,
    {
        let kind = EnemyType::random();
        let sprite = kind.get_sprite();
        spawns.push(EnemySpawn { id: EnemyId(Felt::from_u64(id as u64)), kind, sprite });
        id += 1;
    }
    spawns
}

/// Where an enemy stands in the simulation, in the units of the
/// [`CoordinateMap`] in use.
#[derive(Clone, Copy, Debug, PartialEq, Eq)]
pub struct EnemyPlacement {
    /// The enemy's index.
    pub id: EnemyId,
    /// Its place along `x`.
    pub x: i128,
    /// Its place along `y`.
    pub y: i128,
}

/// The largest coordinate of the ledger that is mapped.
pub open spec fn coordinate_limit() -> nat {
    i64::MAX as nat
}

/// The coordinate that a field element of a position stands for, where it
/// is at most [`coordinate_limit`].
pub fn coordinate_of(raw: &Felt) -> (out: Option<i64>)
    ensures
        out is Some <==> raw.value() <= coordinate_limit(),
        out matches Some(coordinate) ==> coordinate == raw.value(),
{
    proof {
        lemma_pow256_16();
    }
    match raw.as_u128() {
        Some(number) => if number <= i64::MAX as u128 {
            Some(number as i64)
        } else {
            None
        },
        None => None,
    }
}

/// Where the position of `event` lies in the simulation, if both of its
/// coordinates are within [`coordinate_limit`].
pub open spec fn spec_enemy_target(event: UpdateEnemy, map: CoordinateMap) -> Option<(int, int)> {
    let (x, y) = (event.position@[0].value(), event.position@[1].value());
    if x <= coordinate_limit() && y <= coordinate_limit() {
        Some((map.spec_x(x as int), map.spec_y(y as int)))
    } else {
        None
    }
}

/// Where the position of `event` lies in the simulation. The record holds
/// `x` first and `y` second.
pub fn enemy_target(event: &UpdateEnemy, map: &CoordinateMap) -> (target: Option<(i128, i128)>)
    requires
        event.position@.len() >= 2,
    ensures
        match target {
            Some(place) => spec_enemy_target(*event, *map) == Some((place.0 as int, place.1 as int)),
            None => spec_enemy_target(*event, *map) is None,
        },
{
    match (coordinate_of(&event.position[0]), coordinate_of(&event.position[1])) {
        (Some(x), Some(y)) => Some(dojo_to_bevy_coordinate(map, x, y)),
        _ => None,
    }
}

/// What `event` makes of one enemy: the enemy it names moves to the mapped
/// position; every other enemy stays, and so do all if the position is
/// beyond what is mapped.
pub open spec fn spec_moved(
    enemy: EnemyPlacement,
    event: UpdateEnemy,
    map: CoordinateMap,
) -> EnemyPlacement {
    match spec_enemy_target(event, map) {
        Some((x, y)) => if enemy.id.0 == event.enemy_id {
            EnemyPlacement { id: enemy.id, x: x as i128, y: y as i128 }
        } else {
            enemy
        },
        None => enemy,
    }
}

/// Applies one position read from the ledger to the enemies of the
/// simulation: every enemy with the event's index moves to the mapped
/// position.
pub fn update_enemy(event: &UpdateEnemy, map: &CoordinateMap, enemies: &mut Vec<EnemyPlacement>)
    requires
        event.position@.len() >= 2,
    ensures
        final(enemies)@.len() == old(enemies)@.len(),
        forall|i: int|
            0 <= i < old(enemies)@.len() ==> #[trigger] final(enemies)@[i] == spec_moved(
                old(enemies)@[i],
                *event,
                *map,
            ),
{
    let target = enemy_target(event, map);
    if let Some((x, y)) = target {
        let mut i: usize = 0;
        while i < enemies.len()
            invariant
                0 <= i <= enemies@.len(),
                enemies@.len() == old(enemies)@.len(),
                spec_enemy_target(*event, *map) == Some((x as int, y as int)),
                forall|k: int|
                    0 <= k < i ==> #[trigger] enemies@[k] == spec_moved(
                        old(enemies)@[k],
                        *event,
                        *map,
                    ),
                forall|k: int| i <= k < enemies@.len() ==> enemies@[k] == old(enemies)@[k],
            decreases enemies@.len() - i,
        {
            let enemy = enemies[i];
            if enemy.id.0.same(&event.enemy_id) {
                enemies.set(i, EnemyPlacement { id: enemy.id, x, y });
            }
            i += 1;
        }
    }
}

} // verus!
