//! Monster entities.
//!
//! A monster's internal animation and combat state machine is an external
//! collaborator: the core owns only the monster's observable state — its
//! position, its activity predicate (false makes it eligible for the
//! per-frame cull) and its hittability flag — and the collaborator drives
//! those fields. What the core guarantees is the orchestration: each
//! surviving monster's step runs once per Game tick and receives the hero's
//! current position, recorded here so the collaborator reacts to it.
use vstd::prelude::*;

use crate::geometry::Collider;

verus! {

/// Width of a monster's collision box, in hundredths of a world unit.
pub const MONSTER_BOX_W: i64 = 1600;

/// Height of a monster's collision box, in hundredths of a world unit.
pub const MONSTER_BOX_H: i64 = 1600;

/// A monster's observable state. Coordinates are fixed-point integers in
/// hundredths of a world unit.
#[derive(Clone, Copy)]
pub struct Monster {
    pub x: i64,
    pub y: i64,
    /// The hero position this monster was last shown, the only external
    /// input its behaviour may react to.
    pub seen_hero_x: i64,
    pub seen_hero_y: i64,
    /// The activity predicate: false makes the monster eligible for culling.
    pub active: bool,
    /// Current vulnerability to damage, independent of activity.
    pub hitable: bool,
    /// How many update steps this monster has been through.
    pub steps: Ghost<int>,
}

/// Mathematical state of a monster.
#[verifier::ext_equal]
pub ghost struct MonsterView {
    pub x: int,
    pub y: int,
    pub seen_hero_x: int,
    pub seen_hero_y: int,
    pub active: bool,
    pub hitable: bool,
    pub steps: int,
}

impl View for Monster {
    type V = MonsterView;

    open spec fn view(&self) -> MonsterView {
        MonsterView {
            x: self.x as int,
            y: self.y as int,
            seen_hero_x: self.seen_hero_x as int,
            seen_hero_y: self.seen_hero_y as int,
            active: self.active,
            hitable: self.hitable,
            steps: self.steps@,
        }
    }
}

/// A freshly spawned monster: active, hittable, yet to take a step, and yet
/// to be shown the hero.
pub open spec fn monster_spawn(x: int, y: int) -> MonsterView {
    MonsterView {
        x: x,
        y: y,
        seen_hero_x: 0,
        seen_hero_y: 0,
        active: true,
        hitable: true,
        steps: 0,
    }
}

/// One monster step: the hero's current position is recorded and the step
/// count advances; position and flags stay with their collaborator.
pub open spec fn monster_stepped(m: MonsterView, hero_x: int, hero_y: int) -> MonsterView {
    MonsterView { seen_hero_x: hero_x, seen_hero_y: hero_y, steps: m.steps + 1, ..m }
}

impl Monster {
    pub fn new(x: i64, y: i64) -> (r: Monster)
        ensures
            r@ == monster_spawn(x as int, y as int),
    {
        Monster {
            x,
            y,
            seen_hero_x: 0,
            seen_hero_y: 0,
            active: true,
            hitable: true,
            steps: Ghost(0),
        }
    }

    /// The activity predicate, read by the per-frame cull.
    pub fn is_active(&self) -> (r: bool)
        ensures
            r == self@.active,
    {
        self.active
    }

    /// Whether the monster is currently vulnerable to damage.
    pub fn is_hitable(&self) -> (r: bool)
        ensures
            r == self@.hitable,
    {
        self.hitable
    }

    /// Runs this monster's update step with the hero's current position as
    /// its only external input. The movement and combat rules themselves
    /// belong to the monster's own state machine, an external collaborator
    /// driving this record's fields.
    pub fn update(&mut self, hero_x: i64, hero_y: i64)
        ensures
            final(self)@ == monster_stepped(old(self)@, hero_x as int, hero_y as int),
    {
        self.seen_hero_x = hero_x;
        self.seen_hero_y = hero_y;
        proof {
            self.steps@ = self.steps@ + 1;
        }
    }

    /// The monster's collision box, displaced by `(dx, dy)`: an axis-aligned
    /// rectangle for the debug overlay and for combat queries.
    pub fn get_collision_box(&self, dx: i64, dy: i64) -> (r: Collider)
        requires
            i64::MIN <= self.x + dx <= i64::MAX,
            i64::MIN <= self.y + dy <= i64::MAX,
        ensures
            r == (Collider {
                x: (self@.x + dx) as i64,
                y: (self@.y + dy) as i64,
                w: MONSTER_BOX_W,
                h: MONSTER_BOX_H,
            }),
    {
        Collider { x: self.x + dx, y: self.y + dy, w: MONSTER_BOX_W, h: MONSTER_BOX_H }
    }
}

} // verus!
