//! The hero entity.
//!
//! The hero's movement, collision resolution and combat state machine is an
//! external collaborator: the core owns only the hero's observable state —
//! its position and collision box — and guarantees that the hero's step runs
//! once per Game tick, after the cull, with the live monster roster and the
//! static collider set in view.
use vstd::prelude::*;

use crate::geometry::Collider;
use crate::monster::Monster;

verus! {

/// Width of the hero's collision box, in hundredths of a world unit.
pub const HERO_BOX_W: i64 = 1600;

/// Height of the hero's collision box, in hundredths of a world unit.
pub const HERO_BOX_H: i64 = 1600;

/// The hero's observable state. Coordinates are fixed-point integers in
/// hundredths of a world unit.
#[derive(Clone, Copy)]
pub struct Hero {
    pub x: i64,
    pub y: i64,
    /// How many update steps the hero has been through.
    pub steps: Ghost<int>,
}

/// Mathematical state of the hero.
#[verifier::ext_equal]
pub ghost struct HeroView {
    pub x: int,
    pub y: int,
    pub steps: int,
}

impl View for Hero {
    type V = HeroView;

    open spec fn view(&self) -> HeroView {
        HeroView { x: self.x as int, y: self.y as int, steps: self.steps@ }
    }
}

/// A hero as it stands at construction or after the debug reset.
pub open spec fn hero_spawn(x: int, y: int) -> HeroView {
    HeroView { x: x, y: y, steps: 0 }
}

/// One hero step: the step count advances; position and health stay with the
/// hero's own state machine.
pub open spec fn hero_stepped(h: HeroView) -> HeroView {
    HeroView { steps: h.steps + 1, ..h }
}

impl Hero {
    pub fn new(x: i64, y: i64) -> (r: Hero)
        ensures
            r@ == hero_spawn(x as int, y as int),
    {
        Hero { x, y, steps: Ghost(0) }
    }

    /// Runs the hero's update step with the live, post-cull monster roster
    /// (mutable: combat may touch the monsters' fields) and the static
    /// collider set in view. The movement, collision and combat rules
    /// themselves belong to the hero's own state machine, an external
    /// collaborator driving this record's fields; the step neither adds nor
    /// removes roster entries — only the spawner adds and only the cull
    /// removes.
    pub fn update(&mut self, monsters: &mut Vec<Monster>, colliders: &Vec<Collider>)
        ensures
            final(self)@ == hero_stepped(old(self)@),
            final(monsters)@ == old(monsters)@,
    {
        proof {
            self.steps@ = self.steps@ + 1;
        }
    }

    /// The hero's collision box, displaced by `(dx, dy)`: an axis-aligned
    /// rectangle for the debug overlay and for combat queries.
    pub fn get_collision_box(&self, dx: i64, dy: i64) -> (r: Collider)
        requires
            i64::MIN <= self.x + dx <= i64::MAX,
            i64::MIN <= self.y + dy <= i64::MAX,
        ensures
            r == (Collider {
                x: (self@.x + dx) as i64,
                y: (self@.y + dy) as i64,
                w: HERO_BOX_W,
                h: HERO_BOX_H,
            }),
    {
        Collider { x: self.x + dx, y: self.y + dy, w: HERO_BOX_W, h: HERO_BOX_H }
    }
}

} // verus!
