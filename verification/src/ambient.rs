//! The ambient decoration system: atmospheric particles and flickering
//! lights.
//!
//! Decorations are purely cosmetic and never interact with gameplay state.
//! Their internal motion rules belong to an external collaborator; the core
//! owns their observable state (position, and a light's radius) and
//! guarantees that every particle and every light advances its own
//! independent step exactly once per tick, in every state.
use vstd::prelude::*;

verus! {

/// An atmospheric particle. Coordinates are fixed-point integers in
/// hundredths of a world unit.
#[derive(Clone, Copy)]
pub struct Particle {
    pub x: i64,
    pub y: i64,
    /// How many update steps this particle has been through.
    pub steps: Ghost<int>,
}

/// Mathematical state of a particle.
#[verifier::ext_equal]
pub ghost struct ParticleView {
    pub x: int,
    pub y: int,
    pub steps: int,
}

impl View for Particle {
    type V = ParticleView;

    open spec fn view(&self) -> ParticleView {
        ParticleView { x: self.x as int, y: self.y as int, steps: self.steps@ }
    }
}

/// One particle step: the step count advances; the drift itself belongs to
/// the decoration collaborator driving this record's fields.
pub open spec fn particle_stepped(p: ParticleView) -> ParticleView {
    ParticleView { steps: p.steps + 1, ..p }
}

impl Particle {
    pub fn new(x: i64, y: i64) -> (r: Particle)
        ensures
            r@ == (ParticleView { x: x as int, y: y as int, steps: 0 }),
    {
        Particle { x, y, steps: Ghost(0) }
    }

    /// Advances this particle's independent update step.
    pub fn update(&mut self)
        ensures
            final(self)@ == particle_stepped(old(self)@),
    {
        proof {
            self.steps@ = self.steps@ + 1;
        }
    }
}

/// A decorative light: a position and a glow radius, in hundredths of a
/// world unit.
#[derive(Clone, Copy)]
pub struct Light {
    pub x: i64,
    pub y: i64,
    pub radius: i64,
    /// How many update steps this light has been through.
    pub steps: Ghost<int>,
}

/// Mathematical state of a light.
#[verifier::ext_equal]
pub ghost struct LightView {
    pub x: int,
    pub y: int,
    pub radius: int,
    pub steps: int,
}

impl View for Light {
    type V = LightView;

    open spec fn view(&self) -> LightView {
        LightView {
            x: self.x as int,
            y: self.y as int,
            radius: self.radius as int,
            steps: self.steps@,
        }
    }
}

/// One light step: the step count advances; the flicker itself belongs to
/// the decoration collaborator driving this record's fields.
pub open spec fn light_stepped(l: LightView) -> LightView {
    LightView { steps: l.steps + 1, ..l }
}

impl Light {
    pub fn new(x: i64, y: i64, radius: i64) -> (r: Light)
        ensures
            r@ == (LightView { x: x as int, y: y as int, radius: radius as int, steps: 0 }),
    {
        Light { x, y, radius, steps: Ghost(0) }
    }

    /// Advances this light's independent update step.
    pub fn update(&mut self)
        ensures
            final(self)@ == light_stepped(old(self)@),
    {
        proof {
            self.steps@ = self.steps@ + 1;
        }
    }

    /// The light's position, read when the draw sequence is laid out.
    pub fn get_position(&self) -> (r: (i64, i64))
        ensures
            r.0 == self@.x,
            r.1 == self@.y,
    {
        (self.x, self.y)
    }

    /// The light's glow radius, read when the draw sequence is laid out.
    pub fn get_radius(&self) -> (r: i64)
        ensures
            r == self@.radius,
    {
        self.radius
    }
}

} // verus!
