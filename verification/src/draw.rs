//! The per-frame draw sequence.
//!
//! The core decides *what* is drawn and *in what order*; an external
//! renderer decides *how*. A frame is an ordered list of [`DrawCommand`]s:
//! backdrop and lights first, then the active state's entities and masks,
//! and the transition overlay always last. Texture resolution, camera math
//! and draw-call submission stay with the renderer.
use vstd::prelude::*;

use crate::ambient::{Light, LightView, Particle, ParticleView};
use crate::game::{lights_view, particles_view, roster_view, GameState, GameView};
use crate::monster::{Monster, MonsterView};

verus! {

/// One drawing instruction. Coordinates are fixed-point integers in
/// hundredths of a world unit; the renderer scales them to screen space.
/// Commands that carry no fields name textures or masks whose geometry is
/// fixed.
#[derive(Clone, Copy, PartialEq, Eq, Structural, Debug)]
pub enum DrawCommand {
    /// The level backdrop.
    Background,
    /// One decorative glow, drawn over the backdrop.
    Light { x: i64, y: i64, radius: i64 },
    /// One monster sprite.
    Monster { x: i64, y: i64 },
    /// The hero sprite.
    Hero { x: i64, y: i64 },
    /// The ground strip, masking the lights' lower halves.
    GroundMask,
    /// One atmospheric particle.
    Particle { x: i64, y: i64 },
    /// The letterbox bars above and below the playfield.
    LetterboxMask,
    /// The health UI: frame and bar.
    HealthBar,
    /// The transition overlay, at the given opacity in hundredths.
    TransitionOverlay { alpha: i64 },
}

/// The draw commands of the light array, in array order.
pub open spec fn light_cmds(ls: Seq<LightView>) -> Seq<DrawCommand> {
    ls.map_values(
        |l: LightView| DrawCommand::Light { x: l.x as i64, y: l.y as i64, radius: l.radius as i64 },
    )
}

/// The draw commands of the particle pool, in pool order.
pub open spec fn particle_cmds(ps: Seq<ParticleView>) -> Seq<DrawCommand> {
    ps.map_values(|p: ParticleView| DrawCommand::Particle { x: p.x as i64, y: p.y as i64 })
}

/// The draw commands of the monster roster, in roster order.
pub open spec fn monster_cmds(ms: Seq<MonsterView>) -> Seq<DrawCommand> {
    ms.map_values(|m: MonsterView| DrawCommand::Monster { x: m.x as i64, y: m.y as i64 })
}

/// The state-specific middle of a frame outside active play: particles over
/// the backdrop, then the ground strip and the letterbox bars.
pub open spec fn idle_mid_cmds(g: GameView) -> Seq<DrawCommand> {
    particle_cmds(g.particles) + seq![DrawCommand::GroundMask, DrawCommand::LetterboxMask]
}

/// The state-specific middle of an active-play frame: monsters and the hero,
/// the ground strip, particles in front of it, the letterbox bars and the
/// health UI.
pub open spec fn play_mid_cmds(g: GameView) -> Seq<DrawCommand> {
    monster_cmds(g.monsters) + seq![
        DrawCommand::Hero { x: g.hero.x as i64, y: g.hero.y as i64 },
        DrawCommand::GroundMask,
    ] + particle_cmds(g.particles) + seq![DrawCommand::LetterboxMask, DrawCommand::HealthBar]
}

/// The whole ordered draw sequence of one frame: backdrop, lights, the
/// active state's middle, and the transition overlay last.
pub open spec fn render_plan(g: GameView) -> Seq<DrawCommand> {
    let mid = match g.state {
        GameState::Intro => idle_mid_cmds(g),
        GameState::Game => play_mid_cmds(g),
        GameState::Win => idle_mid_cmds(g),
        GameState::End => idle_mid_cmds(g),
    };
    seq![DrawCommand::Background] + light_cmds(g.lights) + mid + seq![
        DrawCommand::TransitionOverlay { alpha: g.transition.alpha as i64 },
    ]
}

/// Appends the light array's draw commands, in order.
pub(crate) fn push_light_cmds(cmds: &mut Vec<DrawCommand>, lights: &Vec<Light>)
    ensures
        final(cmds)@ == old(cmds)@ + light_cmds(lights_view(lights@)),
{
    let ghost c0 = cmds@;
    let n = lights.len();
    for i in 0..n
        invariant
            n == lights@.len(),
            cmds@ =~= c0 + light_cmds(lights_view(lights@)).take(i as int),
    {
        let l = lights[i];
        cmds.push(DrawCommand::Light { x: l.x, y: l.y, radius: l.radius });
        proof {
            assert(light_cmds(lights_view(lights@)).take(i + 1) =~= light_cmds(
                lights_view(lights@),
            ).take(i as int).push(DrawCommand::Light { x: l.x, y: l.y, radius: l.radius }));
        }
    }
    proof {
        assert(light_cmds(lights_view(lights@)).take(n as int) =~= light_cmds(
            lights_view(lights@),
        ));
    }
}

/// Appends the particle pool's draw commands, in order.
pub(crate) fn push_particle_cmds(cmds: &mut Vec<DrawCommand>, particles: &Vec<Particle>)
    ensures
        final(cmds)@ == old(cmds)@ + particle_cmds(particles_view(particles@)),
{
    let ghost c0 = cmds@;
    let n = particles.len();
    for i in 0..n
        invariant
            n == particles@.len(),
            cmds@ =~= c0 + particle_cmds(particles_view(particles@)).take(i as int),
    {
        let p = particles[i];
        cmds.push(DrawCommand::Particle { x: p.x, y: p.y });
        proof {
            assert(particle_cmds(particles_view(particles@)).take(i + 1) =~= particle_cmds(
                particles_view(particles@),
            ).take(i as int).push(DrawCommand::Particle { x: p.x, y: p.y }));
        }
    }
    proof {
        assert(particle_cmds(particles_view(particles@)).take(n as int) =~= particle_cmds(
            particles_view(particles@),
        ));
    }
}

/// Appends the monster roster's draw commands, in order.
pub(crate) fn push_monster_cmds(cmds: &mut Vec<DrawCommand>, monsters: &Vec<Monster>)
    ensures
        final(cmds)@ == old(cmds)@ + monster_cmds(roster_view(monsters@)),
{
    let ghost c0 = cmds@;
    let n = monsters.len();
    for i in 0..n
        invariant
            n == monsters@.len(),
            cmds@ =~= c0 + monster_cmds(roster_view(monsters@)).take(i as int),
    {
        let m = monsters[i];
        cmds.push(DrawCommand::Monster { x: m.x, y: m.y });
        proof {
            assert(monster_cmds(roster_view(monsters@)).take(i + 1) =~= monster_cmds(
                roster_view(monsters@),
            ).take(i as int).push(DrawCommand::Monster { x: m.x, y: m.y }));
        }
    }
    proof {
        assert(monster_cmds(roster_view(monsters@)).take(n as int) =~= monster_cmds(
            roster_view(monsters@),
        ));
    }
}

} // verus!
