//! The top-level game state machine and per-tick orchestration.
//!
//! One [`Game::update`] call consumes one discrete time step. The active
//! [`GameState`] selects which subsystems run: the intro and the end states
//! only advance the ambient decoration and watch the transition controller
//! and the confirm input, while active play runs the spawner, the roster
//! cull, the hero's step, every surviving monster's step and the decoration,
//! strictly in that order. The whole tick is captured by the mathematical
//! step function [`game_step`], which `update`'s contract ties to the
//! executable code, up to the two bounded dice rolls the spawner may draw.
use vstd::prelude::*;

use crate::ambient::{light_stepped, particle_stepped, Light, LightView, Particle, ParticleView};
use crate::draw::{
    idle_mid_cmds, light_cmds, play_mid_cmds, push_light_cmds, push_monster_cmds,
    push_particle_cmds, render_plan, DrawCommand,
};
use crate::geometry::{make_world_colliders, world_colliders, Collider};
use crate::hero::{hero_spawn, hero_stepped, Hero, HeroView};
use crate::monster::{monster_spawn, monster_stepped, Monster, MonsterView};
use crate::rng::{gen_range_i64, rng_from_seed};
use crate::transition::{transition_step, Transition, TransitionKind, TransitionView, ALPHA_MAX};
use vstd::pervasive::VecAdditionalExecFns;

verus! {

/// How many monsters the spawner may create in one run.
pub const INITIAL_SPAWN_BUDGET: i64 = 5;

/// Ticks until the first spawn becomes due.
pub const INITIAL_SPAWN_DELAY: i64 = 5;

/// Fixed part of the countdown to the next spawn.
pub const SPAWN_BASE_DELAY: i64 = 20;

/// Lower bound (inclusive) of the random part of the spawn countdown.
pub const SPAWN_ROLL_MIN: i64 = 30;

/// Upper bound (exclusive) of the random part of the spawn countdown.
pub const SPAWN_ROLL_MAX: i64 = 60;

/// Leftmost spawn abscissa (inclusive), in hundredths of a world unit.
pub const SPAWN_X_MIN: i64 = 5000;

/// Rightmost spawn abscissa (exclusive), in hundredths of a world unit.
pub const SPAWN_X_MAX: i64 = 38000;

/// Every monster spawns at this height, in hundredths of a world unit.
pub const SPAWN_Y: i64 = 5200;

/// Size of the fixed particle pool.
pub const PARTICLE_COUNT: usize = 100;

/// Width of the strip particles are scattered over, in hundredths.
pub const PARTICLE_AREA_W: i64 = 42600;

/// Height of the strip particles are scattered over, in hundredths.
pub const PARTICLE_AREA_H: i64 = 10000;

/// Number of decorative lights in the level.
pub const LIGHT_COUNT: usize = 6;

/// The mutually exclusive top-level states; exactly one is active per tick.
#[derive(Clone, Copy, PartialEq, Eq, Structural, Debug)]
pub enum GameState {
    Intro,
    Game,
    Win,
    End,
}

/// The whole world owned by the core: state machine, spawner budget and
/// countdown, monster roster, hero, static geometry, ambient decoration,
/// transition controller, and the injected pseudo-random generator.
pub struct Game {
    pub state: GameState,
    pub particles: Vec<Particle>,
    pub max_monsters: i64,
    pub monster_timer: i64,
    pub monsters: Vec<Monster>,
    pub colliders: Vec<Collider>,
    pub lights: Vec<Light>,
    pub hero: Hero,
    pub transition: Transition,
    rng: rand::rngs::StdRng,
}

/// Mathematical state of the world. The generator is not part of it: the
/// contracts state only the range of each value it hands out.
#[verifier::ext_equal]
pub ghost struct GameView {
    pub state: GameState,
    pub particles: Seq<ParticleView>,
    pub max_monsters: int,
    pub monster_timer: int,
    pub monsters: Seq<MonsterView>,
    pub colliders: Seq<Collider>,
    pub lights: Seq<LightView>,
    pub hero: HeroView,
    pub transition: TransitionView,
}

/// The monster roster as mathematical values.
pub open spec fn roster_view(ms: Seq<Monster>) -> Seq<MonsterView> {
    ms.map_values(|m: Monster| m@)
}

/// The particle pool as mathematical values.
pub open spec fn particles_view(ps: Seq<Particle>) -> Seq<ParticleView> {
    ps.map_values(|p: Particle| p@)
}

/// The light array as mathematical values.
pub open spec fn lights_view(ls: Seq<Light>) -> Seq<LightView> {
    ls.map_values(|l: Light| l@)
}

impl View for Game {
    type V = GameView;

    closed spec fn view(&self) -> GameView {
        GameView {
            state: self.state,
            particles: particles_view(self.particles@),
            max_monsters: self.max_monsters as int,
            monster_timer: self.monster_timer as int,
            monsters: roster_view(self.monsters@),
            colliders: self.colliders@,
            lights: lights_view(self.lights@),
            hero: self.hero@,
            transition: self.transition@,
        }
    }
}

/// The world's invariant: the transition alpha is clamped, the spawn budget
/// never leaves `[0, INITIAL_SPAWN_BUDGET]`, and the fixed-size collections
/// (particle pool, light array, collider set) keep their construction-time
/// shape.
pub open spec fn game_wf(g: GameView) -> bool {
    &&& 0 <= g.transition.alpha <= ALPHA_MAX as int
    &&& 0 <= g.max_monsters <= INITIAL_SPAWN_BUDGET as int
    &&& g.particles.len() == PARTICLE_COUNT as int
    &&& g.lights.len() == LIGHT_COUNT as int
    &&& g.colliders == world_colliders()
}

/// The roster after the per-frame cull: every monster whose activity
/// predicate is false is removed in one pass, survivors keep their order.
pub open spec fn culled(ms: Seq<MonsterView>) -> Seq<MonsterView>
    decreases ms.len(),
{
    if ms.len() == 0 {
        Seq::<MonsterView>::empty()
    } else {
        let rest = culled(ms.drop_last());
        if ms.last().active {
            rest.push(ms.last())
        } else {
            rest
        }
    }
}

/// The ambient decoration pass: every particle and every light advances its
/// own independent step exactly once; nothing else moves.
pub open spec fn decorated(g: GameView) -> GameView {
    GameView {
        particles: g.particles.map_values(|p: ParticleView| particle_stepped(p)),
        lights: g.lights.map_values(|l: LightView| light_stepped(l)),
        ..g
    }
}

/// The debug reset: back to the intro with a full spawn budget, the initial
/// spawn delay, an empty roster and the hero at its initial position. The
/// decoration and the transition controller are left as they stand.
pub open spec fn reset_view(g: GameView) -> GameView {
    GameView {
        state: GameState::Intro,
        max_monsters: INITIAL_SPAWN_BUDGET as int,
        monster_timer: INITIAL_SPAWN_DELAY as int,
        monsters: Seq::<MonsterView>::empty(),
        hero: hero_spawn(0, 0),
        ..g
    }
}

/// The spawner's part of an active-play tick. The countdown loses one tick;
/// if it lands exactly on zero while budget remains, one monster spawns at
/// abscissa `roll_x`, the budget shrinks and the countdown restarts at
/// `SPAWN_BASE_DELAY + roll_t`. With the budget exhausted the countdown is
/// never restarted and keeps falling without bound.
pub open spec fn after_spawn(g: GameView, roll_x: int, roll_t: int) -> GameView {
    let t = g.monster_timer - 1;
    if g.max_monsters > 0 && t == 0 {
        GameView {
            monsters: g.monsters.push(monster_spawn(roll_x, SPAWN_Y as int)),
            max_monsters: g.max_monsters - 1,
            monster_timer: SPAWN_BASE_DELAY as int + roll_t,
            ..g
        }
    } else {
        GameView { monster_timer: t, ..g }
    }
}

/// The combat orchestration of an active-play tick, strictly after the
/// spawner: cull, then the hero's step over the live roster, then each
/// survivor's step with the hero's current position as its only input.
pub open spec fn after_combat(g: GameView) -> GameView {
    let survivors = culled(g.monsters);
    GameView {
        monsters: survivors.map_values(
            |m: MonsterView| monster_stepped(m, g.hero.x, g.hero.y),
        ),
        hero: hero_stepped(g.hero),
        ..g
    }
}

/// One whole active-play tick: spawner, cull, hero, monsters, decoration.
pub open spec fn play_tick(g: GameView, roll_x: int, roll_t: int) -> GameView {
    decorated(after_combat(after_spawn(g, roll_x, roll_t)))
}

/// One intro tick: decoration runs; when a fade-out reports finished, play
/// begins behind a freshly armed fade-in; a confirm input arms the fade-out.
pub open spec fn intro_tick(g: GameView, confirm: bool) -> GameView {
    let g1 = decorated(g);
    let g2 = if g1.transition.finished && g1.transition.kind == TransitionKind::FadeOut {
        GameView {
            state: GameState::Game,
            transition: TransitionView { kind: TransitionKind::FadeIn, ..g1.transition },
            ..g1
        }
    } else {
        g1
    };
    if confirm {
        GameView { transition: TransitionView { kind: TransitionKind::FadeOut, ..g2.transition }, ..g2 }
    } else {
        g2
    }
}

/// One tick of the win or end screens: decoration runs, and a confirm input
/// returns directly to play, without replaying the intro.
pub open spec fn end_tick(g: GameView, confirm: bool) -> GameView {
    let g1 = decorated(g);
    if confirm {
        GameView { state: GameState::Game, ..g1 }
    } else {
        g1
    }
}

/// One whole tick: the debug reset first if requested, then the active
/// state's work, then one step of the transition controller. `roll_x` and
/// `roll_t` are the spawner's dice rolls; they are read only on the tick a
/// spawn happens.
pub open spec fn game_step(
    g: GameView,
    confirm: bool,
    reset: bool,
    roll_x: int,
    roll_t: int,
) -> GameView {
    let g0 = if reset {
        reset_view(g)
    } else {
        g
    };
    let g1 = match g0.state {
        GameState::Intro => intro_tick(g0, confirm),
        GameState::Game => play_tick(g0, roll_x, roll_t),
        GameState::Win => end_tick(g0, confirm),
        GameState::End => end_tick(g0, confirm),
    };
    GameView { transition: transition_step(g1.transition), ..g1 }
}

/// Removes every monster whose activity predicate is false, in one pass,
/// keeping the survivors' order.
pub fn cull_roster(monsters: &mut Vec<Monster>)
    ensures
        roster_view(final(monsters)@) == culled(roster_view(old(monsters)@)),
{
    let ghost ms0 = monsters@;
    let mut kept: Vec<Monster> = Vec::new();
    let n = monsters.len();
    for i in 0..n
        invariant
            monsters@ == ms0,
            n == ms0.len(),
            roster_view(kept@) =~= culled(roster_view(ms0.take(i as int))),
    {
        proof {
            assert(roster_view(ms0.take(i + 1)).drop_last() =~= roster_view(ms0.take(i as int)));
            assert(roster_view(ms0.take(i + 1)).last() == ms0[i as int]@);
        }
        let m = monsters[i];
        if m.is_active() {
            kept.push(m);
        }
        proof {
            assert(roster_view(kept@) =~= culled(roster_view(ms0.take(i + 1))));
        }
    }
    proof {
        assert(ms0.take(n as int) =~= ms0);
    }
    *monsters = kept;
}

impl Game {
    /// The world's invariant, stated over its mathematical view.
    pub open spec fn wf(self) -> bool {
        game_wf(self@)
    }

    /// Builds the world: the intro state behind a fully opaque fade-in, a
    /// full spawn budget with the initial delay, an empty roster, the hero
    /// at the origin, the fixed collider set and light array, and a pool of
    /// `PARTICLE_COUNT` particles scattered over the backdrop by the
    /// seed-injected generator.
    pub fn new(seed: u64) -> (g: Game)
        ensures
            g.wf(),
            g@.state == GameState::Intro,
            g@.transition == (TransitionView {
                kind: TransitionKind::FadeIn,
                alpha: ALPHA_MAX as int,
                finished: false,
            }),
            g@.max_monsters == INITIAL_SPAWN_BUDGET as int,
            g@.monster_timer == INITIAL_SPAWN_DELAY as int,
            g@.monsters == Seq::<MonsterView>::empty(),
            g@.hero == hero_spawn(0, 0),
            g@.lights == world_lights(),
            forall|j: int|
                0 <= j < g@.particles.len() ==> particle_in_spawn_area(#[trigger] g@.particles[j]),
    {
        let mut rng = rng_from_seed(seed);

        let mut particles: Vec<Particle> = Vec::new();
        for i in 0..PARTICLE_COUNT
            invariant
                particles@.len() == i,
                forall|j: int|
                    0 <= j < i ==> particle_in_spawn_area(#[trigger] particles@[j]@),
        {
            let px = gen_range_i64(&mut rng, 0, PARTICLE_AREA_W);
            let py = gen_range_i64(&mut rng, 0, PARTICLE_AREA_H);
            particles.push(Particle::new(px, py));
        }

        let mut lights: Vec<Light> = Vec::new();
        lights.push(Light::new(11800, 7000, 3200));
        lights.push(Light::new(11700, 6900, 2400));
        lights.push(Light::new(11900, 7000, 3000));
        lights.push(Light::new(32900, 7000, 3200));
        lights.push(Light::new(32800, 6900, 2400));
        lights.push(Light::new(33000, 7000, 3000));

        let g = Game {
            state: GameState::Intro,
            particles,
            max_monsters: INITIAL_SPAWN_BUDGET,
            monster_timer: INITIAL_SPAWN_DELAY,
            monsters: Vec::new(),
            colliders: make_world_colliders(),
            lights,
            hero: Hero::new(0, 0),
            transition: Transition::new(),
            rng,
        };
        proof {
            assert(lights_view(g.lights@) =~= world_lights());
            assert(roster_view(g.monsters@) =~= Seq::<MonsterView>::empty());
        }
        g
    }

    /// The debug reset: unconditionally back to the intro with the spawn
    /// budget, spawn delay, roster and hero position at their initial
    /// values. The decoration and the transition controller keep going.
    pub fn reset_game(&mut self)
        ensures
            final(self)@ == reset_view(old(self)@),
    {
        self.max_monsters = INITIAL_SPAWN_BUDGET;
        self.monsters = Vec::new();
        self.monster_timer = INITIAL_SPAWN_DELAY;
        self.hero = Hero::new(0, 0);
        self.state = GameState::Intro;
        proof {
            assert(roster_view(self.monsters@) =~= Seq::<MonsterView>::empty());
            assert(self@ =~~= reset_view(old(self)@));
        }
    }

    /// Spawns one monster at a freshly drawn abscissa within the spawn
    /// strip, at the fixed spawn height.
    fn monster_incubator(&mut self)
        ensures
            exists|roll_x: int|
                #![trigger monster_spawn(roll_x, SPAWN_Y as int)]
                SPAWN_X_MIN as int <= roll_x < SPAWN_X_MAX as int && final(self)@ == (GameView {
                    monsters: old(self)@.monsters.push(monster_spawn(roll_x, SPAWN_Y as int)),
                    ..old(self)@
                }),
    {
        let x = gen_range_i64(&mut self.rng, SPAWN_X_MIN, SPAWN_X_MAX);
        let m = Monster::new(x, SPAWN_Y);
        self.monsters.push(m);
        proof {
            assert(roster_view(self.monsters@) =~= roster_view(old(self).monsters@).push(m@));
            assert(self@ =~~= (GameView {
                monsters: old(self)@.monsters.push(monster_spawn(x as int, SPAWN_Y as int)),
                ..old(self)@
            }));
        }
    }

    /// Advances every particle and every light by one independent step.
    fn update_decoration(&mut self)
        ensures
            final(self)@ == decorated(old(self)@),
    {
        let ghost s0: Game = *self;
        let np = self.particles.len();
        for i in 0..np
            invariant
                np == self.particles@.len(),
                self.particles@.len() == s0.particles@.len(),
                forall|j: int|
                    0 <= j < i ==> #[trigger] self.particles@[j]@ == particle_stepped(
                        s0.particles@[j]@,
                    ),
                forall|j: int| i <= j < np ==> #[trigger] self.particles@[j] == s0.particles@[j],
                self.state == s0.state,
                self.max_monsters == s0.max_monsters,
                self.monster_timer == s0.monster_timer,
                self.monsters == s0.monsters,
                self.colliders == s0.colliders,
                self.lights == s0.lights,
                self.hero == s0.hero,
                self.transition == s0.transition,
        {
            let mut p = self.particles[i];
            p.update();
            self.particles.set(i, p);
        }
        let ghost s1: Game = *self;
        let nl = self.lights.len();
        for i in 0..nl
            invariant
                nl == self.lights@.len(),
                self.lights@.len() == s1.lights@.len(),
                forall|j: int|
                    0 <= j < i ==> #[trigger] self.lights@[j]@ == light_stepped(s1.lights@[j]@),
                forall|j: int| i <= j < nl ==> #[trigger] self.lights@[j] == s1.lights@[j],
                self.state == s1.state,
                self.max_monsters == s1.max_monsters,
                self.monster_timer == s1.monster_timer,
                self.monsters == s1.monsters,
                self.colliders == s1.colliders,
                self.particles == s1.particles,
                self.hero == s1.hero,
                self.transition == s1.transition,
        {
            let mut l = self.lights[i];
            l.update();
            self.lights.set(i, l);
        }
        proof {
            assert(particles_view(self.particles@) =~= s0@.particles.map_values(
                |p: ParticleView| particle_stepped(p),
            ));
            assert(lights_view(self.lights@) =~= s0@.lights.map_values(
                |l: LightView| light_stepped(l),
            ));
            assert(self@ =~~= decorated(s0@));
        }
    }

    /// Consumes one discrete time step. `confirm` and `reset` are the two
    /// edge-triggered input signals of this frame. The resulting world is
    /// exactly [`game_step`] of the old one, for some pair of in-range dice
    /// rolls, and the invariant is preserved.
    pub fn update(&mut self, confirm: bool, reset: bool)
        requires
            old(self).wf(),
            old(self)@.monster_timer > i64::MIN,
        ensures
            final(self).wf(),
            exists|roll_x: int, roll_t: int|
                {
                    &&& #[trigger] game_step(old(self)@, confirm, reset, roll_x, roll_t)
                        == game_step(old(self)@, confirm, reset, roll_x, roll_t)
                    &&& SPAWN_X_MIN as int <= roll_x < SPAWN_X_MAX as int
                    &&& SPAWN_ROLL_MIN as int <= roll_t < SPAWN_ROLL_MAX as int
                    &&& final(self)@ == game_step(old(self)@, confirm, reset, roll_x, roll_t)
                },
    {
        let ghost mut roll_x: int = SPAWN_X_MIN as int;
        let ghost mut roll_t: int = SPAWN_ROLL_MIN as int;

        if reset {
            self.reset_game();
        }
        let ghost g0 = self@;
        proof {
            assert(g0 == if reset {
                reset_view(old(self)@)
            } else {
                old(self)@
            });
            assert(game_wf(g0));
        }

        match self.state {
            GameState::Intro => {
                self.update_decoration();
                if self.transition.finished && self.transition.kind == TransitionKind::FadeOut {
                    self.state = GameState::Game;
                    self.transition.kind = TransitionKind::FadeIn;
                }
                if confirm {
                    self.transition.kind = TransitionKind::FadeOut;
                }
                proof {
                    assert(self@ =~~= intro_tick(g0, confirm));
                }
            },
            GameState::Game => {
                self.monster_timer = self.monster_timer - 1;
                if self.max_monsters > 0 && self.monster_timer == 0 {
                    let ghost gp = self@;
                    self.monster_incubator();
                    proof {
                        roll_x = choose|rx: int|
                            #![trigger monster_spawn(rx, SPAWN_Y as int)]
                            SPAWN_X_MIN as int <= rx < SPAWN_X_MAX as int && self@ == (GameView {
                                monsters: gp.monsters.push(monster_spawn(rx, SPAWN_Y as int)),
                                ..gp
                            });
                    }
                    self.max_monsters = self.max_monsters - 1;
                    let roll = gen_range_i64(&mut self.rng, SPAWN_ROLL_MIN, SPAWN_ROLL_MAX);
                    self.monster_timer = SPAWN_BASE_DELAY + roll;
                    proof {
                        roll_t = roll as int;
                    }
                }
                proof {
                    assert(self@ =~~= after_spawn(g0, roll_x, roll_t));
                }
                let ghost gs = self@;

                cull_roster(&mut self.monsters);
                self.hero.update(&mut self.monsters, &self.colliders);
                let hx = self.hero.x;
                let hy = self.hero.y;

                let ghost sm: Game = *self;
                let n = self.monsters.len();
                for i in 0..n
                    invariant
                        n == self.monsters@.len(),
                        self.monsters@.len() == sm.monsters@.len(),
                        forall|j: int|
                            0 <= j < i ==> #[trigger] self.monsters@[j]@ == monster_stepped(
                                sm.monsters@[j]@,
                                hx as int,
                                hy as int,
                            ),
                        forall|j: int| i <= j < n ==> #[trigger] self.monsters@[j] == sm.monsters@[j],
                        self.state == sm.state,
                        self.max_monsters == sm.max_monsters,
                        self.monster_timer == sm.monster_timer,
                        self.colliders == sm.colliders,
                        self.particles == sm.particles,
                        self.lights == sm.lights,
                        self.hero == sm.hero,
                        self.transition == sm.transition,
                {
                    let mut m = self.monsters[i];
                    m.update(hx, hy);
                    self.monsters.set(i, m);
                }
                proof {
                    assert(roster_view(self.monsters@) =~= culled(gs.monsters).map_values(
                        |m: MonsterView| monster_stepped(m, gs.hero.x, gs.hero.y),
                    ));
                    assert(self@ =~~= after_combat(gs));
                }

                self.update_decoration();
                proof {
                    assert(self@ =~~= play_tick(g0, roll_x, roll_t));
                }
            },
            GameState::Win => {
                self.update_decoration();
                if confirm {
                    self.state = GameState::Game;
                }
                proof {
                    assert(self@ =~~= end_tick(g0, confirm));
                }
            },
            GameState::End => {
                self.update_decoration();
                if confirm {
                    self.state = GameState::Game;
                }
                proof {
                    assert(self@ =~~= end_tick(g0, confirm));
                }
            },
        }
        let ghost g1 = self@;

        self.transition.tick();
        proof {
            assert(self@ =~~= (GameView { transition: transition_step(g1.transition), ..g1 }));
            assert(self@ =~~= game_step(old(self)@, confirm, reset, roll_x, roll_t));
            assert(game_wf(self@));
        }
    }

    /// Lays out this frame's ordered draw sequence: the core decides what is
    /// drawn and in what order, the external renderer decides how. The
    /// debug overlay reads the entities' collision boxes and hittability
    /// flags directly and is no part of the sequence.
    pub fn render(&self) -> (r: Vec<DrawCommand>)
        ensures
            r@ == render_plan(self@),
    {
        let mut cmds: Vec<DrawCommand> = Vec::new();
        cmds.push(DrawCommand::Background);
        push_light_cmds(&mut cmds, &self.lights);
        match self.state {
            GameState::Game => {
                push_monster_cmds(&mut cmds, &self.monsters);
                cmds.push(DrawCommand::Hero { x: self.hero.x, y: self.hero.y });
                cmds.push(DrawCommand::GroundMask);
                push_particle_cmds(&mut cmds, &self.particles);
                cmds.push(DrawCommand::LetterboxMask);
                cmds.push(DrawCommand::HealthBar);
                proof {
                    assert(cmds@ =~= seq![DrawCommand::Background] + light_cmds(self@.lights)
                        + play_mid_cmds(self@));
                }
            },
            GameState::Intro | GameState::Win | GameState::End => {
                push_particle_cmds(&mut cmds, &self.particles);
                cmds.push(DrawCommand::GroundMask);
                cmds.push(DrawCommand::LetterboxMask);
                proof {
                    assert(cmds@ =~= seq![DrawCommand::Background] + light_cmds(self@.lights)
                        + idle_mid_cmds(self@));
                }
            },
        }
        cmds.push(DrawCommand::TransitionOverlay { alpha: self.transition.alpha });
        proof {
            assert(cmds@ =~= render_plan(self@));
        }
        cmds
    }
}

/// A particle as scattered at world construction: somewhere over the
/// backdrop strip, yet to take a step.
pub open spec fn particle_in_spawn_area(p: ParticleView) -> bool {
    &&& 0 <= p.x < PARTICLE_AREA_W as int
    &&& 0 <= p.y < PARTICLE_AREA_H as int
    &&& p.steps == 0
}

/// The fixed light array of the level: two clusters of three glows.
pub open spec fn world_lights() -> Seq<LightView> {
    seq![
        LightView { x: 11800, y: 7000, radius: 3200, steps: 0 },
        LightView { x: 11700, y: 6900, radius: 2400, steps: 0 },
        LightView { x: 11900, y: 7000, radius: 3000, steps: 0 },
        LightView { x: 32900, y: 7000, radius: 3200, steps: 0 },
        LightView { x: 32800, y: 6900, radius: 2400, steps: 0 },
        LightView { x: 33000, y: 7000, radius: 3000, steps: 0 },
    ]
}

} // verus!
