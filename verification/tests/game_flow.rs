//! Scenarios of the top-level state machine, the spawner and the debug
//! reset.
use survival_core::game::{
    Game, GameState, INITIAL_SPAWN_BUDGET, INITIAL_SPAWN_DELAY, SPAWN_BASE_DELAY, SPAWN_ROLL_MAX,
    SPAWN_ROLL_MIN, SPAWN_X_MAX, SPAWN_X_MIN, SPAWN_Y,
};
use survival_core::monster::Monster;
use survival_core::transition::{TransitionKind, ALPHA_MAX};

#[test]
fn intro_to_game_scenario() {
    let mut g = Game::new(11);
    assert!(matches!(g.state, GameState::Intro));
    assert!(matches!(g.transition.kind, TransitionKind::FadeIn));
    assert_eq!(g.transition.alpha, ALPHA_MAX);

    // One hundred ticks without confirm: fully un-faded, still in the intro.
    for _ in 0..100 {
        g.update(false, false);
    }
    assert_eq!(g.transition.alpha, 0);
    assert!(matches!(g.state, GameState::Intro));

    // Tick one hundred one, confirm asserted: the fade-out is armed.
    g.update(true, false);
    assert!(matches!(g.transition.kind, TransitionKind::FadeOut));
    assert!(matches!(g.state, GameState::Intro));

    // One hundred fade-out ticks in all: fully opaque, finished pulses.
    for _ in 0..99 {
        g.update(false, false);
    }
    assert_eq!(g.transition.alpha, ALPHA_MAX);
    assert!(g.transition.finished);
    assert!(matches!(g.state, GameState::Intro));

    // The next tick consumes the pulse: play begins behind a fresh fade-in.
    g.update(false, false);
    assert!(matches!(g.state, GameState::Game));
    assert!(matches!(g.transition.kind, TransitionKind::FadeIn));
    assert_eq!(g.transition.alpha, ALPHA_MAX - 1);
}

#[test]
fn debug_reset_scenario() {
    let mut g = Game::new(23);
    // Reach a state with a roster and a partially exhausted budget.
    g.state = GameState::Game;
    g.monsters.push(Monster::new(7000, SPAWN_Y));
    g.monsters.push(Monster::new(9000, SPAWN_Y));
    g.max_monsters = 2;
    g.monster_timer = 42;
    g.hero.x = 1234;
    g.hero.y = 99;

    g.update(false, true);

    assert!(matches!(g.state, GameState::Intro));
    assert_eq!(g.monsters.len(), 0);
    assert_eq!(g.max_monsters, INITIAL_SPAWN_BUDGET);
    assert_eq!(g.monster_timer, INITIAL_SPAWN_DELAY);
    assert_eq!(g.hero.x, 0);
    assert_eq!(g.hero.y, 0);
}

#[test]
fn reset_game_direct() {
    let mut g = Game::new(29);
    g.state = GameState::End;
    g.monsters.push(Monster::new(6000, SPAWN_Y));
    g.max_monsters = 0;
    g.monster_timer = -250;
    g.hero.x = 5;

    g.reset_game();

    assert!(matches!(g.state, GameState::Intro));
    assert_eq!(g.monsters.len(), 0);
    assert_eq!(g.max_monsters, INITIAL_SPAWN_BUDGET);
    assert_eq!(g.monster_timer, INITIAL_SPAWN_DELAY);
    assert_eq!(g.hero.x, 0);
    assert_eq!(g.hero.y, 0);
}

#[test]
fn exhausted_timer_scenario() {
    let mut g = Game::new(31);
    g.state = GameState::Game;
    g.max_monsters = 0;
    g.monster_timer = 3;
    for _ in 0..1000 {
        g.update(false, false);
        assert_eq!(g.monsters.len(), 0);
    }
    // The countdown was never reset: it fell by exactly one per tick.
    assert_eq!(g.monster_timer, 3 - 1000);
    assert!(matches!(g.state, GameState::Game));
}

#[test]
fn spawn_cap_scenario() {
    let mut g = Game::new(37);
    g.state = GameState::Game;
    let mut roster_peak = 0;
    let mut exhausted_at: Option<(usize, usize)> = None;
    for k in 0..10_000usize {
        g.update(false, false);
        assert!(g.max_monsters >= 0);
        if g.max_monsters == 0 && exhausted_at.is_none() {
            exhausted_at = Some((k, g.monsters.len()));
        }
        if g.monsters.len() > roster_peak {
            roster_peak = g.monsters.len();
        }
    }
    // All five spawns happened, and growth stopped the tick the budget ran
    // out: nothing here deactivates monsters, so the roster holds exactly
    // the spawned five.
    let (_, len_at_exhaustion) = exhausted_at.expect("budget never ran out");
    assert_eq!(g.max_monsters, 0);
    assert_eq!(g.monsters.len(), 5);
    assert_eq!(roster_peak, 5);
    assert_eq!(len_at_exhaustion, 5);
}

#[test]
fn spawn_interval_and_position_ranges() {
    let mut g = Game::new(41);
    g.state = GameState::Game;
    let mut budget = g.max_monsters;
    let mut spawns = 0;
    for _ in 0..2000 {
        g.update(false, false);
        if g.max_monsters < budget {
            spawns += 1;
            // The freshly drawn countdown lies in [50, 79].
            assert!(g.monster_timer >= SPAWN_BASE_DELAY + SPAWN_ROLL_MIN);
            assert!(g.monster_timer <= SPAWN_BASE_DELAY + SPAWN_ROLL_MAX - 1);
            // The newcomer sits at the end of the roster, inside the strip.
            let m = g.monsters[g.monsters.len() - 1];
            assert!(SPAWN_X_MIN <= m.x && m.x < SPAWN_X_MAX);
            assert_eq!(m.y, SPAWN_Y);
            assert!(m.active);
            assert!(m.hitable);
            budget = g.max_monsters;
        }
    }
    assert_eq!(spawns, 5);
}

#[test]
fn win_and_end_confirm_return_to_game() {
    let mut g = Game::new(43);
    g.state = GameState::Win;
    g.update(false, false);
    assert!(matches!(g.state, GameState::Win));
    g.update(true, false);
    assert!(matches!(g.state, GameState::Game));

    g.state = GameState::End;
    g.update(false, false);
    assert!(matches!(g.state, GameState::End));
    g.update(true, false);
    assert!(matches!(g.state, GameState::Game));
}

#[test]
fn new_world_shape() {
    let g = Game::new(47);
    assert!(matches!(g.state, GameState::Intro));
    assert_eq!(g.max_monsters, 5);
    assert_eq!(g.monster_timer, 5);
    assert_eq!(g.monsters.len(), 0);
    assert_eq!(g.lights.len(), 6);
    assert_eq!(g.lights[0].x, 11800);
    assert_eq!(g.lights[0].y, 7000);
    assert_eq!(g.lights[0].radius, 3200);
    assert_eq!(g.lights[5].x, 33000);
    assert_eq!(g.colliders.len(), 3);
    assert_eq!(g.colliders[0].x, 0);
    assert_eq!(g.colliders[0].y, 10100);
    assert_eq!(g.colliders[0].w, 42600);
    assert_eq!(g.colliders[0].h, 1600);
    assert_eq!(g.colliders[1].x, -1600);
    assert_eq!(g.colliders[2].x, 42600);
    assert_eq!(g.particles.len(), 100);
    for p in g.particles.iter() {
        assert!(0 <= p.x && p.x < 42600);
        assert!(0 <= p.y && p.y < 10000);
    }
    assert_eq!(g.hero.x, 0);
    assert_eq!(g.hero.y, 0);
    assert_eq!(g.transition.alpha, ALPHA_MAX);
    assert!(matches!(g.transition.kind, TransitionKind::FadeIn));
}

#[test]
fn same_seed_same_world() {
    let a = Game::new(1234);
    let b = Game::new(1234);
    for (p, q) in a.particles.iter().zip(b.particles.iter()) {
        assert_eq!(p.x, q.x);
        assert_eq!(p.y, q.y);
    }
    let mut a = a;
    let mut b = b;
    a.state = GameState::Game;
    b.state = GameState::Game;
    for _ in 0..500 {
        a.update(false, false);
        b.update(false, false);
        assert_eq!(a.monsters.len(), b.monsters.len());
        assert_eq!(a.monster_timer, b.monster_timer);
    }
    for (m, n) in a.monsters.iter().zip(b.monsters.iter()) {
        assert_eq!(m.x, n.x);
        assert_eq!(m.y, n.y);
    }
}
