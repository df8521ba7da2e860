//! The ordered draw sequence the core hands the renderer.
use survival_core::draw::DrawCommand;
use survival_core::game::{Game, GameState, SPAWN_Y};
use survival_core::monster::Monster;

#[test]
fn intro_frame_layout() {
    let g = Game::new(53);
    let plan = g.render();
    // Backdrop, six lights, one hundred particles, ground, letterbox,
    // overlay.
    assert_eq!(plan.len(), 1 + 6 + 100 + 2 + 1);
    assert_eq!(plan[0], DrawCommand::Background);
    for k in 1..7 {
        assert!(matches!(plan[k], DrawCommand::Light { .. }));
    }
    for k in 7..107 {
        assert!(matches!(plan[k], DrawCommand::Particle { .. }));
    }
    assert_eq!(plan[107], DrawCommand::GroundMask);
    assert_eq!(plan[108], DrawCommand::LetterboxMask);
    assert_eq!(plan[109], DrawCommand::TransitionOverlay { alpha: 100 });
}

#[test]
fn play_frame_layout() {
    let mut g = Game::new(59);
    g.state = GameState::Game;
    g.monsters.push(Monster::new(6000, SPAWN_Y));
    g.monsters.push(Monster::new(9000, SPAWN_Y));
    g.hero.x = 1500;
    g.hero.y = 8500;
    g.transition.alpha = 42;
    let plan = g.render();
    // Backdrop, six lights, two monsters, hero, ground, one hundred
    // particles, letterbox, health UI, overlay.
    assert_eq!(plan.len(), 1 + 6 + 2 + 1 + 1 + 100 + 2 + 1);
    assert_eq!(plan[0], DrawCommand::Background);
    assert_eq!(plan[7], DrawCommand::Monster { x: 6000, y: SPAWN_Y });
    assert_eq!(plan[8], DrawCommand::Monster { x: 9000, y: SPAWN_Y });
    assert_eq!(plan[9], DrawCommand::Hero { x: 1500, y: 8500 });
    assert_eq!(plan[10], DrawCommand::GroundMask);
    for k in 11..111 {
        assert!(matches!(plan[k], DrawCommand::Particle { .. }));
    }
    assert_eq!(plan[111], DrawCommand::LetterboxMask);
    assert_eq!(plan[112], DrawCommand::HealthBar);
    assert_eq!(plan[113], DrawCommand::TransitionOverlay { alpha: 42 });
}

#[test]
fn light_commands_carry_the_light_data() {
    let g = Game::new(61);
    let plan = g.render();
    assert_eq!(plan[1], DrawCommand::Light { x: 11800, y: 7000, radius: 3200 });
    assert_eq!(plan[2], DrawCommand::Light { x: 11700, y: 6900, radius: 2400 });
    assert_eq!(plan[6], DrawCommand::Light { x: 33000, y: 7000, radius: 3000 });
}

#[test]
fn end_frames_match_intro_layout() {
    let mut g = Game::new(67);
    g.state = GameState::Win;
    let plan_win = g.render();
    g.state = GameState::End;
    let plan_end = g.render();
    assert_eq!(plan_win.len(), 110);
    assert_eq!(plan_win, plan_end);
}

#[test]
fn overlay_tracks_the_transition() {
    let mut g = Game::new(71);
    g.update(false, false);
    let plan = g.render();
    assert_eq!(plan[plan.len() - 1], DrawCommand::TransitionOverlay { alpha: 99 });
}
