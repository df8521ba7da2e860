//! The per-frame cull and the entities' observable state.
use survival_core::game::cull_roster;
use survival_core::hero::{Hero, HERO_BOX_H, HERO_BOX_W};
use survival_core::monster::{Monster, MONSTER_BOX_H, MONSTER_BOX_W};

#[test]
fn cull_removes_inactive_and_keeps_order() {
    let mut roster = Vec::new();
    for k in 0..6 {
        let mut m = Monster::new(1000 * k, 5200);
        m.active = k % 2 == 0;
        roster.push(m);
    }
    cull_roster(&mut roster);
    assert_eq!(roster.len(), 3);
    assert_eq!(roster[0].x, 0);
    assert_eq!(roster[1].x, 2000);
    assert_eq!(roster[2].x, 4000);
    for m in roster.iter() {
        assert!(m.active);
    }
}

#[test]
fn cull_twice_yields_the_same_roster() {
    let mut roster = Vec::new();
    for k in 0..8 {
        let mut m = Monster::new(100 * k, 5200);
        m.active = k != 3 && k != 5;
        roster.push(m);
    }
    cull_roster(&mut roster);
    let after_once: Vec<i64> = roster.iter().map(|m| m.x).collect();
    cull_roster(&mut roster);
    let after_twice: Vec<i64> = roster.iter().map(|m| m.x).collect();
    assert_eq!(after_once, after_twice);
}

#[test]
fn cull_of_empty_roster() {
    let mut roster: Vec<Monster> = Vec::new();
    cull_roster(&mut roster);
    assert_eq!(roster.len(), 0);
}

#[test]
fn monster_spawns_active_and_hittable() {
    let m = Monster::new(7500, 5200);
    assert_eq!(m.x, 7500);
    assert_eq!(m.y, 5200);
    assert!(m.active);
    assert!(m.hitable);
    assert!(m.is_active());
    assert!(m.is_hitable());
}

#[test]
fn monster_update_records_hero_position() {
    let mut m = Monster::new(7500, 5200);
    m.update(31400, 2700);
    assert_eq!(m.seen_hero_x, 31400);
    assert_eq!(m.seen_hero_y, 2700);
    assert_eq!(m.x, 7500);
    assert!(m.active);
}

#[test]
fn monster_collision_box() {
    let m = Monster::new(7500, 5200);
    let b = m.get_collision_box(100, -200);
    assert_eq!(b.x, 7600);
    assert_eq!(b.y, 5000);
    assert_eq!(b.w, MONSTER_BOX_W);
    assert_eq!(b.h, MONSTER_BOX_H);
}

#[test]
fn hero_collision_box() {
    let h = Hero::new(250, 300);
    let b = h.get_collision_box(0, 0);
    assert_eq!(b.x, 250);
    assert_eq!(b.y, 300);
    assert_eq!(b.w, HERO_BOX_W);
    assert_eq!(b.h, HERO_BOX_H);
}
