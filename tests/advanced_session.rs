use poligon::advanced::{
    AdvancedApp, Enemy, EnemyKind, EnemyState, SupplyBox, SupplyKind, SupplyState,
};
use poligon::geometry::Point;
use poligon::{Screen, Sound, Visual};

fn normal(x: i64, y: i64, state: EnemyState) -> Enemy {
    Enemy { x, y, variant: 1, state, kind: EnemyKind::Normal, hitpoints: 1, spawn_time: 0 }
}

fn elite(x: i64, y: i64, state: EnemyState) -> Enemy {
    Enemy { x, y, variant: 2, state, kind: EnemyKind::Elite, hitpoints: 3, spawn_time: 0 }
}

fn health_box(x: i64, y: i64) -> SupplyBox {
    SupplyBox { x, y, kind: SupplyKind::Health, state: SupplyState::Active, spawn_time: 0 }
}

/// A session in play at clock 0 with nothing scheduled to spawn.
fn quiet_session() -> AdvancedApp {
    let mut app = AdvancedApp::new(0, 5);
    app.show_intro = false;
    app.start_time = 0;
    app.last_update = 0;
    app.next_enemy_spawn_time = 1_000_000;
    app.next_elite_spawn_time = 1_000_000;
    app.next_supply_time = 1_000_000;
    app
}

#[test]
fn advanced_fresh_session() {
    let app = AdvancedApp::new(100, 9);
    assert_eq!(app.visible_time, 30);
    assert_eq!(app.score, 0);
    assert!(app.show_intro);
    assert!(app.next_enemy_spawn_time >= 600 && app.next_enemy_spawn_time <= 1100);
    assert_eq!(app.next_elite_spawn_time, 30100);
    assert!(app.next_supply_time >= 5100 && app.next_supply_time <= 8100);
}

#[test]
fn advanced_fire_then_second_tick() {
    let mut app = quiet_session();
    assert_eq!(app.visible_time, 30);
    app.enemies = vec![elite(0, 0, EnemyState::Alive { next_fire: 100 })];
    let r = app.update(100, None);
    assert_eq!(r.screen, Screen::Playing);
    assert_eq!(app.visible_time, 27);
    assert_eq!(r.sounds, vec![Sound::EliteFire]);
    assert_eq!(app.enemies[0].state, EnemyState::Firing { fire_start: 100 });
    let r = app.update(1000, None);
    assert_eq!(app.visible_time, 26);
    assert!(r.sounds.is_empty());
    match app.enemies[0].state {
        EnemyState::Alive { next_fire } => assert!(next_fire >= 1700 && next_fire <= 2200),
        other => panic!("unexpected state {:?}", other),
    }
}

#[test]
fn advanced_normal_fire_costs_one() {
    let mut app = quiet_session();
    app.enemies = vec![
        normal(0, 0, EnemyState::Alive { next_fire: 50 }),
        normal(0, 0, EnemyState::Alive { next_fire: 500 }),
    ];
    let r = app.update(100, None);
    assert_eq!(app.visible_time, 29);
    assert_eq!(r.sounds, vec![Sound::EnemyFire]);
}

#[test]
fn advanced_countdown_never_below_zero() {
    let mut app = quiet_session();
    app.visible_time = 2;
    app.enemies = vec![elite(0, 0, EnemyState::Alive { next_fire: 10 })];
    app.update(999, None);
    assert_eq!(app.visible_time, 0);
}

#[test]
fn advanced_game_over_at_zero_freezes_until_restart() {
    let mut app = quiet_session();
    app.visible_time = 0;
    app.next_enemy_spawn_time = 0;
    app.enemies = vec![normal(100, 100, EnemyState::Alive { next_fire: 0 })];
    let before = app.enemies.clone();
    let r = app.update(500, Some(Point { x: 200, y: 200 }));
    assert_eq!(r.screen, Screen::GameOver);
    assert!(r.sounds.is_empty());
    assert!(app.game_over);
    assert_eq!(app.enemies, before);
    assert_eq!(app.score, 0);
    let r = app.update(3000, Some(Point { x: 200, y: 200 }));
    assert_eq!(r.screen, Screen::GameOver);
    assert_eq!(app.enemies, before);
    assert_eq!(app.visible_time, 0);
}

#[test]
fn advanced_take_hit_elite_dies_on_third_shot() {
    let mut e = elite(0, 0, EnemyState::Alive { next_fire: 10 });
    assert!(!e.take_hit(1));
    assert_eq!(e.hitpoints, 2);
    assert!(!e.take_hit(2));
    assert_eq!(e.hitpoints, 1);
    assert!(e.take_hit(3));
    assert_eq!(e.hitpoints, 0);
    assert_eq!(e.state, EnemyState::Dying(3));
    assert!(!e.take_hit(4));
    assert_eq!(e.state, EnemyState::Dying(3));
    assert_eq!(e.hitpoints, 0);
}

#[test]
fn advanced_new_elite() {
    let e = Enemy::new_elite(500, 10, 20, 2);
    assert_eq!(e.hitpoints, 3);
    assert_eq!(e.kind, EnemyKind::Elite);
    assert_eq!(e.state, EnemyState::Alive { next_fire: 1500 });
    assert_eq!((e.x, e.y, e.variant, e.spawn_time), (10, 20, 2, 500));
}

#[test]
fn advanced_click_kills_normal_and_scores_one() {
    let mut app = quiet_session();
    app.enemies = vec![
        normal(0, 0, EnemyState::Dying(0)),
        normal(0, 0, EnemyState::Alive { next_fire: 5000 }),
    ];
    let r = app.update(100, Some(Point { x: 7500, y: 11786 }));
    assert_eq!(app.score, 1);
    assert_eq!(app.enemies[1].state, EnemyState::Dying(100));
    assert_eq!(r.sounds[0], Sound::Gunshot);
    assert!(matches!(
        r.sounds[1],
        Sound::EnemyDeathSpecial | Sound::EnemyDeath(1) | Sound::EnemyDeath(2) | Sound::EnemyDeath(3)
    ));
}

#[test]
fn advanced_click_on_elite_scores_five_on_kill() {
    let mut app = quiet_session();
    app.enemies = vec![elite(0, 0, EnemyState::Alive { next_fire: 5000 })];
    assert_eq!(app.handle_click_on_enemy(Point { x: 1, y: 1 }, 10), None);
    assert_eq!(app.handle_click_on_enemy(Point { x: 1, y: 1 }, 20), None);
    assert_eq!(app.score, 0);
    assert_eq!(app.handle_click_on_enemy(Point { x: 1, y: 1 }, 30), Some(EnemyKind::Elite));
    assert_eq!(app.score, 5);
    assert_eq!(app.handle_click_on_enemy(Point { x: 1, y: 1 }, 40), None);
    assert_eq!(app.score, 5);
}

#[test]
fn advanced_tnt_blast_scores_every_standing_enemy() {
    let mut app = quiet_session();
    app.score = 4;
    app.enemies = vec![
        normal(0, 0, EnemyState::Alive { next_fire: 900 }),
        elite(0, 0, EnemyState::Firing { fire_start: 50 }),
        normal(0, 0, EnemyState::Dying(20)),
        normal(0, 0, EnemyState::Firing { fire_start: 60 }),
    ];
    app.explode_tnt(100);
    assert_eq!(app.score, 4 + 3 + 15 + 3);
    assert_eq!(app.enemies[0].state, EnemyState::Dying(100));
    assert_eq!(app.enemies[1].state, EnemyState::Dying(100));
    assert_eq!(app.enemies[2].state, EnemyState::Dying(20));
    assert_eq!(app.enemies[3].state, EnemyState::Dying(100));
}

#[test]
fn advanced_health_box_click_adds_twenty() {
    let mut app = quiet_session();
    app.supply_boxes = vec![health_box(10000, 10000), health_box(0, 0)];
    let hit = app.click_supply(Point { x: 100, y: 6000 }, 100);
    assert_eq!(hit, Some(SupplyKind::Health));
    assert_eq!(app.visible_time, 50);
    assert_eq!(app.supply_boxes[1].state, SupplyState::Damaged(100));
    assert_eq!(app.supply_boxes[0].state, SupplyState::Active);
    app.click_supply(Point { x: 10000, y: 10000 }, 200);
    assert_eq!(app.visible_time, 60);
}

#[test]
fn advanced_tnt_box_click_costs_five_and_blasts() {
    let mut app = quiet_session();
    app.visible_time = 3;
    app.enemies = vec![elite(20000, 20000, EnemyState::Alive { next_fire: 900 })];
    app.supply_boxes = vec![SupplyBox {
        x: 0,
        y: 0,
        kind: SupplyKind::Tnt,
        state: SupplyState::Active,
        spawn_time: 0,
    }];
    let r = app.update(100, Some(Point { x: 10, y: 10 }));
    assert_eq!(app.visible_time, 0);
    assert_eq!(app.score, 15);
    assert_eq!(app.enemies[0].state, EnemyState::Dying(100));
    assert_eq!(app.supply_boxes[0].state, SupplyState::Exploding(100));
    assert_eq!(r.sounds[0], Sound::Gunshot);
    assert!(matches!(r.sounds[1], Sound::SupplyExplosion | Sound::SupplyExplosionSpecial));
}

#[test]
fn advanced_click_on_hit_box_does_nothing() {
    let mut app = quiet_session();
    app.supply_boxes = vec![SupplyBox {
        x: 0,
        y: 0,
        kind: SupplyKind::Health,
        state: SupplyState::Damaged(10),
        spawn_time: 0,
    }];
    assert_eq!(app.click_supply(Point { x: 10, y: 10 }, 100), None);
    assert_eq!(app.visible_time, 30);
}

#[test]
fn advanced_dying_enemy_leaves_after_half_second() {
    let mut app = quiet_session();
    app.enemies = vec![normal(0, 0, EnemyState::Dying(1000))];
    app.remove_expired(1499);
    assert_eq!(app.enemies.len(), 1);
    app.remove_expired(1500);
    assert_eq!(app.enemies.len(), 0);
}

#[test]
fn advanced_boxes_expire() {
    let mut app = quiet_session();
    app.supply_boxes = vec![
        health_box(0, 0),
        SupplyBox { x: 0, y: 0, kind: SupplyKind::Tnt, state: SupplyState::Exploding(2700), spawn_time: 0 },
    ];
    app.remove_expired(2999);
    assert_eq!(app.supply_boxes.len(), 2);
    app.remove_expired(3000);
    assert_eq!(app.supply_boxes.len(), 1);
    app.remove_expired(3200);
    assert_eq!(app.supply_boxes.len(), 0);
}

#[test]
fn advanced_elites_wait_for_thirty_seconds_of_play() {
    let mut app = quiet_session();
    app.next_elite_spawn_time = 0;
    app.update(29_000, None);
    assert!(app.enemies.iter().all(|e| e.kind != EnemyKind::Elite));
    app.update(31_000, None);
    let elites: Vec<&Enemy> = app.enemies.iter().filter(|e| e.kind == EnemyKind::Elite).collect();
    assert_eq!(elites.len(), 1);
    assert_eq!(elites[0].hitpoints, 3);
    assert!(app.next_elite_spawn_time >= 35_000 && app.next_elite_spawn_time <= 39_000);
}

#[test]
fn advanced_supply_waits_ten_seconds() {
    let mut app = quiet_session();
    app.visible_time = 60;
    app.next_supply_time = 0;
    app.update(9_999, None);
    assert!(app.supply_boxes.is_empty());
    app.update(10_000, None);
    assert_eq!(app.supply_boxes.len(), 1);
    let b = app.supply_boxes[0];
    assert!(b.x >= 0 && b.x < 70000 && b.y >= 0 && b.y < 45000);
    assert_eq!(b.state, SupplyState::Active);
    assert!(app.next_supply_time >= 15_000 && app.next_supply_time <= 18_000);
}

#[test]
fn advanced_spawn_enemy_is_normal() {
    let mut app = quiet_session();
    app.spawn_enemy(200, 5, 6, 2);
    assert_eq!(
        app.enemies[0],
        Enemy {
            x: 5,
            y: 6,
            variant: 2,
            state: EnemyState::Alive { next_fire: 1200 },
            kind: EnemyKind::Normal,
            hitpoints: 1,
            spawn_time: 200,
        }
    );
}

#[test]
fn advanced_visuals() {
    let e = elite(0, 0, EnemyState::Firing { fire_start: 0 });
    assert_eq!(e.visual(10), Visual::EliteFire);
    let d = normal(0, 0, EnemyState::Dying(100));
    assert_eq!(d.visual(349), Visual::EnemyDeath(1));
    assert_eq!(d.visual(350), Visual::EnemyDeath(2));
    let b = SupplyBox { x: 0, y: 0, kind: SupplyKind::Tnt, state: SupplyState::Exploding(0), spawn_time: 0 };
    assert_eq!(b.visual(100), Visual::BoxExplosion);
    assert_eq!(b.visual(300), Visual::BoxDestroyed);
    assert_eq!(health_box(0, 0).visual(0), Visual::BoxHealth);
}

#[test]
fn advanced_intro_does_not_count_as_play() {
    let mut app = AdvancedApp::new(0, 1);
    app.update(1500, None);
    assert_eq!(app.game_time, 0);
    assert_eq!(app.visible_time, 30);
    app.update(4000, None);
    assert!(!app.show_intro);
    app.update(5200, None);
    assert_eq!(app.game_time, 1200);
    assert_eq!(app.visible_time, 29);
}

#[test]
fn advanced_supply_kinds_come_from_the_seed() {
    let mut kinds = Vec::new();
    for seed in 0..40u64 {
        let mut app = AdvancedApp::new(0, seed);
        app.show_intro = false;
        app.next_enemy_spawn_time = 1_000_000;
        app.next_supply_time = 0;
        app.update(10_000, None);
        kinds.push(app.supply_boxes[0].kind);
    }
    assert!(kinds.contains(&SupplyKind::Health));
    assert!(kinds.contains(&SupplyKind::Tnt));
}

#[test]
fn advanced_same_seed_same_schedule() {
    let a = AdvancedApp::new(0, 77);
    let b = AdvancedApp::new(0, 77);
    assert_eq!(a.next_enemy_spawn_time, b.next_enemy_spawn_time);
    assert_eq!(a.next_supply_time, b.next_supply_time);
}

#[test]
fn advanced_take_click_kill_and_health_box() {
    let mut app = quiet_session();
    app.enemies = vec![normal(0, 0, EnemyState::Alive { next_fire: 5000 })];
    app.supply_boxes = vec![health_box(0, 0)];
    let sounds = app.take_click(Point { x: 10, y: 10 }, 100);
    assert_eq!(sounds.len(), 3);
    assert_eq!(sounds[0], Sound::Gunshot);
    assert!(matches!(
        sounds[1],
        Sound::EnemyDeathSpecial | Sound::EnemyDeath(1) | Sound::EnemyDeath(2) | Sound::EnemyDeath(3)
    ));
    assert!(matches!(sounds[2], Sound::SupplyDamage(1) | Sound::SupplyDamage(2) | Sound::SupplyDamage(3)));
    assert_eq!(app.score, 1);
    assert_eq!(app.visible_time, 50);
    assert_eq!(app.enemies[0].state, EnemyState::Dying(100));
    assert_eq!(app.supply_boxes[0].state, SupplyState::Damaged(100));
}

#[test]
fn advanced_take_click_elite_hit_without_kill() {
    let mut app = quiet_session();
    app.enemies = vec![elite(0, 0, EnemyState::Alive { next_fire: 5000 })];
    let sounds = app.take_click(Point { x: 10, y: 10 }, 100);
    assert_eq!(sounds, vec![Sound::Gunshot]);
    assert_eq!(app.enemies[0].hitpoints, 2);
    assert_eq!(app.score, 0);
}

#[test]
fn advanced_update_click_kills_elite_with_death_sound() {
    let mut app = quiet_session();
    let mut e = elite(0, 0, EnemyState::Alive { next_fire: 5000 });
    e.hitpoints = 1;
    app.enemies = vec![e];
    let r = app.update(100, Some(Point { x: 5, y: 5 }));
    assert_eq!(app.score, 5);
    assert_eq!(r.sounds.len(), 2);
    assert_eq!(r.sounds[0], Sound::Gunshot);
    assert!(matches!(r.sounds[1], Sound::EliteDeathSpecial | Sound::EliteDeath(1) | Sound::EliteDeath(2)));
}

#[test]
fn advanced_play_phase_fire_and_expiry() {
    let mut app = quiet_session();
    app.enemies = vec![
        normal(0, 0, EnemyState::Alive { next_fire: 10 }),
        normal(0, 0, EnemyState::Dying(0)),
    ];
    app.supply_boxes = vec![health_box(0, 0)];
    let sounds = app.play_phase(3000);
    assert_eq!(sounds, vec![Sound::EnemyFire]);
    assert_eq!(app.visible_time, 29);
    assert_eq!(app.enemies.len(), 1);
    assert_eq!(app.enemies[0].state, EnemyState::Firing { fire_start: 3000 });
    assert!(app.supply_boxes.is_empty());
}
