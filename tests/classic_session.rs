use poligon::classic::{ClassicApp, Enemy, EnemyState};
use poligon::geometry::Point;
use poligon::{IntroPrompt, Screen, Sound, Visual};

fn started_session() -> ClassicApp {
    let mut app = ClassicApp::new(0, 11);
    let r = app.update(4000, None);
    assert_eq!(r.screen, Screen::Blank);
    assert!(!app.show_intro);
    assert_eq!(app.start_time, 4000);
    app
}

#[test]
fn classic_intro_prompts() {
    let mut app = ClassicApp::new(0, 3);
    assert_eq!(app.update(500, None).screen, Screen::Prompt(IntroPrompt::Ready));
    assert_eq!(app.update(2500, None).screen, Screen::Prompt(IntroPrompt::Go));
    assert!(app.show_intro);
    assert_eq!(app.update(4000, None).screen, Screen::Blank);
    assert!(!app.show_intro);
}

#[test]
fn classic_click_kills_and_enemy_leaves_after_half_second() {
    let mut app = started_session();
    let r = app.update(4100, None);
    assert_eq!(r.screen, Screen::Playing);
    assert_eq!(app.enemies.len(), 1);
    let e = app.enemies[0];
    assert_eq!(e.state, EnemyState::Alive);
    assert!(e.x >= 0 && e.x < 75000 && e.y >= 0 && e.y < 50000);
    let r = app.update(4200, Some(Point { x: e.x + 100, y: e.y + 100 }));
    assert_eq!(app.score, 1);
    assert_eq!(r.sounds[0], Sound::Gunshot);
    assert_eq!(r.sounds.len(), 2);
    assert!(matches!(
        r.sounds[1],
        Sound::EnemyDeathSpecial | Sound::EnemyDeath(1) | Sound::EnemyDeath(2) | Sound::EnemyDeath(3)
    ));
    assert_eq!(app.enemies[0].state, EnemyState::Dying(4200));
    app.update(4699, None);
    assert!(app.enemies.iter().any(|e| e.state == EnemyState::Dying(4200)));
    app.update(4700, None);
    assert!(!app.enemies.iter().any(|e| matches!(e.state, EnemyState::Dying(_))));
    assert_eq!(app.score, 1);
}

#[test]
fn classic_miss_plays_only_gunshot() {
    let mut app = started_session();
    app.update(4100, None);
    let r = app.update(4200, Some(Point { x: -5000, y: -5000 }));
    assert_eq!(r.sounds, vec![Sound::Gunshot]);
    assert_eq!(app.score, 0);
}

#[test]
fn classic_untouched_enemy_times_out_without_score() {
    let mut app = started_session();
    app.next_spawn_time = u64::MAX;
    app.spawn_enemy(5000, 100, 100, 1);
    app.update(7999, None);
    assert_eq!(app.enemies.len(), 1);
    app.update(8000, None);
    assert_eq!(app.enemies.len(), 0);
    assert_eq!(app.score, 0);
}

#[test]
fn classic_click_passes_over_dying_enemy() {
    let mut app = started_session();
    app.next_spawn_time = u64::MAX;
    app.spawn_enemy(5000, 0, 0, 2);
    app.update(5100, Some(Point { x: 0, y: 0 }));
    assert_eq!(app.score, 1);
    let r = app.update(5200, Some(Point { x: 7500, y: 11786 }));
    assert_eq!(app.score, 1);
    assert_eq!(r.sounds, vec![Sound::Gunshot]);
    assert_eq!(app.enemies[0].state, EnemyState::Dying(5100));
    app.spawn_enemy(5250, 10, 10, 1);
    let r = app.update(5300, Some(Point { x: 20, y: 20 }));
    assert_eq!(app.score, 2);
    assert_eq!(r.sounds.len(), 2);
    assert_eq!(app.enemies[0].state, EnemyState::Dying(5100));
    assert_eq!(app.enemies[1].state, EnemyState::Dying(5300));
}

#[test]
fn classic_shoot_leaves_dying_enemy_alone() {
    let mut app = started_session();
    app.enemies = vec![Enemy { x: 0, y: 0, variant: 1, state: EnemyState::Dying(4000), spawn_time: 3000 }];
    app.shoot(0, 4100);
    assert_eq!(app.score, 0);
    assert_eq!(app.enemies[0].state, EnemyState::Dying(4000));
}

#[test]
fn classic_round_ends_after_twenty_seconds() {
    let mut app = started_session();
    assert_eq!(app.update(23999, None).screen, Screen::Playing);
    let r = app.update(24000, Some(Point { x: 0, y: 0 }));
    assert_eq!(r.screen, Screen::GameOver);
    assert!(r.sounds.is_empty());
    assert!(app.game_over);
    let before = app.enemies.clone();
    app.update(30000, None);
    assert_eq!(app.enemies, before);
}

#[test]
fn classic_click_target_picks_first_box() {
    let mut app = started_session();
    app.spawn_enemy(5000, 0, 0, 1);
    app.spawn_enemy(5000, 50, 50, 2);
    assert_eq!(app.click_target(Point { x: 60, y: 60 }), Some(app.enemies.len() - 2));
    assert_eq!(app.click_target(Point { x: 7501, y: 0 }), None);
}

#[test]
fn classic_remove_expired_keeps_fresh_ones() {
    let mut app = started_session();
    app.enemies = vec![
        Enemy { x: 0, y: 0, variant: 1, state: EnemyState::Alive, spawn_time: 1000 },
        Enemy { x: 0, y: 0, variant: 1, state: EnemyState::Dying(3700), spawn_time: 1000 },
        Enemy { x: 0, y: 0, variant: 2, state: EnemyState::Alive, spawn_time: 2000 },
    ];
    app.remove_expired(4100);
    assert_eq!(app.enemies.len(), 2);
    assert_eq!(app.enemies[0].state, EnemyState::Dying(3700));
    assert_eq!(app.enemies[1].spawn_time, 2000);
}

#[test]
fn classic_visuals() {
    let e = Enemy { x: 0, y: 0, variant: 2, state: EnemyState::Alive, spawn_time: 0 };
    assert_eq!(e.visual(10), Visual::Enemy(2));
    let d = Enemy { state: EnemyState::Dying(1000), ..e };
    assert_eq!(d.visual(1249), Visual::EnemyDeath(1));
    assert_eq!(d.visual(1250), Visual::EnemyDeath(2));
}

#[test]
fn classic_spawns_vary_with_seed() {
    let mut xs = Vec::new();
    for seed in 0..8u64 {
        let mut app = ClassicApp::new(0, seed);
        assert!(app.next_spawn_time >= 500 && app.next_spawn_time <= 1000);
        app.update(4000, None);
        app.update(4100, None);
        xs.push(app.enemies[0].x);
    }
    assert!(xs.iter().any(|x| *x != xs[0]));
}
