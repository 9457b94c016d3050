use plane_battle::adversary::Adversary;
use plane_battle::collision::resolve_collisions;
use plane_battle::geometry::Bounds;
use plane_battle::player::Signals;
use plane_battle::projectile::Projectile;
use plane_battle::session::{Phase, Session};
use plane_battle::spawn::{maybe_spawn, spawn_interval_ms};

fn no_signals() -> Signals {
    Signals { left: false, right: false, up: false, down: false, fire: false, restart: false }
}

fn arena() -> Bounds {
    Bounds { width: 480, height: 600 }
}

/// A session that will neither fire nor spawn for a while.
fn quiet_session() -> Session {
    let mut s = Session::new(arena());
    s.spawn_timer = 800;
    s
}

#[test]
fn new_session_is_fresh() {
    let s = Session::new(arena());
    assert_eq!(s.score, 0);
    assert_eq!(s.high_score, 0);
    assert_eq!(s.spawn_timer, 0);
    assert_eq!(s.phase, Phase::Active);
    assert!(s.projectiles.is_empty());
    assert!(s.adversaries.is_empty());
    assert_eq!((s.player.x, s.player.y), (240, 520));
}

#[test]
fn first_step_spawns_an_adversary_at_once() {
    let mut s = Session::new(arena());
    s.step(&no_signals(), 16);
    assert_eq!(s.adversaries.len(), 1);
    let a = &s.adversaries[0];
    // Spawned at y = -40, then advanced once by its speed in [1, 3].
    assert!(a.y >= -39 && a.y <= -37);
    assert!(a.x >= 0 && a.x <= 480 - 40);
    assert!(a.speed >= 1 && a.speed <= 3);
    assert!(a.tag < 3);
    assert!(a.live);
    assert_eq!(s.spawn_timer, 800);
}

#[test]
fn fire_appends_exactly_one_projectile() {
    let mut s = quiet_session();
    s.player.x = 215;
    let mut sig = no_signals();
    sig.fire = true;
    s.step(&sig, 16);
    assert_eq!(s.projectiles.len(), 1);
    let p = &s.projectiles[0];
    // Appended at (215 + 25 - 4, 520), then advanced once by 7.
    assert_eq!(p.x, 215 + 25 - 4);
    assert_eq!(p.y, 520 - 7);
    assert_eq!(p.speed, 7);
    assert!(p.live);
    s.step(&no_signals(), 16);
    assert_eq!(s.projectiles.len(), 1);
    assert_eq!(s.projectiles[0].y, 520 - 14);
}

#[test]
fn resolution_clears_both_and_reports_one_hit() {
    let mut projs = vec![Projectile { x: 100, y: 193, speed: 7, size: 8, live: true }];
    let mut advs = vec![Adversary { x: 90, y: 183, speed: 3, size: 40, live: true, tag: 1 }];
    let hits = resolve_collisions(&mut projs, &mut advs);
    assert_eq!(hits, 1);
    assert!(!projs[0].live);
    assert!(!advs[0].live);
}

#[test]
fn each_entity_resolves_at_most_once_per_pass() {
    // Two projectiles inside one adversary: only the first pair resolves.
    let mut projs = vec![
        Projectile { x: 100, y: 190, speed: 7, size: 8, live: true },
        Projectile { x: 110, y: 190, speed: 7, size: 8, live: true },
    ];
    let mut advs = vec![Adversary { x: 90, y: 180, speed: 3, size: 40, live: true, tag: 0 }];
    let hits = resolve_collisions(&mut projs, &mut advs);
    assert_eq!(hits, 1);
    assert!(!projs[0].live);
    assert!(projs[1].live);
    assert!(!advs[0].live);
}

#[test]
fn collision_scores_ten_and_entities_are_pruned_next_step() {
    let mut s = quiet_session();
    // Positioned so that the pair overlaps right after both advance.
    s.projectiles.push(Projectile { x: 100, y: 200, speed: 7, size: 8, live: true });
    s.adversaries.push(Adversary { x: 90, y: 180, speed: 3, size: 40, live: true, tag: 2 });
    s.step(&no_signals(), 16);
    assert_eq!(s.score, 10);
    assert_eq!(s.phase, Phase::Active);
    assert_eq!(s.projectiles.len(), 1);
    assert_eq!(s.adversaries.len(), 1);
    assert!(!s.projectiles[0].live);
    assert!(!s.adversaries[0].live);
    s.spawn_timer = 800;
    s.step(&no_signals(), 16);
    assert_eq!(s.score, 10);
    assert!(s.projectiles.is_empty());
    assert!(s.adversaries.is_empty());
}

#[test]
fn player_overlap_ends_the_session_and_freezes_it() {
    let mut s = quiet_session();
    // An adversary that advances straight onto the player.
    s.adversaries.push(Adversary { x: 240, y: 519, speed: 1, size: 40, live: true, tag: 0 });
    s.step(&no_signals(), 16);
    assert_eq!(s.phase, Phase::GameOver);
    let frozen_adversaries = s.adversaries.clone();
    let frozen_score = s.score;
    let mut sig = no_signals();
    sig.left = true;
    sig.fire = true;
    for _ in 0i32..5 {
        s.step(&sig, 16);
        assert_eq!(s.phase, Phase::GameOver);
        assert_eq!(s.score, frozen_score);
        assert_eq!(s.adversaries.len(), frozen_adversaries.len());
        assert_eq!((s.player.x, s.player.y), (240, 520));
    }
}

#[test]
fn restart_resets_and_carries_the_best_score() {
    let mut s = quiet_session();
    s.score = 30;
    s.high_score = 50;
    s.adversaries.push(Adversary { x: 240, y: 519, speed: 1, size: 40, live: true, tag: 0 });
    s.step(&no_signals(), 16);
    assert_eq!(s.phase, Phase::GameOver);
    let mut sig = no_signals();
    sig.restart = true;
    s.step(&sig, 16);
    assert_eq!(s.phase, Phase::Active);
    assert_eq!(s.score, 0);
    assert_eq!(s.high_score, 50);
    assert!(s.projectiles.is_empty());
    assert!(s.adversaries.is_empty());
    assert_eq!(s.spawn_timer, 0);
    assert_eq!((s.player.x, s.player.y), (240, 520));
}

#[test]
fn restart_raises_the_high_score_when_beaten() {
    let mut s = quiet_session();
    s.score = 80;
    s.high_score = 50;
    s.phase = Phase::GameOver;
    let mut sig = no_signals();
    sig.restart = true;
    s.step(&sig, 16);
    assert_eq!(s.high_score, 80);
    assert_eq!(s.score, 0);
}

#[test]
fn spawner_waits_for_the_countdown() {
    let mut timer: i32 = 500;
    let r = maybe_spawn(&mut timer, 100, 0, arena());
    assert!(r.is_none());
    assert_eq!(timer, 400);
}

#[test]
fn spawner_produces_within_the_stated_ranges() {
    macroquad::rand::srand(42);
    for _ in 0i32..50 {
        let mut timer: i32 = 0;
        let r = maybe_spawn(&mut timer, 16, 0, arena());
        let a = r.expect("countdown ran out");
        assert_eq!(a.y, -40);
        assert_eq!(a.size, 40);
        assert!(a.x >= 0 && a.x <= 480 - 40);
        assert!(a.speed >= 1 && a.speed <= 3);
        assert!(a.tag < 3);
        assert!(a.live);
        assert_eq!(timer, 800);
    }
}

#[test]
fn spawner_is_deterministic_under_a_seed() {
    macroquad::rand::srand(7);
    let mut t1: i32 = 0;
    let a = maybe_spawn(&mut t1, 16, 0, arena()).unwrap();
    macroquad::rand::srand(7);
    let mut t2: i32 = 0;
    let b = maybe_spawn(&mut t2, 16, 0, arena()).unwrap();
    assert_eq!(a, b);
}

#[test]
fn spawn_interval_shrinks_with_score_to_a_floor() {
    assert_eq!(spawn_interval_ms(0), 800);
    assert_eq!(spawn_interval_ms(250), 550);
    assert_eq!(spawn_interval_ms(499), 301);
    assert_eq!(spawn_interval_ms(500), 300);
    assert_eq!(spawn_interval_ms(100_000), 300);
}

#[test]
fn step_with_zero_elapsed_time_still_resolves_collisions() {
    let mut s = quiet_session();
    s.projectiles.push(Projectile { x: 100, y: 200, speed: 7, size: 8, live: true });
    s.adversaries.push(Adversary { x: 90, y: 180, speed: 3, size: 40, live: true, tag: 0 });
    s.step(&no_signals(), 0);
    // Entities still advance by their fixed per-frame speeds and the pair
    // resolves; the spawn countdown is untouched.
    assert_eq!(s.score, 10);
    assert_eq!(s.spawn_timer, 800);
}
