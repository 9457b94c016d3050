use plane_battle::adversary::{prune_adversaries, Adversary};
use plane_battle::geometry::{overlaps, Bounds, Rect};
use plane_battle::player::{Player, Signals};
use plane_battle::projectile::{prune_projectiles, Projectile};

fn no_signals() -> Signals {
    Signals { left: false, right: false, up: false, down: false, fire: false, restart: false }
}

fn arena() -> Bounds {
    Bounds { width: 480, height: 600 }
}

#[test]
fn overlap_basic() {
    let a = Rect { x: 0, y: 0, size: 10 };
    let b = Rect { x: 9, y: 9, size: 10 };
    assert!(overlaps(&a, &b));
    let c = Rect { x: 20, y: 0, size: 10 };
    assert!(!overlaps(&a, &c));
}

#[test]
fn overlap_touching_edges_do_not_collide() {
    let a = Rect { x: 0, y: 0, size: 10 };
    let right = Rect { x: 10, y: 0, size: 10 };
    let below = Rect { x: 0, y: 10, size: 10 };
    assert!(!overlaps(&a, &right));
    assert!(!overlaps(&a, &below));
}

#[test]
fn overlap_is_symmetric_on_samples() {
    let cases = [
        (Rect { x: 0, y: 0, size: 10 }, Rect { x: 5, y: 5, size: 10 }),
        (Rect { x: 0, y: 0, size: 10 }, Rect { x: 10, y: 0, size: 10 }),
        (Rect { x: -3, y: 7, size: 4 }, Rect { x: 0, y: 0, size: 8 }),
        (Rect { x: 100, y: 100, size: 1 }, Rect { x: 90, y: 90, size: 30 }),
    ];
    for (a, b) in cases {
        assert_eq!(overlaps(&a, &b), overlaps(&b, &a));
    }
}

#[test]
fn player_starts_centred_near_bottom() {
    let p = Player::new(arena());
    assert_eq!(p.x, 240);
    assert_eq!(p.y, 520);
    assert_eq!(p.speed, 5);
    assert_eq!(p.size, 50);
}

#[test]
fn player_moves_by_speed() {
    let b = arena();
    let mut p = Player::new(b);
    let mut s = no_signals();
    s.right = true;
    p.update(&s, b);
    assert_eq!((p.x, p.y), (245, 520));
    s.right = false;
    s.up = true;
    p.update(&s, b);
    assert_eq!((p.x, p.y), (245, 515));
}

#[test]
fn player_opposing_signals_cancel() {
    let b = arena();
    let mut p = Player::new(b);
    let mut s = no_signals();
    s.left = true;
    s.right = true;
    s.up = true;
    s.down = true;
    p.update(&s, b);
    assert_eq!((p.x, p.y), (240, 520));
}

#[test]
fn player_never_leaves_arena() {
    let b = arena();
    let mut p = Player::new(b);
    let mut s = no_signals();
    s.left = true;
    s.up = true;
    for _ in 0i32..500 {
        p.update(&s, b);
        assert!(p.x >= 0 && p.x <= b.width - p.size);
        assert!(p.y >= 0 && p.y <= b.height - p.size);
    }
    assert_eq!((p.x, p.y), (0, 0));
    s.left = false;
    s.up = false;
    s.right = true;
    s.down = true;
    for _ in 0i32..500 {
        p.update(&s, b);
        assert!(p.x >= 0 && p.x <= b.width - p.size);
        assert!(p.y >= 0 && p.y <= b.height - p.size);
    }
    assert_eq!((p.x, p.y), (b.width - p.size, b.height - p.size));
}

#[test]
fn fired_projectile_starts_at_player_centre_top() {
    let p = Player { x: 215, y: 520, speed: 5, size: 50 };
    let pr = p.shoot();
    assert_eq!(pr.x, 215 + 25 - 4);
    assert_eq!(pr.y, 520);
    assert_eq!(pr.speed, 7);
    assert_eq!(pr.size, 8);
    assert!(pr.live);
}

#[test]
fn projectile_dies_crossing_top_and_not_before() {
    let p = Player { x: 215, y: 520, speed: 5, size: 50 };
    let mut pr = p.shoot();
    for step in 1i32..=75 {
        pr.advance();
        assert_eq!(pr.y, 520 - 7 * step);
        if step < 75 {
            assert!(pr.live, "still above the top at step {}", step);
        }
    }
    assert_eq!(pr.y, -5);
    assert!(!pr.live);
}

#[test]
fn projectile_advance_times_matches_single_steps() {
    let p = Player { x: 215, y: 520, speed: 5, size: 50 };
    let mut a = p.shoot();
    let mut b = p.shoot();
    a.advance_times(74);
    for _ in 0i32..74 {
        b.advance();
    }
    assert_eq!(a, b);
    assert!(a.live);
    a.advance_times(1);
    assert!(!a.live);
    assert_eq!(a.y, -5);
}

#[test]
fn dead_projectiles_are_pruned() {
    let mut v = vec![
        Projectile { x: 0, y: 10, speed: 7, size: 8, live: true },
        Projectile { x: 1, y: -5, speed: 7, size: 8, live: false },
        Projectile { x: 2, y: 20, speed: 7, size: 8, live: true },
    ];
    prune_projectiles(&mut v);
    assert_eq!(v.len(), 2);
    assert_eq!(v[0].x, 0);
    assert_eq!(v[1].x, 2);
}

#[test]
fn adversary_dies_below_bottom_and_is_pruned() {
    let b = arena();
    let mut a = Adversary { x: 100, y: -40, speed: 3, size: 40, live: true, tag: 0 };
    let mut steps: i32 = 0;
    while a.y <= 600 {
        a.advance(b);
        steps += 1;
        assert!(steps < 1000);
        if a.y <= 600 {
            assert!(a.live);
        }
    }
    assert!(!a.live);
    assert_eq!(a.y, -40 + 3 * steps);
    let mut v = vec![a];
    prune_adversaries(&mut v);
    assert!(v.is_empty());
}
