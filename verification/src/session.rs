//! The session: the player, the two entity collections, score, high score,
//! spawn countdown and the Active/GameOver phase, with the per-frame step.

use vstd::prelude::*;

use crate::adversary::{
    advanced_advs, all_advs_wf, lemma_live_only_a_props, live_only_a, prune_adversaries,
    advance_adversaries, spawn_ok, Adversary,
};
use crate::collision::{
    any_hits_player, cleared_a, cleared_p, lemma_resolution_counts, player_overlap, resolve,
    resolve_collisions, SCORE_PER_HIT,
};
use crate::geometry::Bounds;
use crate::player::{
    player_moved, shot_from, Player, Signals, PLAYER_BOTTOM_OFFSET, PLAYER_SIZE, PLAYER_SPEED,
};
use crate::projectile::{
    advanced_projs, all_projs_wf, advance_projectiles, lemma_live_only_p_props, live_only_p,
    prune_projectiles, Projectile,
};
use crate::spawn::{maybe_spawn, spawn_interval, MAX_FRAME_MS, SPAWN_BASE_MS};

verus! {

/// The session-level phase: simulating, or frozen after the player was hit.
#[derive(Clone, Copy, Debug, PartialEq, Eq, Structural)]
pub enum Phase {
    Active,
    GameOver,
}

/// One game session. Exactly one player; the entity collections are owned
/// exclusively by the session and read elsewhere only between steps.
pub struct Session {
    pub player: Player,
    pub projectiles: Vec<Projectile>,
    pub adversaries: Vec<Adversary>,
    pub score: u32,
    pub high_score: u32,
    /// Spawn countdown in milliseconds.
    pub spawn_timer: i32,
    pub phase: Phase,
    pub bounds: Bounds,
}

/// The mathematical state of a session: the same fields with the entity
/// collections as sequences.
#[verifier::ext_equal]
pub struct SessionView {
    pub player: Player,
    pub projectiles: Seq<Projectile>,
    pub adversaries: Seq<Adversary>,
    pub score: u32,
    pub high_score: u32,
    pub spawn_timer: i32,
    pub phase: Phase,
    pub bounds: Bounds,
}

impl View for Session {
    type V = SessionView;

    open spec fn view(&self) -> SessionView {
        SessionView {
            player: self.player,
            projectiles: self.projectiles@,
            adversaries: self.adversaries@,
            score: self.score,
            high_score: self.high_score,
            spawn_timer: self.spawn_timer,
            phase: self.phase,
            bounds: self.bounds,
        }
    }
}

/// The larger of two scores.
pub open spec fn max_score(a: u32, b: u32) -> u32 {
    if a >= b {
        a
    } else {
        b
    }
}

/// The player a fresh session starts with: horizontally centred, near the
/// arena bottom.
pub open spec fn initial_player(b: Bounds) -> Player {
    Player {
        x: (b.width / 2) as i32,
        y: (b.height - PLAYER_BOTTOM_OFFSET) as i32,
        speed: PLAYER_SPEED,
        size: PLAYER_SIZE,
    }
}

/// A fresh Active session in arena `b` carrying high score `hs`: score 0,
/// no entities, spawn countdown at zero so an adversary appears at once.
pub open spec fn fresh_session(b: Bounds, hs: u32) -> SessionView {
    SessionView {
        player: initial_player(b),
        projectiles: Seq::empty(),
        adversaries: Seq::empty(),
        score: 0,
        high_score: hs,
        spawn_timer: 0,
        phase: Phase::Active,
        bounds: b,
    }
}

/// The session invariant: a well-formed arena that fits the player, a
/// well-formed player inside it, every projectile well-formed and at or
/// below the arena top, every adversary well-formed and within the arena's
/// horizontal span and above its bottom, and the spawn countdown within
/// `[0, SPAWN_BASE_MS]`.
pub open spec fn session_wf(v: SessionView) -> bool {
    &&& v.bounds.wf()
    &&& v.bounds.width >= 2 * PLAYER_SIZE
    &&& v.bounds.height >= PLAYER_BOTTOM_OFFSET
    &&& v.player.wf(v.bounds)
    &&& forall|k: int|
        0 <= k < v.projectiles.len() ==> (#[trigger] v.projectiles[k]).wf()
            && 0 <= v.projectiles[k].y
    &&& forall|k: int|
        0 <= k < v.adversaries.len() ==> (#[trigger] v.adversaries[k]).wf()
            && v.adversaries[k].y <= v.bounds.height && 0 <= v.adversaries[k].x
            <= v.bounds.width - v.adversaries[k].size
    &&& 0 <= v.spawn_timer <= SPAWN_BASE_MS
}

/// One Active frame, given the elapsed time, the action signals and the
/// adversary that was spawned if the countdown ran out: the player moves;
/// a fired projectile is appended; projectiles advance and the cleared
/// ones are pruned; the spawner ticks; adversaries advance and the cleared
/// ones are pruned; projectile-adversary pairs are resolved and scored;
/// and the phase becomes GameOver exactly if a live adversary then
/// overlaps the player.
pub open spec fn active_step(
    v: SessionView,
    s: Signals,
    dt: u32,
    spawned: Option<Adversary>,
) -> SessionView {
    let player = player_moved(v.player, s, v.bounds);
    let projs_fired = if s.fire {
        v.projectiles.push(shot_from(player))
    } else {
        v.projectiles
    };
    let projs_moved = live_only_p(advanced_projs(projs_fired));
    let spawning = v.spawn_timer - dt <= 0;
    let timer2 = if spawning {
        spawn_interval(v.score)
    } else {
        v.spawn_timer - dt
    };
    let advs_spawned = if spawning {
        match spawned {
            Option::Some(a) => v.adversaries.push(a),
            Option::None => v.adversaries,
        }
    } else {
        v.adversaries
    };
    let advs_moved = live_only_a(advanced_advs(advs_spawned, v.bounds));
    let rez = resolve(projs_moved, advs_moved);
    let phase2 = if any_hits_player(rez.1, player) {
        Phase::GameOver
    } else {
        Phase::Active
    };
    SessionView {
        player,
        projectiles: rez.0,
        adversaries: rez.1,
        score: (v.score + SCORE_PER_HIT * rez.2) as u32,
        high_score: v.high_score,
        spawn_timer: timer2 as i32,
        phase: phase2,
        bounds: v.bounds,
    }
}

impl Session {
    /// A fresh session in arena `b`, with no high score carried over.
    pub fn new(b: Bounds) -> (s: Session)
        requires
            b.wf(),
            b.width >= 2 * PLAYER_SIZE,
            b.height >= PLAYER_BOTTOM_OFFSET,
        ensures
            s@ == fresh_session(b, 0),
            session_wf(s@),
    {
        let s = Session {
            player: Player::new(b),
            projectiles: Vec::new(),
            adversaries: Vec::new(),
            score: 0,
            high_score: 0,
            spawn_timer: 0,
            phase: Phase::Active,
            bounds: b,
        };
        proof {
            assert(s@ =~= fresh_session(b, 0));
        }
        s
    }

    /// One per-frame step of the whole simulation.
    ///
    /// In the GameOver phase every input but the restart signal is ignored;
    /// the restart signal replaces the session by a fresh one that carries
    /// `max(high_score, score)` as the new high score. In the Active phase
    /// the frame proceeds as `active_step` describes; whether an adversary
    /// is spawned is decided by the countdown alone, and the spawned
    /// adversary's randomized parameters are pinned down by `spawn_ok`.
    pub fn step(&mut self, s: &Signals, dt: u32)
        requires
            session_wf(old(self)@),
            dt <= MAX_FRAME_MS,
            old(self)@.score + SCORE_PER_HIT * (old(self)@.projectiles.len() + 1) <= u32::MAX,
        ensures
            session_wf(final(self)@),
            old(self)@.phase == Phase::GameOver && s.restart ==> final(self)@ == fresh_session(
                old(self)@.bounds,
                max_score(old(self)@.high_score, old(self)@.score),
            ),
            old(self)@.phase == Phase::GameOver && !s.restart ==> final(self)@ == old(self)@,
            old(self)@.phase == Phase::Active && old(self)@.spawn_timer - dt > 0 ==> final(self)@
                == active_step(old(self)@, *s, dt, Option::None),
            old(self)@.phase == Phase::Active && old(self)@.spawn_timer - dt <= 0 ==> exists|
                a: Adversary,
            |
                spawn_ok(a, old(self)@.bounds) && final(self)@ == active_step(
                    old(self)@,
                    *s,
                    dt,
                    Option::Some(a),
                ),
            old(self)@.phase == Phase::Active ==> final(self)@.score >= old(self)@.score
                && final(self)@.high_score == old(self)@.high_score,
            final(self)@.high_score >= old(self)@.high_score,
            final(self)@.bounds == old(self)@.bounds,
    {
        let ghost v0 = self@;
        match self.phase {
            Phase::GameOver => {
                if s.restart {
                    let hs = if self.score > self.high_score {
                        self.score
                    } else {
                        self.high_score
                    };
                    let b = self.bounds;
                    *self = Session {
                        player: Player::new(b),
                        projectiles: Vec::new(),
                        adversaries: Vec::new(),
                        score: 0,
                        high_score: hs,
                        spawn_timer: 0,
                        phase: Phase::Active,
                        bounds: b,
                    };
                    proof {
                        assert(self@ =~= fresh_session(v0.bounds, max_score(v0.high_score, v0.score)));
                    }
                }
            },
            Phase::Active => {
                let b = self.bounds;
                self.player.update(s, b);
                let ghost player = self.player;
                if s.fire {
                    let pr = self.player.shoot();
                    self.projectiles.push(pr);
                }
                let ghost projs_fired = self.projectiles@;
                proof {
                    assert(forall|k: int|
                        0 <= k < projs_fired.len() ==> (#[trigger] projs_fired[k]).wf()
                            && 0 <= projs_fired[k].y);
                }
                advance_projectiles(&mut self.projectiles);
                prune_projectiles(&mut self.projectiles);
                let ghost projs_moved = self.projectiles@;
                proof {
                    assert(projs_moved == live_only_p(advanced_projs(projs_fired)));
                    lemma_live_only_p_props(advanced_projs(projs_fired));
                    assert forall|k: int| 0 <= k < projs_moved.len() implies (
                        #[trigger] projs_moved[k]).wf() && 0 <= projs_moved[k].y
                        && projs_moved[k].live by {
                        let adv = advanced_projs(projs_fired);
                        let e = projs_moved[k];
                        assert(adv.contains(e));
                        let m = choose|m: int| 0 <= m < adv.len() && adv[m] == e;
                        assert(adv[m] == crate::projectile::proj_step(projs_fired[m]));
                        assert(projs_fired[m].wf());
                    }
                }
                let spawned = maybe_spawn(&mut self.spawn_timer, dt, self.score, b);
                if let Some(a) = spawned {
                    self.adversaries.push(a);
                }
                let ghost advs_spawned = self.adversaries@;
                proof {
                    assert(forall|k: int|
                        0 <= k < advs_spawned.len() ==> (#[trigger] advs_spawned[k]).wf()
                            && advs_spawned[k].y <= b.height && 0 <= advs_spawned[k].x <= b.width
                            - advs_spawned[k].size);
                }
                advance_adversaries(&mut self.adversaries, b);
                prune_adversaries(&mut self.adversaries);
                let ghost advs_moved = self.adversaries@;
                proof {
                    assert(advs_moved == live_only_a(advanced_advs(advs_spawned, b)));
                    lemma_live_only_a_props(advanced_advs(advs_spawned, b));
                    assert forall|k: int| 0 <= k < advs_moved.len() implies (
                        #[trigger] advs_moved[k]).wf() && advs_moved[k].y <= b.height && 0
                        <= advs_moved[k].x <= b.width - advs_moved[k].size
                        && advs_moved[k].live by {
                        let adv = advanced_advs(advs_spawned, b);
                        let e = advs_moved[k];
                        assert(adv.contains(e));
                        let m = choose|m: int| 0 <= m < adv.len() && adv[m] == e;
                        assert(adv[m] == crate::adversary::adv_step(advs_spawned[m], b));
                        assert(advs_spawned[m].wf());
                    }
                }
                let hits = resolve_collisions(&mut self.projectiles, &mut self.adversaries);
                proof {
                    lemma_resolution_counts(projs_moved, advs_moved);
                    assert(hits <= projs_moved.len());
                    assert(projs_moved.len() <= advanced_projs(projs_fired).len());
                    assert(projs_fired.len() <= v0.projectiles.len() + 1);
                    assert forall|k: int| 0 <= k < self.projectiles@.len() implies (
                        #[trigger] self.projectiles@[k]).wf() && 0 <= self.projectiles@[k].y by {
                        assert(self.projectiles@[k] == projs_moved[k] || (projs_moved[k].live
                            && self.projectiles@[k] == cleared_p(projs_moved[k])));
                    }
                    assert forall|k: int| 0 <= k < self.adversaries@.len() implies (
                        #[trigger] self.adversaries@[k]).wf() && self.adversaries@[k].y <= b.height
                        && 0 <= self.adversaries@[k].x <= b.width - self.adversaries@[k].size by {
                        assert(self.adversaries@[k] == advs_moved[k] || (advs_moved[k].live
                            && self.adversaries@[k] == cleared_a(advs_moved[k])));
                    }
                }
                self.score = self.score + SCORE_PER_HIT * (hits as u32);
                let hit_player = player_overlap(&self.adversaries, &self.player);
                if hit_player {
                    self.phase = Phase::GameOver;
                }
                proof {
                    assert(self@ =~= active_step(v0, *s, dt, spawned));
                    if v0.spawn_timer - dt <= 0 {
                        let a = spawned->Some_0;
                        assert(spawned == Option::Some(a));
                        assert(spawn_ok(a, v0.bounds) && self@ == active_step(
                            v0,
                            *s,
                            dt,
                            Option::Some(a),
                        ));
                    }
                }
            },
        }
    }
}

} // verus!
