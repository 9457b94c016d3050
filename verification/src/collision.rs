//! Collision resolution: each live projectile clears the first live
//! adversary it overlaps (both drop out of later checks, score is awarded
//! once per resolved pair), and any live adversary overlapping the player
//! ends the session.

use vstd::prelude::*;

use crate::adversary::{all_advs_wf, Adversary};
use crate::geometry::{overlaps, rects_overlap};
use crate::player::Player;
use crate::projectile::{all_projs_wf, Projectile};

verus! {

/// Score awarded for each resolved projectile-adversary pair.
pub const SCORE_PER_HIT: u32 = 10;

/// `p` with its liveness flag cleared.
pub open spec fn cleared_p(p: Projectile) -> Projectile {
    Projectile { live: false, ..p }
}

/// `a` with its liveness flag cleared.
pub open spec fn cleared_a(a: Adversary) -> Adversary {
    Adversary { live: false, ..a }
}

/// Scan `advs` from index `j` on for the first live adversary overlapping
/// the projectile `p`; on a hit clear both. Returns the updated projectile,
/// the updated adversaries, and whether a hit happened. A projectile that
/// is not live hits nothing.
pub open spec fn hit_scan(p: Projectile, advs: Seq<Adversary>, j: int) -> (
    Projectile,
    Seq<Adversary>,
    bool,
)
    decreases advs.len() - j,
{
    if !p.live || j < 0 || j >= advs.len() {
        (p, advs, false)
    } else if advs[j].live && rects_overlap(p.rect(), advs[j].rect()) {
        (cleared_p(p), advs.update(j, cleared_a(advs[j])), true)
    } else {
        hit_scan(p, advs, j + 1)
    }
}

/// Resolve the projectiles from index `i` on, in order: each live
/// projectile scans the adversaries for its first live overlap; both
/// members of a resolved pair are cleared before any later check, so each
/// entity takes part in at most one resolution. Returns the updated
/// sequences and the number of resolved pairs.
pub open spec fn resolve_from(projs: Seq<Projectile>, advs: Seq<Adversary>, i: int) -> (
    Seq<Projectile>,
    Seq<Adversary>,
    int,
)
    decreases projs.len() - i,
{
    if i < 0 || i >= projs.len() {
        (projs, advs, 0)
    } else {
        let scanned = hit_scan(projs[i], advs, 0);
        let rest = resolve_from(projs.update(i, scanned.0), scanned.1, i + 1);
        (rest.0, rest.1, rest.2 + if scanned.2 {
            1int
        } else {
            0int
        })
    }
}

/// One complete projectile-adversary resolution pass.
pub open spec fn resolve(projs: Seq<Projectile>, advs: Seq<Adversary>) -> (
    Seq<Projectile>,
    Seq<Adversary>,
    int,
) {
    resolve_from(projs, advs, 0)
}

/// Whether some live adversary overlaps the player.
pub open spec fn any_hits_player(advs: Seq<Adversary>, p: Player) -> bool {
    exists|j: int|
        0 <= j < advs.len() && (#[trigger] advs[j]).live && rects_overlap(advs[j].rect(), p.rect())
}

/// Number of live projectiles from index `i` on.
pub open spec fn live_p_count(s: Seq<Projectile>, i: int) -> int
    decreases s.len() - i,
{
    if i < 0 || i >= s.len() {
        0
    } else {
        (if s[i].live {
            1int
        } else {
            0int
        }) + live_p_count(s, i + 1)
    }
}

/// Number of live adversaries from index `i` on.
pub open spec fn live_a_count(s: Seq<Adversary>, i: int) -> int
    decreases s.len() - i,
{
    if i < 0 || i >= s.len() {
        0
    } else {
        (if s[i].live {
            1int
        } else {
            0int
        }) + live_a_count(s, i + 1)
    }
}

/// Clearing one live adversary lowers the live count by one (for counts
/// started at or before the cleared index).
proof fn lemma_count_a_update(s: Seq<Adversary>, j: int, i: int)
    requires
        0 <= j < s.len(),
        0 <= i <= s.len(),
        s[j].live,
    ensures
        live_a_count(s.update(j, cleared_a(s[j])), i) == live_a_count(s, i) - if i <= j {
            1int
        } else {
            0int
        },
    decreases s.len() - i,
{
    if i < s.len() {
        lemma_count_a_update(s, j, i + 1);
    }
}

/// What one scan does: it touches at most one adversary (clearing a live
/// one), clears the projectile exactly on a hit, and lowers the live
/// adversary count by one exactly on a hit.
proof fn lemma_hit_scan(p: Projectile, advs: Seq<Adversary>, j: int)
    requires
        0 <= j <= advs.len(),
    ensures
        hit_scan(p, advs, j).1.len() == advs.len(),
        hit_scan(p, advs, j).2 ==> p.live && hit_scan(p, advs, j).0 == cleared_p(p),
        !hit_scan(p, advs, j).2 ==> hit_scan(p, advs, j).0 == p && hit_scan(p, advs, j).1 == advs,
        live_a_count(hit_scan(p, advs, j).1, 0) == live_a_count(advs, 0) - if hit_scan(
            p,
            advs,
            j,
        ).2 {
            1int
        } else {
            0int
        },
        forall|k: int|
            0 <= k < advs.len() ==> #[trigger] hit_scan(p, advs, j).1[k] == advs[k] || (advs[k].live
                && hit_scan(p, advs, j).1[k] == cleared_a(advs[k])),
    decreases advs.len() - j,
{
    if !p.live || j >= advs.len() {
    } else if advs[j].live && rects_overlap(p.rect(), advs[j].rect()) {
        lemma_count_a_update(advs, j, 0);
    } else {
        lemma_hit_scan(p, advs, j + 1);
    }
}

/// What one resolution pass does, stated over the suffix from `i`: lengths
/// are kept; the number of resolved pairs equals the number of projectiles
/// that went from live to cleared and also the number of adversaries that
/// went from live to cleared; and every entity is either untouched or has
/// exactly its liveness flag cleared, so none is moved, revived, or
/// resolved twice.
pub proof fn lemma_resolve_from(projs: Seq<Projectile>, advs: Seq<Adversary>, i: int)
    requires
        0 <= i <= projs.len(),
    ensures
        resolve_from(projs, advs, i).0.len() == projs.len(),
        resolve_from(projs, advs, i).1.len() == advs.len(),
        0 <= resolve_from(projs, advs, i).2 <= projs.len() - i,
        forall|k: int| 0 <= k < i ==> #[trigger] resolve_from(projs, advs, i).0[k] == projs[k],
        resolve_from(projs, advs, i).2 == live_p_count(projs, i) - live_p_count(
            resolve_from(projs, advs, i).0,
            i,
        ),
        resolve_from(projs, advs, i).2 == live_a_count(advs, 0) - live_a_count(
            resolve_from(projs, advs, i).1,
            0,
        ),
        forall|k: int|
            0 <= k < projs.len() ==> #[trigger] resolve_from(projs, advs, i).0[k] == projs[k] || (
            projs[k].live && resolve_from(projs, advs, i).0[k] == cleared_p(projs[k])),
        forall|k: int|
            0 <= k < advs.len() ==> #[trigger] resolve_from(projs, advs, i).1[k] == advs[k] || (
            advs[k].live && resolve_from(projs, advs, i).1[k] == cleared_a(advs[k])),
    decreases projs.len() - i,
{
    if i < projs.len() {
        let scanned = hit_scan(projs[i], advs, 0);
        let projs2 = projs.update(i, scanned.0);
        lemma_hit_scan(projs[i], advs, 0);
        lemma_resolve_from(projs2, scanned.1, i + 1);
        let rest = resolve_from(projs2, scanned.1, i + 1);
        lemma_count_p_suffix_agree(projs2, projs, i + 1);
        assert(live_p_count(projs, i) == (if projs[i].live {
            1int
        } else {
            0int
        }) + live_p_count(projs, i + 1));
        assert(live_p_count(rest.0, i) == (if rest.0[i].live {
            1int
        } else {
            0int
        }) + live_p_count(rest.0, i + 1));
        assert(rest.0[i] == projs2[i] || (projs2[i].live && rest.0[i] == cleared_p(projs2[i])));
        assert forall|k: int|
            0 <= k < projs.len() implies #[trigger] resolve_from(projs, advs, i).0[k] == projs[k]
            || (projs[k].live && resolve_from(projs, advs, i).0[k] == cleared_p(projs[k])) by {
            if k != i {
                assert(projs2[k] == projs[k]);
            }
        }
        assert forall|k: int|
            0 <= k < advs.len() implies #[trigger] resolve_from(projs, advs, i).1[k] == advs[k] || (
        advs[k].live && resolve_from(projs, advs, i).1[k] == cleared_a(advs[k])) by {
            assert(scanned.1[k] == advs[k] || (advs[k].live && scanned.1[k] == cleared_a(advs[k])));
            assert(rest.1[k] == scanned.1[k] || (scanned.1[k].live && rest.1[k] == cleared_a(
                scanned.1[k],
            )));
        }
    }
}

/// Counting from `i` only looks at indices `i` and beyond.
proof fn lemma_count_p_suffix_agree(s: Seq<Projectile>, t: Seq<Projectile>, i: int)
    requires
        s.len() == t.len(),
        forall|k: int| i <= k < s.len() ==> s[k] == t[k],
    ensures
        live_p_count(s, i) == live_p_count(t, i),
    decreases s.len() - i,
{
    if 0 <= i < s.len() {
        lemma_count_p_suffix_agree(s, t, i + 1);
    }
}

/// Score accounting for one resolution pass: the pass reports as many hits
/// as there are projectiles whose liveness it cleared, and as many as there
/// are adversaries whose liveness it cleared; every other field of every
/// entity is untouched. With the fixed award per hit this is exactly
/// "score increases by the award once per resolved pair, and each entity
/// takes part in at most one resolution per pass".
pub proof fn lemma_resolution_counts(projs: Seq<Projectile>, advs: Seq<Adversary>)
    ensures
        resolve(projs, advs).0.len() == projs.len(),
        resolve(projs, advs).1.len() == advs.len(),
        0 <= resolve(projs, advs).2 <= projs.len(),
        resolve(projs, advs).2 == live_p_count(projs, 0) - live_p_count(resolve(projs, advs).0, 0),
        resolve(projs, advs).2 == live_a_count(advs, 0) - live_a_count(resolve(projs, advs).1, 0),
        forall|k: int|
            0 <= k < projs.len() ==> #[trigger] resolve(projs, advs).0[k] == projs[k] || (
            projs[k].live && resolve(projs, advs).0[k] == cleared_p(projs[k])),
        forall|k: int|
            0 <= k < advs.len() ==> #[trigger] resolve(projs, advs).1[k] == advs[k] || (
            advs[k].live && resolve(projs, advs).1[k] == cleared_a(advs[k])),
{
    lemma_resolve_from(projs, advs, 0);
}

/// One projectile-adversary resolution pass, in place: for every live
/// projectile in order, scan the adversaries in order and resolve against
/// the first live overlapping one, clearing both flags; entities cleared
/// earlier in the same pass are skipped. Returns the number of resolved
/// pairs.
pub fn resolve_collisions(projs: &mut Vec<Projectile>, advs: &mut Vec<Adversary>) -> (hits: usize)
    requires
        all_projs_wf(old(projs)@),
        all_advs_wf(old(advs)@),
    ensures
        final(projs)@ == resolve(old(projs)@, old(advs)@).0,
        final(advs)@ == resolve(old(projs)@, old(advs)@).1,
        hits as int == resolve(old(projs)@, old(advs)@).2,
        hits <= old(projs)@.len(),
{
    let ghost projs0 = projs@;
    let ghost advs0 = advs@;
    proof {
        lemma_resolve_from(projs0, advs0, 0);
    }
    let mut hits: usize = 0;
    let mut i: usize = 0;
    while i < projs.len()
        invariant
            0 <= i <= projs@.len(),
            projs@.len() == projs0.len(),
            advs@.len() == advs0.len(),
            all_projs_wf(projs@),
            all_advs_wf(advs@),
            hits <= i,
            resolve_from(projs0, advs0, 0).0 == resolve_from(projs@, advs@, i as int).0,
            resolve_from(projs0, advs0, 0).1 == resolve_from(projs@, advs@, i as int).1,
            resolve_from(projs0, advs0, 0).2 == hits + resolve_from(projs@, advs@, i as int).2,
        decreases projs@.len() - i,
    {
        let ghost projs_i = projs@;
        let ghost advs_i = advs@;
        let p = projs[i];
        let mut hit: bool = false;
        if p.live {
            let mut j: usize = 0;
            while j < advs.len() && !hit
                invariant
                    0 <= j <= advs@.len(),
                    advs@.len() == advs_i.len(),
                    all_projs_wf(projs@),
                    all_advs_wf(advs@),
                    p == projs_i[i as int],
                    p.live,
                    i < projs_i.len(),
                    !hit ==> projs@ == projs_i && advs@ == advs_i && hit_scan(p, advs_i, 0)
                        == hit_scan(p, advs_i, j as int),
                    hit ==> projs@ == projs_i.update(i as int, cleared_p(p)) && hit_scan(
                        p,
                        advs_i,
                        0,
                    ) == (cleared_p(p), advs@, true),
                decreases advs@.len() - j + (if hit {
                    0int
                } else {
                    1int
                }),
            {
                let a = advs[j];
                if a.live && overlaps(&p.rect_exec(), &a.rect_exec()) {
                    advs[j] = Adversary { live: false, ..a };
                    let dead = Projectile { live: false, ..p };
                    projs[i] = dead;
                    hit = true;
                } else {
                    j = j + 1;
                }
            }
        }
        proof {
            if !hit {
                assert(hit_scan(p, advs_i, 0) == (p, advs_i, false));
                assert(projs_i.update(i as int, p) =~= projs_i);
            }
            assert(resolve_from(projs_i, advs_i, i as int).0 == resolve_from(
                projs@,
                advs@,
                i as int + 1,
            ).0);
        }
        if hit {
            hits = hits + 1;
        }
        i = i + 1;
    }
    hits
}

/// Whether some live adversary currently overlaps the player: the test that
/// decides the transition to the game-over phase.
pub fn player_overlap(advs: &Vec<Adversary>, player: &Player) -> (r: bool)
    requires
        all_advs_wf(advs@),
        player.rect().wf(),
    ensures
        r == any_hits_player(advs@, *player),
{
    let mut found: bool = false;
    let mut j: usize = 0;
    while j < advs.len()
        invariant
            0 <= j <= advs@.len(),
            all_advs_wf(advs@),
            player.rect().wf(),
            found == exists|k: int|
                0 <= k < j && (#[trigger] advs@[k]).live && rects_overlap(
                    advs@[k].rect(),
                    player.rect(),
                ),
        decreases advs@.len() - j,
    {
        let a = advs[j];
        if a.live && overlaps(&a.rect_exec(), &player.rect_exec()) {
            found = true;
        }
        j = j + 1;
    }
    found
}

} // verus!
