//! The per-frame systems and the frame step that composes them.
//!
//! Each frame, the tower firing system advances every tower's cooldown and
//! queues one bullet spawn for every cooldown that completes, and the
//! bullet lifetime system advances every bullet's lifetime and queues a
//! removal for every lifetime that completes. The two systems read disjoint
//! entity sets; their queued spawns and removals are applied together at
//! the end of the frame, so neither observes the other's effects
//! mid-frame. [`step_frame`] is the mathematical model of one frame and
//! [`tick_frame`] is the executable step, proved equal to it.

use crate::scene::{fresh_bullet, Bullet, Lifetime, Tower, World, WorldView, BULLET_SIZE_MM};
use crate::timer::{Timer, TimerMode};
use vstd::prelude::*;

verus! {

/// One tower after a frame: its cooldown advanced by the frame duration.
pub open spec fn ticked_tower(t: Tower, delta_ms: u64) -> Tower {
    Tower {
        shooting_timer: t.shooting_timer.after_tick(delta_ms),
        spatial: t.spatial,
        size_mm: t.size_mm,
        color: t.color,
        name: t.name,
    }
}

/// One bullet after a frame: its lifetime advanced by the frame duration,
/// everything else untouched.
pub open spec fn ticked_bullet(b: Bullet, delta_ms: u64) -> Bullet {
    Bullet {
        lifetime: Lifetime { timer: b.lifetime.timer.after_tick(delta_ms) },
        spatial: b.spatial,
        size_mm: b.size_mm,
        color: b.color,
        name: b.name,
        spawned_at_ms: b.spawned_at_ms,
    }
}

/// All towers after a frame, each in its place.
pub open spec fn towers_after(ts: Seq<Tower>, delta_ms: u64) -> Seq<Tower>
    decreases ts.len(),
{
    if ts.len() == 0 {
        Seq::empty()
    } else {
        towers_after(ts.drop_last(), delta_ms).push(ticked_tower(ts.last(), delta_ms))
    }
}

/// How many towers' cooldowns complete during a frame; each one spawns
/// exactly one bullet.
pub open spec fn finishing_count(ts: Seq<Tower>, delta_ms: u64) -> int
    decreases ts.len(),
{
    if ts.len() == 0 {
        0
    } else {
        finishing_count(ts.drop_last(), delta_ms) + (if ts.last().shooting_timer.finishes_on(
            delta_ms,
        ) {
            1int
        } else {
            0int
        })
    }
}

/// The bullets that survive a frame: each lifetime advanced, and exactly
/// those whose lifetime completed during the frame removed; the order of
/// the survivors is kept.
pub open spec fn bullets_kept(bs: Seq<Bullet>, delta_ms: u64) -> Seq<Bullet>
    decreases bs.len(),
{
    if bs.len() == 0 {
        Seq::empty()
    } else {
        let rest = bullets_kept(bs.drop_last(), delta_ms);
        if bs.last().lifetime.timer.finishes_on(delta_ms) {
            rest
        } else {
            rest.push(ticked_bullet(bs.last(), delta_ms))
        }
    }
}

/// The bullets a frame spawns: `n` copies of the fresh bullet, stamped
/// with the world time at the end of the frame.
pub open spec fn fresh_bullets(n: int, spawn_time_ms: u64) -> Seq<Bullet> {
    Seq::new(n as nat, |i: int| fresh_bullet(spawn_time_ms))
}

/// The mathematical model of one frame: both systems run against the
/// state the frame began with, and their spawns and removals are applied
/// together at the end. The scene furniture never changes.
pub open spec fn step_frame(w: WorldView, delta_ms: u64) -> WorldView {
    let new_time = (w.time_ms + delta_ms) as u64;
    let n = finishing_count(w.towers, delta_ms);
    WorldView {
        cameras: w.cameras,
        planes: w.planes,
        lights: w.lights,
        towers: towers_after(w.towers, delta_ms),
        bullets: bullets_kept(w.bullets, delta_ms) + fresh_bullets(n, new_time),
        time_ms: new_time,
        bullets_spawned: w.bullets_spawned + n,
    }
}

/// A whole run: the frames applied in order, first one first.
pub open spec fn run_frames(w: WorldView, deltas: Seq<u64>) -> WorldView
    decreases deltas.len(),
{
    if deltas.len() == 0 {
        w
    } else {
        run_frames(step_frame(w, deltas[0]), deltas.drop_first())
    }
}

/// `towers_after` touches each tower independently: it keeps the length
/// and advances the cooldown of each tower in place.
pub proof fn lemma_towers_after_index(ts: Seq<Tower>, delta_ms: u64)
    ensures
        towers_after(ts, delta_ms).len() == ts.len(),
        forall|i: int|
            0 <= i < ts.len() ==> #[trigger] towers_after(ts, delta_ms)[i] == ticked_tower(
                ts[i],
                delta_ms,
            ),
    decreases ts.len(),
{
    if ts.len() > 0 {
        lemma_towers_after_index(ts.drop_last(), delta_ms);
    }
}

/// A frame spawns no more bullets than there are towers, and never a
/// negative number of them.
pub proof fn lemma_finishing_count_bounds(ts: Seq<Tower>, delta_ms: u64)
    ensures
        0 <= finishing_count(ts, delta_ms) <= ts.len(),
    decreases ts.len(),
{
    if ts.len() > 0 {
        lemma_finishing_count_bounds(ts.drop_last(), delta_ms);
    }
}

/// A frame removes bullets and never adds any in the lifetime pass.
pub proof fn lemma_bullets_kept_len(bs: Seq<Bullet>, delta_ms: u64)
    ensures
        bullets_kept(bs, delta_ms).len() <= bs.len(),
    decreases bs.len(),
{
    if bs.len() > 0 {
        lemma_bullets_kept_len(bs.drop_last(), delta_ms);
    }
}

/// Surviving a frame keeps a bullet live: its lifetime still runs, and its
/// accumulated time still equals the time since it was spawned, now
/// measured at the end of the frame.
pub proof fn lemma_bullets_kept_wf(bs: Seq<Bullet>, delta_ms: u64, now: int)
    requires
        forall|i: int| 0 <= i < bs.len() ==> (#[trigger] bs[i]).wf_at(now),
    ensures
        forall|j: int|
            0 <= j < bullets_kept(bs, delta_ms).len() ==> (#[trigger] bullets_kept(
                bs,
                delta_ms,
            )[j]).wf_at(now + delta_ms),
    decreases bs.len(),
{
    if bs.len() > 0 {
        let rest = bs.drop_last();
        assert forall|i: int| 0 <= i < rest.len() implies (#[trigger] rest[i]).wf_at(now) by {
            assert(bs[i].wf_at(now));
        }
        lemma_bullets_kept_wf(rest, delta_ms, now);
        let kept = bullets_kept(bs, delta_ms);
        let kept_rest = bullets_kept(rest, delta_ms);
        let last = bs.last();
        assert(last.wf_at(now));
        assert forall|j: int| 0 <= j < kept.len() implies (#[trigger] kept[j]).wf_at(
            now + delta_ms,
        ) by {
            if last.lifetime.timer.finishes_on(delta_ms) {
                assert(kept[j] == kept_rest[j]);
                assert(kept_rest[j].wf_at(now + delta_ms));
            } else {
                if j < kept_rest.len() {
                    assert(kept[j] == kept_rest[j]);
                    assert(kept_rest[j].wf_at(now + delta_ms));
                } else {
                    assert(kept[j] == ticked_bullet(last, delta_ms));
                }
            }
        }
    }
}

/// One frame keeps the world well formed: the towers' cooldowns stay
/// running, every surviving bullet is still live, and every bullet spawned
/// this frame starts live at the new world time.
pub proof fn lemma_step_frame_wf(w: WorldView, delta_ms: u64)
    requires
        w.wf(),
        w.time_ms + delta_ms <= u64::MAX,
    ensures
        step_frame(w, delta_ms).wf(),
{
    let after = step_frame(w, delta_ms);
    let new_time = (w.time_ms + delta_ms) as u64;
    lemma_towers_after_index(w.towers, delta_ms);
    assert forall|i: int| 0 <= i < after.towers.len() implies (#[trigger] after.towers[i]).wf() by {
        crate::timer::lemma_after_tick_wf(w.towers[i].shooting_timer, delta_ms);
    }
    lemma_bullets_kept_wf(w.bullets, delta_ms, w.time_ms as int);
    let kept = bullets_kept(w.bullets, delta_ms);
    let n = finishing_count(w.towers, delta_ms);
    lemma_finishing_count_bounds(w.towers, delta_ms);
    assert forall|i: int| 0 <= i < after.bullets.len() implies (#[trigger] after.bullets[i]).wf_at(
        new_time as int,
    ) by {
        if i < kept.len() {
            assert(after.bullets[i] == kept[i]);
        } else {
            assert(after.bullets[i] == fresh_bullet(new_time));
        }
    }
}

/// The tower firing system: advance every tower's cooldown by the frame
/// duration and hand back the queue of bullets to spawn — one per
/// completed cooldown, each stamped with the given spawn time.
pub fn tower_shoot(towers: &mut Vec<Tower>, delta_ms: u64, spawn_time_ms: u64) -> (spawned: Vec<
    Bullet,
>)
    requires
        forall|i: int| 0 <= i < old(towers)@.len() ==> (#[trigger] old(towers)@[i]).wf(),
        forall|i: int|
            0 <= i < old(towers)@.len() ==> (#[trigger] old(
                towers,
            )@[i]).shooting_timer.elapsed_ms + delta_ms <= u64::MAX,
    ensures
        final(towers)@ == towers_after(old(towers)@, delta_ms),
        spawned@ == fresh_bullets(finishing_count(old(towers)@, delta_ms), spawn_time_ms),
{
    let ghost orig = towers@;
    let mut out: Vec<Tower> = Vec::new();
    let mut spawned: Vec<Bullet> = Vec::new();
    let mut i: usize = 0;
    while i < towers.len()
        invariant
            i <= towers.len(),
            towers@ == orig,
            forall|k: int| 0 <= k < orig.len() ==> (#[trigger] orig[k]).wf(),
            forall|k: int|
                0 <= k < orig.len() ==> (#[trigger] orig[k]).shooting_timer.elapsed_ms + delta_ms
                    <= u64::MAX,
            out@ == towers_after(orig.take(i as int), delta_ms),
            spawned@ == fresh_bullets(
                finishing_count(orig.take(i as int), delta_ms),
                spawn_time_ms,
            ),
        decreases towers.len() - i,
    {
        let mut t = towers[i];
        let just_finished = t.shooting_timer.tick(delta_ms);
        out.push(t);
        if just_finished {
            let bullet = Bullet {
                lifetime: Lifetime {
                    timer: Timer::from_millis(
                        crate::scene::BULLET_LIFETIME_MS,
                        TimerMode::Once,
                    ),
                },
                spatial: crate::scene::Spatial {
                    translation: crate::scene::Vec3Milli { x_mm: 0, y_mm: 700, z_mm: 600 },
                    yaw_mdeg: 180000,
                },
                size_mm: BULLET_SIZE_MM,
                color: crate::scene::Tint { r_pm: 870, g_pm: 440, b_pm: 420 },
                name: crate::scene::NameTag::Bullet,
                spawned_at_ms: spawn_time_ms,
            };
            proof {
                assert(bullet.spatial =~= crate::scene::bullet_spawn_spatial());
                assert(bullet =~= fresh_bullet(spawn_time_ms));
            }
            spawned.push(bullet);
        }
        proof {
            let gi = i as int;
            assert(orig.take(gi + 1).drop_last() =~= orig.take(gi));
            assert(orig.take(gi + 1).last() == orig[gi]);
            assert(t =~= ticked_tower(orig[gi], delta_ms));
            let n0 = finishing_count(orig.take(gi), delta_ms);
            let n1 = finishing_count(orig.take(gi + 1), delta_ms);
            lemma_finishing_count_bounds(orig.take(gi), delta_ms);
            if just_finished {
                assert(n1 == n0 + 1);
                assert(fresh_bullets(n1, spawn_time_ms) =~= fresh_bullets(
                    n0,
                    spawn_time_ms,
                ).push(fresh_bullet(spawn_time_ms)));
            } else {
                assert(n1 == n0);
            }
        }
        i += 1;
    }
    proof {
        assert(orig.take(orig.len() as int) =~= orig);
    }
    *towers = out;
    spawned
}

/// The bullet lifetime system: advance every bullet's lifetime by the
/// frame duration and remove exactly those whose lifetime completed during
/// this frame, keeping the order of the survivors.
pub fn bullet_despawn(bullets: &mut Vec<Bullet>, delta_ms: u64)
    requires
        forall|i: int| 0 <= i < old(bullets)@.len() ==> (#[trigger] old(
            bullets,
        )@[i]).lifetime.timer.wf(),
        forall|i: int|
            0 <= i < old(bullets)@.len() ==> (#[trigger] old(
                bullets,
            )@[i]).lifetime.timer.elapsed_ms + delta_ms <= u64::MAX,
    ensures
        final(bullets)@ == bullets_kept(old(bullets)@, delta_ms),
{
    let ghost orig = bullets@;
    let mut kept: Vec<Bullet> = Vec::new();
    let mut i: usize = 0;
    while i < bullets.len()
        invariant
            i <= bullets.len(),
            bullets@ == orig,
            forall|k: int| 0 <= k < orig.len() ==> (#[trigger] orig[k]).lifetime.timer.wf(),
            forall|k: int|
                0 <= k < orig.len() ==> (#[trigger] orig[k]).lifetime.timer.elapsed_ms + delta_ms
                    <= u64::MAX,
            kept@ == bullets_kept(orig.take(i as int), delta_ms),
        decreases bullets.len() - i,
    {
        let mut b = bullets[i];
        let just_finished = b.lifetime.timer.tick(delta_ms);
        proof {
            let gi = i as int;
            assert(orig.take(gi + 1).drop_last() =~= orig.take(gi));
            assert(orig.take(gi + 1).last() == orig[gi]);
            assert(b =~= ticked_bullet(orig[gi], delta_ms));
        }
        if !just_finished {
            kept.push(b);
        }
        i += 1;
    }
    proof {
        assert(orig.take(orig.len() as int) =~= orig);
    }
    *bullets = kept;
}

/// One frame of the simulation: run the tower firing system and the bullet
/// lifetime system against the state the frame began with, then apply the
/// queued spawns and removals and advance the world clock. Equal to the
/// mathematical frame model, and keeps the world well formed.
pub fn tick_frame(w: &mut World, delta_ms: u64)
    requires
        old(w)@.wf(),
        old(w).time_ms + delta_ms <= u64::MAX,
        old(w).bullets_spawned + old(w).towers@.len() <= u64::MAX,
        forall|i: int|
            0 <= i < old(w).towers@.len() ==> (#[trigger] old(
                w,
            ).towers@[i]).shooting_timer.elapsed_ms + delta_ms <= u64::MAX,
    ensures
        final(w)@ == step_frame(old(w)@, delta_ms),
        final(w)@.wf(),
{
    let ghost w0 = w@;
    let spawn_time: u64 = w.time_ms + delta_ms;
    proof {
        assert forall|i: int| 0 <= i < w.towers@.len() implies (#[trigger] w.towers@[i]).wf() by {
            assert(w0.towers[i].wf());
        }
        assert forall|i: int|
            0 <= i < w.towers@.len() implies (#[trigger] w.towers@[i]).shooting_timer.elapsed_ms
            + delta_ms <= u64::MAX by {
            assert(w0.towers[i].shooting_timer.elapsed_ms + delta_ms <= u64::MAX);
        }
        assert forall|i: int|
            0 <= i < w0.bullets.len() implies (#[trigger] w0.bullets[i]).lifetime.timer.wf()
            && w0.bullets[i].lifetime.timer.elapsed_ms + delta_ms <= u64::MAX by {
            assert(w0.bullets[i].wf_at(w0.time_ms as int));
        }
    }
    let mut spawned = tower_shoot(&mut w.towers, delta_ms, spawn_time);
    bullet_despawn(&mut w.bullets, delta_ms);
    let spawn_count: usize = spawned.len();
    proof {
        lemma_finishing_count_bounds(w0.towers, delta_ms);
    }
    w.bullets.append(&mut spawned);
    w.bullets_spawned = w.bullets_spawned + spawn_count as u64;
    w.time_ms = spawn_time;
    proof {
        assert(w@.bullets =~= step_frame(w0, delta_ms).bullets);
        assert(w@ =~= step_frame(w0, delta_ms));
        lemma_step_frame_wf(w0, delta_ms);
    }
}

} // verus!
