//! The global laws of the simulation, proved once for every well-formed
//! world: the firing cadence of towers, the expiry of bullets, the
//! emptiness of zero-length frames, and the independence of the two
//! per-frame systems.

use crate::frame::{
    bullets_kept, finishing_count, lemma_bullets_kept_len, lemma_finishing_count_bounds,
    lemma_step_frame_wf, lemma_towers_after_index, run_frames, step_frame, ticked_bullet,
    ticked_tower, towers_after,
};
use crate::scene::{fresh_bullet, Bullet, Tower, WorldView, BULLET_LIFETIME_MS};
use crate::timer::{lemma_repeating_rate, lemma_sum_of_nonneg, sum_of};
use vstd::prelude::*;

verus! {

/// Running frames keeps the world well formed, and the world clock
/// advances by exactly the total of the frame durations.
pub proof fn lemma_run_frames_wf(w: WorldView, deltas: Seq<u64>)
    requires
        w.wf(),
        w.time_ms + sum_of(deltas) <= u64::MAX,
    ensures
        run_frames(w, deltas).wf(),
        run_frames(w, deltas).time_ms == w.time_ms + sum_of(deltas),
    decreases deltas.len(),
{
    lemma_sum_of_nonneg(deltas);
    if deltas.len() > 0 {
        let d = deltas[0];
        lemma_sum_of_nonneg(deltas.drop_first());
        lemma_step_frame_wf(w, d);
        lemma_run_frames_wf(step_frame(w, d), deltas.drop_first());
    }
}

/// Bullet lifetime: after any run of frames from a well-formed world,
/// every bullet still present was spawned less than the bullet lifetime
/// ago. Read the other way round: a bullet spawned at time `t` is removed
/// by the frame that reaches `t` plus the lifetime, and no later query
/// ever sees it.
pub proof fn lemma_bullet_expiry(w: WorldView, deltas: Seq<u64>)
    requires
        w.wf(),
        w.time_ms + sum_of(deltas) <= u64::MAX,
    ensures
        forall|i: int|
            0 <= i < run_frames(w, deltas).bullets.len() ==> run_frames(w, deltas).time_ms < (
            #[trigger] run_frames(w, deltas).bullets[i]).spawned_at_ms + BULLET_LIFETIME_MS,
{
    lemma_run_frames_wf(w, deltas);
    let after = run_frames(w, deltas);
    assert forall|i: int| 0 <= i < after.bullets.len() implies after.time_ms < (
    #[trigger] after.bullets[i]).spawned_at_ms + BULLET_LIFETIME_MS by {
        assert(after.bullets[i].wf_at(after.time_ms as int));
    }
}

/// No tower's cooldown completes during a frame of zero length.
proof fn lemma_no_finish_on_zero(ts: Seq<Tower>)
    requires
        forall|i: int| 0 <= i < ts.len() ==> (#[trigger] ts[i]).wf(),
    ensures
        finishing_count(ts, 0) == 0,
    decreases ts.len(),
{
    if ts.len() > 0 {
        let rest = ts.drop_last();
        assert forall|i: int| 0 <= i < rest.len() implies (#[trigger] rest[i]).wf() by {
            assert(ts[i].wf());
        }
        lemma_no_finish_on_zero(rest);
        assert(ts[ts.len() - 1].wf());
    }
}

/// A frame of zero length removes no bullet and leaves every bullet's
/// lifetime where it stood.
proof fn lemma_bullets_kept_zero(bs: Seq<Bullet>, now: int)
    requires
        forall|i: int| 0 <= i < bs.len() ==> (#[trigger] bs[i]).wf_at(now),
    ensures
        bullets_kept(bs, 0) == bs,
    decreases bs.len(),
{
    if bs.len() > 0 {
        let rest = bs.drop_last();
        assert forall|i: int| 0 <= i < rest.len() implies (#[trigger] rest[i]).wf_at(now) by {
            assert(bs[i].wf_at(now));
        }
        lemma_bullets_kept_zero(rest, now);
        let last = bs.last();
        assert(bs[bs.len() - 1].wf_at(now));
        assert(last.lifetime.timer.after_tick(0) =~= last.lifetime.timer);
        assert(ticked_bullet(last, 0) =~= last);
        assert(bullets_kept(bs, 0) =~= bs);
    }
}

/// Idempotence of an empty advance: a frame in which no time has passed
/// spawns nothing, removes nothing, and changes nothing at all.
pub proof fn lemma_zero_delta_stutter(w: WorldView)
    requires
        w.wf(),
    ensures
        step_frame(w, 0) == w,
{
    lemma_towers_after_index(w.towers, 0);
    assert forall|i: int| 0 <= i < w.towers.len() implies #[trigger] towers_after(w.towers, 0)[i]
        == w.towers[i] by {
        assert(w.towers[i].wf());
        let t = w.towers[i].shooting_timer;
        vstd::arithmetic::div_mod::lemma_small_mod(t.elapsed_ms as nat, t.duration_ms as nat);
        assert(t.after_tick(0) =~= t);
        assert(ticked_tower(w.towers[i], 0) =~= w.towers[i]);
    }
    assert(towers_after(w.towers, 0) =~= w.towers);
    lemma_no_finish_on_zero(w.towers);
    lemma_bullets_kept_zero(w.bullets, w.time_ms as int);
    assert(step_frame(w, 0).bullets =~= w.bullets);
    assert(step_frame(w, 0) =~= w);
}

/// A lone tower's cooldown runs through the frames exactly as the bare
/// timer would, and the world's spawn count grows by exactly the number of
/// times that cooldown completes.
pub proof fn lemma_single_tower_tracks(w: WorldView, deltas: Seq<u64>)
    requires
        w.towers.len() == 1,
    ensures
        run_frames(w, deltas).towers.len() == 1,
        run_frames(w, deltas).towers[0].shooting_timer == w.towers[0].shooting_timer.run(deltas),
        run_frames(w, deltas).bullets_spawned == w.bullets_spawned
            + w.towers[0].shooting_timer.finish_count(deltas),
    decreases deltas.len(),
{
    if deltas.len() > 0 {
        let d = deltas[0];
        let w1 = step_frame(w, d);
        lemma_towers_after_index(w.towers, d);
        assert(w.towers.drop_last() =~= Seq::<Tower>::empty());
        assert(w.towers.last() == w.towers[0]);
        assert(finishing_count(Seq::<Tower>::empty(), d) == 0);
        assert(finishing_count(w.towers, d) == if w.towers[0].shooting_timer.finishes_on(d) {
            1int
        } else {
            0int
        });
        assert(w1.towers[0] == ticked_tower(w.towers[0], d));
        lemma_single_tower_tracks(w1, deltas.drop_first());
    }
}

/// Every tower's cooldown runs through the frames independently: after any
/// run, each tower holds exactly the state its own timer alone would have
/// reached, whatever the other towers and the bullets did.
pub proof fn lemma_towers_run_independently(w: WorldView, deltas: Seq<u64>)
    ensures
        run_frames(w, deltas).towers.len() == w.towers.len(),
        forall|i: int|
            0 <= i < w.towers.len() ==> (#[trigger] run_frames(w, deltas).towers[i]).shooting_timer
                == w.towers[i].shooting_timer.run(deltas),
    decreases deltas.len(),
{
    if deltas.len() > 0 {
        let d = deltas[0];
        let w1 = step_frame(w, d);
        lemma_towers_after_index(w.towers, d);
        lemma_towers_run_independently(w1, deltas.drop_first());
    }
}

/// Firing cadence: starting from a freshly reset cooldown, a lone tower
/// spawns exactly `floor(total time / firing period)` bullets over any run
/// of frames, as long as no single frame lasts longer than the period
/// itself — the frame-quantization tolerance.
pub proof fn lemma_firing_cadence(w: WorldView, deltas: Seq<u64>)
    requires
        w.wf(),
        w.towers.len() == 1,
        w.towers[0].shooting_timer.elapsed_ms == 0,
        forall|i: int|
            0 <= i < deltas.len() ==> #[trigger] deltas[i]
                <= w.towers[0].shooting_timer.duration_ms,
    ensures
        run_frames(w, deltas).bullets_spawned == w.bullets_spawned + sum_of(deltas) / (
        w.towers[0].shooting_timer.duration_ms as int),
{
    lemma_single_tower_tracks(w, deltas);
    assert(w.towers[0].wf());
    lemma_repeating_rate(w.towers[0].shooting_timer, deltas);
}

/// Same-frame independence: a bullet's removal and a tower's spawn in one
/// frame do not interfere. The lifetime pass removes exactly the bullets
/// whose lifetime completed, untouched by how many bullets the firing pass
/// queued; the firing pass appends exactly one fresh bullet per completed
/// cooldown, untouched by which bullets were removed; and a bullet spawned
/// this frame still has its whole lifetime ahead, so it is never removed
/// in the frame of its own spawn.
pub proof fn lemma_same_frame_no_interference(w: WorldView, delta_ms: u64)
    requires
        w.wf(),
        w.time_ms + delta_ms <= u64::MAX,
    ensures
        ({
            let after = step_frame(w, delta_ms);
            let kept = bullets_kept(w.bullets, delta_ms);
            let n = finishing_count(w.towers, delta_ms);
            &&& after.towers == towers_after(w.towers, delta_ms)
            &&& after.bullets.take(kept.len() as int) == kept
            &&& after.bullets.len() == kept.len() + n
            &&& forall|i: int|
                kept.len() <= i < after.bullets.len() ==> #[trigger] after.bullets[i]
                    == fresh_bullet(after.time_ms)
            &&& forall|i: int|
                kept.len() <= i < after.bullets.len() ==> (
                #[trigger] after.bullets[i]).lifetime.timer.elapsed_ms == 0
        }),
{
    let after = step_frame(w, delta_ms);
    let kept = bullets_kept(w.bullets, delta_ms);
    lemma_finishing_count_bounds(w.towers, delta_ms);
    lemma_bullets_kept_len(w.bullets, delta_ms);
    assert(after.bullets.take(kept.len() as int) =~= kept);
}

} // verus!
