use tower_scene::frame::tick_frame;
use tower_scene::scene::{startup_world, NameTag, Spatial, Tint, Tower, Vec3Milli, World};
use tower_scene::timer::{Timer, TimerMode};

/// Three seconds of 100 ms frames from a fresh scene: the lone tower fires
/// at 1.0 s, 2.0 s and 3.0 s, and every bullet spawned before 2.5 s has
/// already been removed by 3.0 s, leaving only the newest one.
#[test]
fn three_seconds_of_frames() {
    let mut w = startup_world();
    for _ in 0..30 {
        tick_frame(&mut w, 100);
    }
    assert_eq!(w.time_ms, 3000);
    assert_eq!(w.bullets_spawned, 3);
    assert_eq!(w.bullets.len(), 1);
    assert_eq!(w.bullets[0].spawned_at_ms, 3000);
    assert!(w.bullets.iter().all(|b| b.spawned_at_ms >= 2500));
}

#[test]
fn first_shot_lands_on_the_period_boundary() {
    let mut w = startup_world();
    tick_frame(&mut w, 999);
    assert_eq!(w.bullets_spawned, 0);
    assert_eq!(w.bullets.len(), 0);
    tick_frame(&mut w, 1);
    assert_eq!(w.bullets_spawned, 1);
    assert_eq!(w.bullets.len(), 1);
    assert_eq!(w.bullets[0].spawned_at_ms, 1000);
    assert_eq!(w.bullets[0].lifetime.timer.elapsed_ms, 0);
}

/// A freshly spawned bullet carries the fixed spawn placement and the
/// standard half-second lifetime.
#[test]
fn spawned_bullet_data() {
    let mut w = startup_world();
    tick_frame(&mut w, 1000);
    let b = &w.bullets[0];
    assert_eq!(b.lifetime.timer.mode, TimerMode::Once);
    assert_eq!(b.lifetime.timer.duration_ms, 500);
    assert_eq!(b.lifetime.timer.elapsed_ms, 0);
    assert_eq!(
        (b.spatial.translation.x_mm, b.spatial.translation.y_mm, b.spatial.translation.z_mm),
        (0, 700, 600)
    );
    assert_eq!(b.spatial.yaw_mdeg, 180000);
    assert_eq!(b.name.text(), "bullet");
    assert_eq!(b.size_mm, 200);
    assert_eq!((b.color.r_pm, b.color.g_pm, b.color.b_pm), (870, 440, 420));
}

/// A bullet spawned at 1.0 s is still there at 1.4 s and gone on the frame
/// that reaches 1.5 s, and no later frame ever sees it again.
#[test]
fn bullet_removed_when_lifetime_expires() {
    let mut w = startup_world();
    for _ in 0..14 {
        tick_frame(&mut w, 100);
    }
    assert_eq!(w.time_ms, 1400);
    assert_eq!(w.bullets.len(), 1);
    assert_eq!(w.bullets[0].lifetime.timer.elapsed_ms, 400);
    tick_frame(&mut w, 100);
    assert_eq!(w.bullets.len(), 0);
    for _ in 0..4 {
        tick_frame(&mut w, 100);
    }
    assert_eq!(w.time_ms, 1900);
    assert_eq!(w.bullets.len(), 0);
    assert_eq!(w.bullets_spawned, 1);
}

/// Zero-length frames are pure stutter: however many run, nothing spawns,
/// nothing despawns, and no timer moves.
#[test]
fn zero_delta_frames_change_nothing() {
    let mut w = startup_world();
    for _ in 0..7 {
        tick_frame(&mut w, 100);
    }
    let towers_before = w.towers.clone();
    let bullets_before = w.bullets.clone();
    for _ in 0..5 {
        tick_frame(&mut w, 0);
    }
    assert_eq!(w.time_ms, 700);
    assert_eq!(w.towers, towers_before);
    assert_eq!(w.bullets, bullets_before);
    assert_eq!(w.bullets_spawned, 0);
}

/// With whole-period frames, every frame from the second on both removes
/// the previous bullet and spawns the next one; the two effects land in
/// the same frame without disturbing each other.
#[test]
fn same_frame_removal_and_spawn() {
    let mut w = startup_world();
    tick_frame(&mut w, 1000);
    assert_eq!(w.bullets.len(), 1);
    assert_eq!(w.bullets[0].spawned_at_ms, 1000);

    tick_frame(&mut w, 1000);
    assert_eq!(w.bullets_spawned, 2);
    assert_eq!(w.bullets.len(), 1);
    assert_eq!(w.bullets[0].spawned_at_ms, 2000);

    tick_frame(&mut w, 1000);
    assert_eq!(w.bullets_spawned, 3);
    assert_eq!(w.bullets.len(), 1);
    assert_eq!(w.bullets[0].spawned_at_ms, 3000);
}

/// Two towers with offset cooldowns fire independently, each on its own
/// schedule.
#[test]
fn towers_fire_independently() {
    let mut w = startup_world();
    let mut offset = Timer::from_millis(1000, TimerMode::Repeating);
    offset.tick(300);
    w.towers.push(Tower {
        shooting_timer: offset,
        spatial: Spatial { translation: Vec3Milli { x_mm: 2000, y_mm: 500, z_mm: 0 }, yaw_mdeg: 0 },
        size_mm: 1000,
        color: Tint { r_pm: 675, g_pm: 506, b_pm: 929 },
        name: NameTag::Tower01,
    });

    tick_frame(&mut w, 700);
    assert_eq!(w.bullets_spawned, 1);
    tick_frame(&mut w, 300);
    assert_eq!(w.bullets_spawned, 2);
    assert_eq!(w.time_ms, 1000);
}

/// The firing cadence formula on an irregular frame schedule: with every
/// frame at most one period long, the spawn count is the total time
/// divided by the period, rounded down.
#[test]
fn cadence_matches_floor_of_elapsed_over_period() {
    let deltas: Vec<u64> = vec![100, 900, 500, 500, 999, 1, 7, 493, 1000, 250];
    let total: u64 = deltas.iter().sum();
    let mut w = startup_world();
    for d in &deltas {
        tick_frame(&mut w, *d);
    }
    assert_eq!(w.time_ms, total);
    assert_eq!(w.bullets_spawned, total / 1000);
    assert_eq!(w.bullets_spawned, 4);
}

/// A world that begins with no towers never spawns anything.
#[test]
fn no_towers_no_bullets() {
    let mut w = World {
        cameras: Vec::new(),
        planes: Vec::new(),
        lights: Vec::new(),
        towers: Vec::new(),
        bullets: Vec::new(),
        time_ms: 0,
        bullets_spawned: 0,
    };
    for _ in 0..20 {
        tick_frame(&mut w, 250);
    }
    assert_eq!(w.bullets_spawned, 0);
    assert_eq!(w.bullets.len(), 0);
    assert_eq!(w.time_ms, 5000);
}
