//! The scene: its entities and the world that holds them.
//!
//! Distances are whole millimeters of world space, angles are whole
//! millidegrees, and colors are whole per-mille channel values, so that the
//! fixed transforms and tints of the scene are plain integer data.
//!
//! The world starts empty; [`spawn_camera`] and [`spawn_basic_scene`] run
//! once at startup and create the camera, the ground plane, the tower and
//! the light. Bullets only ever appear through the tower firing system in
//! the frame module.

use crate::timer::{Timer, TimerMode};
use vstd::prelude::*;

verus! {

/// The cadence at which a tower fires, one bullet per period.
pub const TOWER_PERIOD_MS: u64 = 1000;

/// How long a bullet lives before it is removed.
pub const BULLET_LIFETIME_MS: u64 = 500;

/// The edge length of a bullet cube, in millimeters.
pub const BULLET_SIZE_MM: i64 = 200;

/// The edge length of the tower cube, in millimeters.
pub const TOWER_SIZE_MM: i64 = 1000;

/// The name label an entity carries, as the debug inspector shows it.
#[derive(Clone, Copy, Debug, PartialEq, Eq, Structural)]
#[verifier::ext_equal]
pub enum NameTag {
    MainCamera,
    Plane,
    Tower01,
    MainLight,
    Bullet,
}

impl NameTag {
    /// The label's text.
    pub open spec fn spec_text(self) -> Seq<char> {
        match self {
            NameTag::MainCamera => "main_camera"@,
            NameTag::Plane => "Plane"@,
            NameTag::Tower01 => "Tower-01"@,
            NameTag::MainLight => "main_light"@,
            NameTag::Bullet => "bullet"@,
        }
    }

    /// The label's text, for display.
    pub fn text(self) -> (s: &'static str)
        ensures
            s@ == self.spec_text(),
    {
        match self {
            NameTag::MainCamera => "main_camera",
            NameTag::Plane => "Plane",
            NameTag::Tower01 => "Tower-01",
            NameTag::MainLight => "main_light",
            NameTag::Bullet => "bullet",
        }
    }
}

/// A point of world space, in millimeters.
#[derive(Clone, Copy, Debug, PartialEq, Eq, Structural)]
#[verifier::ext_equal]
pub struct Vec3Milli {
    pub x_mm: i64,
    pub y_mm: i64,
    pub z_mm: i64,
}

/// A placement in world space: a position and a rotation about the
/// vertical axis, in millidegrees.
#[derive(Clone, Copy, Debug, PartialEq, Eq, Structural)]
#[verifier::ext_equal]
pub struct Spatial {
    pub translation: Vec3Milli,
    pub yaw_mdeg: i64,
}

/// An opaque color, each channel in thousandths of full intensity.
#[derive(Clone, Copy, Debug, PartialEq, Eq, Structural)]
#[verifier::ext_equal]
pub struct Tint {
    pub r_pm: u16,
    pub g_pm: u16,
    pub b_pm: u16,
}

/// The camera: placed at a fixed position, aimed at a fixed target, with
/// the given direction as up.
#[derive(Clone, Copy, Debug, PartialEq, Eq, Structural)]
#[verifier::ext_equal]
pub struct Camera {
    pub position: Vec3Milli,
    pub target: Vec3Milli,
    pub up: Vec3Milli,
    pub name: NameTag,
}

/// The ground plane: a square of the given edge length at the origin.
#[derive(Clone, Copy, Debug, PartialEq, Eq, Structural)]
#[verifier::ext_equal]
pub struct GroundPlane {
    pub size_mm: i64,
    pub color: Tint,
    pub name: NameTag,
}

/// A point light with a fixed position and intensity.
#[derive(Clone, Copy, Debug, PartialEq, Eq, Structural)]
#[verifier::ext_equal]
pub struct SceneLight {
    pub position: Vec3Milli,
    pub intensity: u64,
    pub shadows_enabled: bool,
    pub name: NameTag,
}

/// The tower entity: the cube it stands as — placement, edge length and
/// color — and a repeating countdown that fires on each completion.
#[derive(Clone, Copy, Debug, PartialEq, Eq, Structural)]
#[verifier::ext_equal]
pub struct Tower {
    pub shooting_timer: Timer,
    pub spatial: Spatial,
    pub size_mm: i64,
    pub color: Tint,
    pub name: NameTag,
}

/// The lifetime component of a bullet: a one-shot countdown toward its
/// removal.
#[derive(Clone, Copy, Debug, PartialEq, Eq, Structural)]
#[verifier::ext_equal]
pub struct Lifetime {
    pub timer: Timer,
}

/// A bullet entity: its lifetime, its fixed placement, its cube size and
/// color, and the world time at which it was spawned.
#[derive(Clone, Copy, Debug, PartialEq, Eq, Structural)]
#[verifier::ext_equal]
pub struct Bullet {
    pub lifetime: Lifetime,
    pub spatial: Spatial,
    pub size_mm: i64,
    pub color: Tint,
    pub name: NameTag,
    pub spawned_at_ms: u64,
}

/// The whole scene: its entities, the total simulated time, and a running
/// count of every bullet ever spawned.
pub struct World {
    pub cameras: Vec<Camera>,
    pub planes: Vec<GroundPlane>,
    pub lights: Vec<SceneLight>,
    pub towers: Vec<Tower>,
    pub bullets: Vec<Bullet>,
    pub time_ms: u64,
    pub bullets_spawned: u64,
}

/// The mathematical view of a world: the entity stores as sequences, and
/// the spawn count as an unbounded integer.
#[verifier::ext_equal]
pub struct WorldView {
    pub cameras: Seq<Camera>,
    pub planes: Seq<GroundPlane>,
    pub lights: Seq<SceneLight>,
    pub towers: Seq<Tower>,
    pub bullets: Seq<Bullet>,
    pub time_ms: u64,
    pub bullets_spawned: int,
}

impl View for World {
    type V = WorldView;

    open spec fn view(&self) -> WorldView {
        WorldView {
            cameras: self.cameras@,
            planes: self.planes@,
            lights: self.lights@,
            towers: self.towers@,
            bullets: self.bullets@,
            time_ms: self.time_ms,
            bullets_spawned: self.bullets_spawned as int,
        }
    }
}

impl Tower {
    /// A tower always carries a well-formed repeating countdown.
    pub open spec fn wf(self) -> bool {
        &&& self.shooting_timer.wf()
        &&& self.shooting_timer.mode == TimerMode::Repeating
    }
}

impl Bullet {
    /// A live bullet at world time `now`: its lifetime is the standard
    /// one-shot countdown, still running, and its accumulated time is
    /// exactly the time since it was spawned.
    pub open spec fn wf_at(self, now: int) -> bool {
        &&& self.lifetime.timer.mode == TimerMode::Once
        &&& self.lifetime.timer.duration_ms == BULLET_LIFETIME_MS
        &&& self.lifetime.timer.elapsed_ms < BULLET_LIFETIME_MS
        &&& self.spawned_at_ms <= now
        &&& self.lifetime.timer.elapsed_ms == now - self.spawned_at_ms
    }
}

impl WorldView {
    /// A well-formed world: every tower carries a running repeating
    /// countdown, and every bullet still present is live at the current
    /// world time.
    pub open spec fn wf(self) -> bool {
        &&& forall|i: int| 0 <= i < self.towers.len() ==> (#[trigger] self.towers[i]).wf()
        &&& forall|i: int|
            0 <= i < self.bullets.len() ==> (#[trigger] self.bullets[i]).wf_at(
                self.time_ms as int,
            )
    }
}

/// Where the camera stands and what it looks at, with the vertical axis
/// as up.
pub open spec fn main_camera() -> Camera {
    Camera {
        position: Vec3Milli { x_mm: -2000i64, y_mm: 2500, z_mm: 5000 },
        target: Vec3Milli { x_mm: 0, y_mm: 0, z_mm: 0 },
        up: Vec3Milli { x_mm: 0, y_mm: 1000, z_mm: 0 },
        name: NameTag::MainCamera,
    }
}

/// The green ground plane, five units on a side.
pub open spec fn ground_plane() -> GroundPlane {
    GroundPlane {
        size_mm: 5000,
        color: Tint { r_pm: 184, g_pm: 678, b_pm: 235 },
        name: NameTag::Plane,
    }
}

/// The point light above the scene, with shadows on.
pub open spec fn main_light() -> SceneLight {
    SceneLight {
        position: Vec3Milli { x_mm: 4000, y_mm: 8000, z_mm: 4000 },
        intensity: 1500,
        shadows_enabled: true,
        name: NameTag::MainLight,
    }
}

/// The purple tint of the tower cube.
pub open spec fn tower_color() -> Tint {
    Tint { r_pm: 675, g_pm: 506, b_pm: 929 }
}

/// A tower whose cooldown has just started: the unit cube standing half
/// its height above the origin, unrotated.
pub open spec fn fresh_tower() -> Tower {
    Tower {
        shooting_timer: Timer {
            mode: TimerMode::Repeating,
            duration_ms: TOWER_PERIOD_MS,
            elapsed_ms: 0,
        },
        spatial: Spatial { translation: Vec3Milli { x_mm: 0, y_mm: 500, z_mm: 0 }, yaw_mdeg: 0 },
        size_mm: TOWER_SIZE_MM,
        color: tower_color(),
        name: NameTag::Tower01,
    }
}

/// Where every bullet appears: a fixed offset in front of the tower,
/// facing half a turn away about the vertical axis.
pub open spec fn bullet_spawn_spatial() -> Spatial {
    Spatial { translation: Vec3Milli { x_mm: 0, y_mm: 700, z_mm: 600 }, yaw_mdeg: 180000 }
}

/// The red tint of a bullet cube.
pub open spec fn bullet_color() -> Tint {
    Tint { r_pm: 870, g_pm: 440, b_pm: 420 }
}

/// A bullet as it appears at the moment of its spawn: a full lifetime
/// ahead of it, standing at the fixed spawn placement.
pub open spec fn fresh_bullet(spawn_time_ms: u64) -> Bullet {
    Bullet {
        lifetime: Lifetime {
            timer: Timer {
                mode: TimerMode::Once,
                duration_ms: BULLET_LIFETIME_MS,
                elapsed_ms: 0,
            },
        },
        spatial: bullet_spawn_spatial(),
        size_mm: BULLET_SIZE_MM,
        color: bullet_color(),
        name: NameTag::Bullet,
        spawned_at_ms: spawn_time_ms,
    }
}

/// An empty world at time zero.
pub fn new_world() -> (w: World)
    ensures
        w@.cameras.len() == 0,
        w@.planes.len() == 0,
        w@.lights.len() == 0,
        w@.towers.len() == 0,
        w@.bullets.len() == 0,
        w@.time_ms == 0,
        w@.bullets_spawned == 0,
        w@.wf(),
{
    World {
        cameras: Vec::new(),
        planes: Vec::new(),
        lights: Vec::new(),
        towers: Vec::new(),
        bullets: Vec::new(),
        time_ms: 0,
        bullets_spawned: 0,
    }
}

/// Startup: create the camera at its fixed position, looking at the
/// origin. Touches nothing else in the world.
pub fn spawn_camera(w: &mut World)
    ensures
        final(w)@.cameras == old(w)@.cameras.push(main_camera()),
        final(w)@.planes == old(w)@.planes,
        final(w)@.lights == old(w)@.lights,
        final(w)@.towers == old(w)@.towers,
        final(w)@.bullets == old(w)@.bullets,
        final(w)@.time_ms == old(w)@.time_ms,
        final(w)@.bullets_spawned == old(w)@.bullets_spawned,
        old(w)@.wf() ==> final(w)@.wf(),
{
    let camera = Camera {
        position: Vec3Milli { x_mm: -2000, y_mm: 2500, z_mm: 5000 },
        target: Vec3Milli { x_mm: 0, y_mm: 0, z_mm: 0 },
        up: Vec3Milli { x_mm: 0, y_mm: 1000, z_mm: 0 },
        name: NameTag::MainCamera,
    };
    w.cameras.push(camera);
}

/// Startup: create the static scene — the ground plane, the tower with a
/// freshly started cooldown, and the shadowed point light. Touches neither
/// the camera nor the bullets.
pub fn spawn_basic_scene(w: &mut World)
    ensures
        final(w)@.cameras == old(w)@.cameras,
        final(w)@.planes == old(w)@.planes.push(ground_plane()),
        final(w)@.towers == old(w)@.towers.push(fresh_tower()),
        final(w)@.lights == old(w)@.lights.push(main_light()),
        final(w)@.bullets == old(w)@.bullets,
        final(w)@.time_ms == old(w)@.time_ms,
        final(w)@.bullets_spawned == old(w)@.bullets_spawned,
        old(w)@.wf() ==> final(w)@.wf(),
{
    let plane = GroundPlane {
        size_mm: 5000,
        color: Tint { r_pm: 184, g_pm: 678, b_pm: 235 },
        name: NameTag::Plane,
    };
    w.planes.push(plane);

    let tower = Tower {
        shooting_timer: Timer::from_millis(TOWER_PERIOD_MS, TimerMode::Repeating),
        spatial: Spatial { translation: Vec3Milli { x_mm: 0, y_mm: 500, z_mm: 0 }, yaw_mdeg: 0 },
        size_mm: TOWER_SIZE_MM,
        color: Tint { r_pm: 675, g_pm: 506, b_pm: 929 },
        name: NameTag::Tower01,
    };
    w.towers.push(tower);

    let light = SceneLight {
        position: Vec3Milli { x_mm: 4000, y_mm: 8000, z_mm: 4000 },
        intensity: 1500,
        shadows_enabled: true,
        name: NameTag::MainLight,
    };
    w.lights.push(light);
}

/// The whole bootstrap: an empty world with the camera and the static
/// scene spawned, before the first frame has run.
pub fn startup_world() -> (w: World)
    ensures
        w@.cameras == seq![main_camera()],
        w@.planes == seq![ground_plane()],
        w@.towers == seq![fresh_tower()],
        w@.lights == seq![main_light()],
        w@.bullets.len() == 0,
        w@.time_ms == 0,
        w@.bullets_spawned == 0,
        w@.wf(),
{
    let mut w = new_world();
    spawn_camera(&mut w);
    spawn_basic_scene(&mut w);
    proof {
        assert(w@.cameras =~= seq![main_camera()]);
        assert(w@.planes =~= seq![ground_plane()]);
        assert(w@.towers =~= seq![fresh_tower()]);
        assert(w@.lights =~= seq![main_light()]);
    }
    w
}

} // verus!
