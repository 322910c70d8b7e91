use tower_scene::scene::{new_world, spawn_basic_scene, spawn_camera, startup_world};
use tower_scene::timer::TimerMode;

#[test]
fn startup_entity_counts() {
    let w = startup_world();
    assert_eq!(w.cameras.len(), 1);
    assert_eq!(w.planes.len(), 1);
    assert_eq!(w.towers.len(), 1);
    assert_eq!(w.lights.len(), 1);
    assert_eq!(w.bullets.len(), 0);
    assert_eq!(w.time_ms, 0);
    assert_eq!(w.bullets_spawned, 0);
}

#[test]
fn startup_camera_placement() {
    let w = startup_world();
    let cam = &w.cameras[0];
    assert_eq!(cam.position.x_mm, -2000);
    assert_eq!(cam.position.y_mm, 2500);
    assert_eq!(cam.position.z_mm, 5000);
    assert_eq!(cam.target.x_mm, 0);
    assert_eq!(cam.target.y_mm, 0);
    assert_eq!(cam.target.z_mm, 0);
    assert_eq!((cam.up.x_mm, cam.up.y_mm, cam.up.z_mm), (0, 1000, 0));
    assert_eq!(cam.name.text(), "main_camera");
}

#[test]
fn startup_scene_furniture() {
    let w = startup_world();
    let plane = &w.planes[0];
    assert_eq!(plane.size_mm, 5000);
    assert_eq!((plane.color.r_pm, plane.color.g_pm, plane.color.b_pm), (184, 678, 235));
    assert_eq!(plane.name.text(), "Plane");

    let light = &w.lights[0];
    assert_eq!((light.position.x_mm, light.position.y_mm, light.position.z_mm), (4000, 8000, 4000));
    assert_eq!(light.intensity, 1500);
    assert!(light.shadows_enabled);
    assert_eq!(light.name.text(), "main_light");
}

#[test]
fn startup_tower_cooldown() {
    let w = startup_world();
    let timer = &w.towers[0].shooting_timer;
    assert_eq!(timer.mode, TimerMode::Repeating);
    assert_eq!(timer.duration_ms, 1000);
    assert_eq!(timer.elapsed_ms, 0);
}

#[test]
fn startup_tower_cube() {
    let w = startup_world();
    let tower = &w.towers[0];
    assert_eq!(
        (tower.spatial.translation.x_mm, tower.spatial.translation.y_mm, tower.spatial.translation.z_mm),
        (0, 500, 0)
    );
    assert_eq!(tower.spatial.yaw_mdeg, 0);
    assert_eq!(tower.size_mm, 1000);
    assert_eq!((tower.color.r_pm, tower.color.g_pm, tower.color.b_pm), (675, 506, 929));
    assert_eq!(tower.name.text(), "Tower-01");
}

#[test]
fn bootstrap_steps_match_startup() {
    let mut w = new_world();
    spawn_camera(&mut w);
    spawn_basic_scene(&mut w);
    let reference = startup_world();
    assert_eq!(w.cameras, reference.cameras);
    assert_eq!(w.planes, reference.planes);
    assert_eq!(w.towers, reference.towers);
    assert_eq!(w.lights, reference.lights);
    assert_eq!(w.bullets.len(), 0);
}
