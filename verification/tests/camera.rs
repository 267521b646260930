use screen_runtime::app::{AppPlugin, AppSet};
use screen_runtime::camera::{
    move_camera, move_camera_system, stop_camera, CameraMovement, DisplacementEvent, CAMERA_STEP,
};
use screen_runtime::layers::{initialize_camera_system, LayerDescriptor, LayerRegistry};
use screen_runtime::lifecycle::{AssetHandle, Entity, LoadState};

fn camera() -> Entity {
    Entity { bits: 7 }
}

fn moving(camera: Entity) -> DisplacementEvent {
    DisplacementEvent { translation_x: 10, translation_y: 0, rotation: 0, camera }
}

fn resting(camera: Entity) -> DisplacementEvent {
    DisplacementEvent { translation_x: 0, translation_y: 0, rotation: 0, camera }
}

#[test]
fn scenario_motion_then_rest() {
    let mut app = AppPlugin.build(AssetHandle { id: 1, state: LoadState::Loaded });
    let cameras = vec![camera()];
    app.enable_motion();
    for i in 0..3u64 {
        let out = app.tick(&cameras, Entity { bits: 100 + i });
        assert_eq!(out.displacement, moving(camera()));
        assert_eq!(out.displacement.translation_x, 10);
        assert_eq!(out.displacement.translation_y, 0);
        assert_eq!(out.displacement.rotation, 0);
    }
    app.disable_motion();
    let out = app.tick(&cameras, Entity { bits: 200 });
    assert_eq!(out.displacement, resting(camera()));
}

#[test]
fn camera_moves_from_the_start() {
    let mut app = AppPlugin.build(AssetHandle { id: 1, state: LoadState::Loaded });
    assert!(app.is_moving());
    let out = app.tick(&vec![camera()], Entity { bits: 100 });
    assert_eq!(out.displacement, moving(camera()));
}

#[test]
fn step_is_ten_units() {
    assert_eq!(CAMERA_STEP, 10);
}

#[test]
fn controller_reports_every_tick() {
    let cameras = vec![Entity { bits: 3 }];
    let mut movement = CameraMovement::new(false);
    assert!(!movement.is_moving());
    for _ in 0..5 {
        assert_eq!(move_camera_system(&cameras, &movement), resting(Entity { bits: 3 }));
    }
    move_camera(&mut movement);
    assert!(movement.is_moving());
    for _ in 0..5 {
        assert_eq!(move_camera_system(&cameras, &movement), moving(Entity { bits: 3 }));
    }
    stop_camera(&mut movement);
    assert!(!movement.is_moving());
    assert_eq!(move_camera_system(&cameras, &movement), resting(Entity { bits: 3 }));
}

#[test]
fn switching_motion_twice_is_as_once() {
    let mut movement = CameraMovement::new(false);
    move_camera(&mut movement);
    move_camera(&mut movement);
    assert_eq!(movement, CameraMovement::new(true));
    stop_camera(&mut movement);
    stop_camera(&mut movement);
    assert_eq!(movement, CameraMovement::new(false));
}

#[test]
fn motion_is_independent_of_screen() {
    let mut app = AppPlugin.build(AssetHandle { id: 1, state: LoadState::Loaded });
    let cameras = vec![camera()];
    app.tick(&cameras, Entity { bits: 100 });
    app.request_transition(screen_runtime::screens::Screen::Credits);
    let out = app.tick(&cameras, Entity { bits: 101 });
    assert_eq!(out.displacement, moving(camera()));
    app.disable_motion();
    app.request_transition(screen_runtime::screens::Screen::Title);
    let out = app.tick(&cameras, Entity { bits: 102 });
    assert_eq!(out.displacement, resting(camera()));
    assert!(!app.is_moving());
}

fn layer(speed_permille: u32, path: &'static str, z: i32) -> LayerDescriptor {
    LayerDescriptor {
        speed_permille,
        path,
        tile_width: 384,
        tile_height: 216,
        cols: 1,
        rows: 1,
        scale_permille: 3500,
        z,
    }
}

#[test]
fn scene_layers_are_reported_in_order() {
    let (registry, event) = initialize_camera_system(camera());
    let expected = vec![
        layer(900, "images/bg/sky_lightened.png", -4),
        layer(800, "images/bg/far_mountains_fc.png", -3),
        layer(600, "images/bg/grassy_mountains_fc.png", -2),
        layer(200, "images/bg/clouds_mid_t_fc.png", -1),
        layer(500, "images/bg/hill.png", 0),
        layer(100, "images/bg/clouds_front_t_fc.png", 3),
    ];
    assert_eq!(event.layers_data, expected);
    assert_eq!(event.camera, camera());
    assert_eq!(registry.len(), 6);
    assert_eq!(registry.target_camera(), camera());
    for (i, want) in expected.iter().enumerate() {
        assert_eq!(registry.layer(i), Some(*want));
        assert!(want.has_speed_in_range());
    }
    assert_eq!(registry.layer(6), None);
}

#[test]
fn registry_keeps_insertion_order() {
    let a = layer(900, "a.png", 5);
    let b = layer(100, "b.png", -5);
    let c = LayerDescriptor { cols: 3, rows: 2, tile_width: 16, ..layer(1000, "c.png", 0) };
    let orders = vec![
        vec![a, b, c],
        vec![a, c, b],
        vec![b, a, c],
        vec![b, c, a],
        vec![c, a, b],
        vec![c, b, a],
    ];
    for order in orders {
        let (registry, event) = LayerRegistry::initialize(order.clone(), camera());
        assert_eq!(event.layers_data, order);
        assert_eq!(event.camera, camera());
        assert_eq!(registry.len(), 3);
        for (i, want) in order.iter().enumerate() {
            assert_eq!(registry.layer(i), Some(*want));
        }
    }
}

#[test]
fn empty_registry() {
    let (registry, event) = LayerRegistry::initialize(Vec::new(), camera());
    assert_eq!(registry.len(), 0);
    assert_eq!(registry.layer(0), None);
    assert!(event.layers_data.is_empty());
}

#[test]
fn speed_range_bounds() {
    assert!(!layer(0, "x.png", 0).has_speed_in_range());
    assert!(layer(1, "x.png", 0).has_speed_in_range());
    assert!(layer(1000, "x.png", 0).has_speed_in_range());
    assert!(!layer(1001, "x.png", 0).has_speed_in_range());
}

#[test]
fn phases_run_in_order() {
    assert_eq!(AppSet::chain(), vec![AppSet::TickTimers, AppSet::RecordInput, AppSet::Update]);
}
