use viewport_split::{world_setup, Camera, CameraEntity, CameraMarker, ClearColor, World};

#[test]
fn new_world_is_empty() {
    let world = World::new();
    assert!(world.cameras.is_empty());
    assert_eq!(world.get_single(CameraMarker::GraphCamera), None);
    assert_eq!(world.get_single(CameraMarker::ViewCamera), None);
}

#[test]
fn startup_spawns_graph_camera_then_view_camera() {
    let mut world = World::new();
    world_setup(&mut world);
    assert_eq!(
        world.cameras,
        vec![
            CameraEntity {
                marker: CameraMarker::GraphCamera,
                camera: Camera { viewport: None, priority: 0 },
                clear_color: ClearColor::Blue,
                camera_changed: true,
                projection_changed: true,
            },
            CameraEntity {
                marker: CameraMarker::ViewCamera,
                camera: Camera { viewport: None, priority: 1 },
                clear_color: ClearColor::Crimson,
                camera_changed: true,
                projection_changed: true,
            },
        ]
    );
}

#[test]
fn startup_yields_exactly_one_camera_per_marker() {
    let mut world = World::new();
    world_setup(&mut world);
    let graph = world
        .cameras
        .iter()
        .filter(|entity| entity.marker == CameraMarker::GraphCamera)
        .count();
    let view = world
        .cameras
        .iter()
        .filter(|entity| entity.marker == CameraMarker::ViewCamera)
        .count();
    assert_eq!(graph, 1);
    assert_eq!(view, 1);
    assert_eq!(world.get_single(CameraMarker::GraphCamera), Some(0));
    assert_eq!(world.get_single(CameraMarker::ViewCamera), Some(1));
    assert_eq!(world.single(CameraMarker::GraphCamera), 0);
    assert_eq!(world.single(CameraMarker::ViewCamera), 1);
}

#[test]
fn startup_priorities_are_zero_and_one() {
    let mut world = World::new();
    world_setup(&mut world);
    let graph = world.single(CameraMarker::GraphCamera);
    let view = world.single(CameraMarker::ViewCamera);
    assert_eq!(world.cameras[graph].camera.priority, 0);
    assert_eq!(world.cameras[view].camera.priority, 1);
    assert!(world.cameras[graph].camera.priority < world.cameras[view].camera.priority);
}

#[test]
fn startup_clear_colors_are_blue_and_crimson() {
    let mut world = World::new();
    world_setup(&mut world);
    let graph = world.single(CameraMarker::GraphCamera);
    let view = world.single(CameraMarker::ViewCamera);
    assert_eq!(world.cameras[graph].clear_color, ClearColor::Blue);
    assert_eq!(world.cameras[view].clear_color, ClearColor::Crimson);
}

#[test]
fn startup_leaves_viewports_unset() {
    let mut world = World::new();
    world_setup(&mut world);
    assert!(world.cameras.iter().all(|entity| entity.camera.viewport.is_none()));
}

#[test]
fn startup_keeps_the_cameras_that_exist() {
    let mut world = World::new();
    world.spawn(CameraMarker::ViewCamera);
    let first = world.cameras[0];
    world_setup(&mut world);
    assert_eq!(world.cameras.len(), 3);
    assert_eq!(world.cameras[0], first);
    assert_eq!(world.cameras[1].marker, CameraMarker::GraphCamera);
    assert_eq!(world.cameras[2].marker, CameraMarker::ViewCamera);
}

#[test]
fn second_startup_doubles_the_cameras() {
    let mut world = World::new();
    world_setup(&mut world);
    world_setup(&mut world);
    assert_eq!(world.cameras.len(), 4);
    assert_eq!(world.get_single(CameraMarker::GraphCamera), None);
    assert_eq!(world.get_single(CameraMarker::ViewCamera), None);
}

#[test]
fn spawn_adds_one_camera_at_the_end() {
    let mut world = World::new();
    world.spawn(CameraMarker::ViewCamera);
    assert_eq!(world.cameras.len(), 1);
    assert_eq!(
        world.cameras[0],
        CameraEntity {
            marker: CameraMarker::ViewCamera,
            camera: Camera { viewport: None, priority: 1 },
            clear_color: ClearColor::Crimson,
            camera_changed: true,
            projection_changed: true,
        }
    );
    world.spawn(CameraMarker::GraphCamera);
    assert_eq!(world.cameras.len(), 2);
    assert_eq!(world.cameras[1].marker, CameraMarker::GraphCamera);
    assert_eq!(world.cameras[1].camera.priority, 0);
}

#[test]
fn marker_priorities() {
    assert_eq!(CameraMarker::GraphCamera.priority(), 0);
    assert_eq!(CameraMarker::ViewCamera.priority(), 1);
}

#[test]
fn marker_clear_colors() {
    assert_eq!(CameraMarker::GraphCamera.clear_color(), ClearColor::Blue);
    assert_eq!(CameraMarker::ViewCamera.clear_color(), ClearColor::Crimson);
}

#[test]
fn get_single_finds_the_only_camera_with_a_marker() {
    let mut world = World::new();
    world.spawn(CameraMarker::ViewCamera);
    world.spawn(CameraMarker::ViewCamera);
    world.spawn(CameraMarker::GraphCamera);
    assert_eq!(world.get_single(CameraMarker::GraphCamera), Some(2));
    assert_eq!(world.get_single(CameraMarker::ViewCamera), None);
    assert_eq!(world.single(CameraMarker::GraphCamera), 2);
}

#[test]
fn get_single_is_none_without_a_camera_of_that_marker() {
    let mut world = World::new();
    world.spawn(CameraMarker::GraphCamera);
    assert_eq!(world.get_single(CameraMarker::GraphCamera), Some(0));
    assert_eq!(world.get_single(CameraMarker::ViewCamera), None);
}

#[test]
fn clone_holds_the_same_cameras() {
    let mut world = World::new();
    world_setup(&mut world);
    let copy = world.clone();
    assert_eq!(copy, world);
    world.spawn(CameraMarker::GraphCamera);
    assert_eq!(copy.cameras.len(), 2);
    assert_eq!(world.cameras.len(), 3);
}
