//! The reaction to a change of the window's size: the view camera gets the
//! top half of the window and the graph camera the bottom half.

use vstd::prelude::*;
use crate::camera::{
    lemma_same_markers, one_of_each, same_markers, tagged, Camera, CameraEntity, CameraMarker,
    World,
};
use crate::geometry::{UVec2, Viewport};
use crate::window::{primary_resized, Window, WindowId, WindowResized};

verus! {

/// The rectangle of the camera tagged `marker` in `window`.
///
/// Both rectangles are as wide as the window and half as high, the half
/// rounded down. The view camera's starts in the top-left corner of the
/// window, the graph camera's directly below it.
pub open spec fn viewport_of(marker: CameraMarker, window: Window) -> Viewport {
    let half = window.physical_height / 2;
    Viewport {
        physical_position: UVec2 {
            x: 0,
            y: match marker {
                CameraMarker::ViewCamera => 0,
                CameraMarker::GraphCamera => half,
            },
        },
        physical_size: UVec2 { x: window.physical_width, y: half },
    }
}

/// A camera after the window was resized: it has the rectangle of its tag in
/// `window`, and is flagged as written to.
pub open spec fn resized_camera(entity: CameraEntity, window: Window) -> CameraEntity {
    CameraEntity {
        camera: Camera { viewport: Some(viewport_of(entity.marker, window)), ..entity.camera },
        camera_changed: true,
        ..entity
    }
}

/// The cameras after the window was resized.
pub open spec fn resized(cameras: Seq<CameraEntity>, window: Window) -> Seq<CameraEntity> {
    cameras.map_values(|entity: CameraEntity| resized_camera(entity, window))
}

/// The cameras after the events of one frame: resized to `window` if one of
/// the events is about the primary window, and as before if none is.
pub open spec fn after_events(
    cameras: Seq<CameraEntity>,
    window: Window,
    events: Seq<WindowResized>,
) -> Seq<CameraEntity> {
    if primary_resized(events) {
        resized(cameras, window)
    } else {
        cameras
    }
}

/// Resizing changes no tag, so it keeps the store at one camera of each
/// kind.
pub proof fn lemma_resized_keeps_one_of_each(cameras: Seq<CameraEntity>, window: Window)
    ensures
        same_markers(cameras, resized(cameras, window)),
        one_of_each(cameras) <==> one_of_each(resized(cameras, window)),
{
    lemma_same_markers(cameras, resized(cameras, window), CameraMarker::GraphCamera);
    lemma_same_markers(cameras, resized(cameras, window), CameraMarker::ViewCamera);
}

/// A resize makes up for every earlier one: resizing to `earlier` and then
/// to `later` is resizing to `later`. With the same window twice, the second
/// resize changes nothing.
pub proof fn lemma_resized_over(cameras: Seq<CameraEntity>, earlier: Window, later: Window)
    ensures
        resized(resized(cameras, earlier), later) == resized(cameras, later),
{
    assert(resized(resized(cameras, earlier), later) =~= resized(cameras, later));
}

/// Handling the same events a second time, the window being the same, leaves
/// every camera as it is.
pub proof fn lemma_same_events_twice(
    cameras: Seq<CameraEntity>,
    window: Window,
    events: Seq<WindowResized>,
)
    ensures
        after_events(after_events(cameras, window, events), window, events) == after_events(
            cameras,
            window,
            events,
        ),
{
    lemma_resized_over(cameras, window, window);
}

/// Two equal events in succession leave the cameras as one of them does.
pub proof fn lemma_repeated_event(
    cameras: Seq<CameraEntity>,
    window: Window,
    event: WindowResized,
)
    ensures
        after_events(cameras, window, seq![event, event]) == after_events(
            cameras,
            window,
            seq![event],
        ),
{
    let once = seq![event];
    let twice = seq![event, event];
    if primary_resized(once) {
        assert(twice[0].id == WindowId::Primary);
    }
    if primary_resized(twice) {
        assert(once[0].id == WindowId::Primary);
    }
}

/// Computes the rectangle of the camera tagged `marker` in `window`.
pub fn camera_viewport(marker: CameraMarker, window: &Window) -> (viewport: Viewport)
    ensures
        viewport == viewport_of(marker, *window),
{
    let half: u32 = window.physical_height() / 2;
    let top: u32 = match marker {
        CameraMarker::ViewCamera => 0,
        CameraMarker::GraphCamera => half,
    };
    Viewport {
        physical_position: UVec2::new(0, top),
        physical_size: UVec2::new(window.physical_width(), half),
    }
}

/// Gives the view camera the top half of `window` and the graph camera the
/// bottom half, and flags both cameras as written to.
pub fn resize_viewports(window: &Window, world: &mut World)
    requires
        one_of_each(old(world)@),
    ensures
        final(world)@ == resized(old(world)@, *window),
        one_of_each(final(world)@),
{
    let view: usize = world.single(CameraMarker::ViewCamera);
    let graph: usize = world.single(CameraMarker::GraphCamera);

    let mut view_camera = world.cameras[view];
    view_camera.camera.viewport = Some(camera_viewport(CameraMarker::ViewCamera, window));
    view_camera.camera_changed = true;
    world.cameras.set(view, view_camera);

    let mut graph_camera = world.cameras[graph];
    graph_camera.camera.viewport = Some(camera_viewport(CameraMarker::GraphCamera, window));
    graph_camera.camera_changed = true;
    world.cameras.set(graph, graph_camera);

    proof {
        let before = old(world)@;
        assert forall|i: int| 0 <= i < before.len() implies world@[i] == resized_camera(
            before[i],
            *window,
        ) by {
            match before[i].marker {
                CameraMarker::ViewCamera => {
                    assert(tagged(before, CameraMarker::ViewCamera, i));
                },
                CameraMarker::GraphCamera => {
                    assert(tagged(before, CameraMarker::GraphCamera, i));
                },
            }
        }
        assert(world@ =~= resized(before, *window));
        lemma_resized_keeps_one_of_each(before, *window);
    }
}

/// Handles the resize events of one frame, in their order: for each event
/// that is about the primary window, the view camera gets the top half of
/// `window` and the graph camera the bottom half. Events about other windows
/// change nothing.
pub fn set_camera_viewports(
    window: &Window,
    resize_events: &Vec<WindowResized>,
    world: &mut World,
)
    requires
        one_of_each(old(world)@),
    ensures
        final(world)@ == after_events(old(world)@, *window, resize_events@),
        one_of_each(final(world)@),
{
    let mut i: usize = 0;
    while i < resize_events.len()
        invariant
            i <= resize_events.len(),
            one_of_each(world@),
            world@ == after_events(old(world)@, *window, resize_events@.take(i as int)),
        decreases resize_events.len() - i,
    {
        let ghost seen = resize_events@.take(i as int);
        let ghost next = resize_events@.take(i + 1);
        assert(next =~= seen.push(resize_events@[i as int]));
        if resize_events[i].id.is_primary() {
            resize_viewports(window, world);
            proof {
                assert(next[i as int].id == WindowId::Primary);
                lemma_resized_over(old(world)@, *window, *window);
            }
        } else {
            proof {
                if primary_resized(next) {
                    let j = choose|j: int|
                        0 <= j < next.len() && (#[trigger] next[j]).id == WindowId::Primary;
                    assert(seen[j].id == WindowId::Primary);
                }
                if primary_resized(seen) {
                    let j = choose|j: int|
                        0 <= j < seen.len() && (#[trigger] seen[j]).id == WindowId::Primary;
                    assert(next[j].id == WindowId::Primary);
                }
            }
        }
        i += 1;
    }
    assert(resize_events@.take(i as int) =~= resize_events@);
}

} // verus!
