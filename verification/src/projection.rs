//! The projection of a camera is rebuilt only when it is flagged, and a
//! write to the camera alone does not flag it. So whenever a camera has been
//! written to, its projection is flagged here.

use vstd::prelude::*;
use crate::camera::{lemma_same_markers, one_of_each, CameraEntity, CameraMarker, World};
use crate::resize::after_events;
use crate::window::{primary_resized, Window, WindowResized};

verus! {

/// A camera after the refresh: its projection is flagged if it was flagged
/// before or if the camera was written to. Nothing else changes.
pub open spec fn refreshed_camera(entity: CameraEntity) -> CameraEntity {
    CameraEntity {
        projection_changed: entity.projection_changed || entity.camera_changed,
        ..entity
    }
}

/// The cameras after the refresh.
pub open spec fn refreshed(cameras: Seq<CameraEntity>) -> Seq<CameraEntity> {
    cameras.map_values(|entity: CameraEntity| refreshed_camera(entity))
}

/// After the refresh the projection of every camera that was written to is
/// flagged. No projection loses its flag, and nothing but these flags is
/// touched.
pub proof fn lemma_refresh_flags_written_cameras(cameras: Seq<CameraEntity>)
    ensures
        refreshed(cameras).len() == cameras.len(),
        forall|i: int|
            0 <= i < cameras.len() ==> {
                let before = cameras[i];
                let after = #[trigger] refreshed(cameras)[i];
                &&& before.camera_changed ==> after.projection_changed
                &&& before.projection_changed ==> after.projection_changed
                &&& after.projection_changed ==> before.camera_changed || before.projection_changed
                &&& after.marker == before.marker
                &&& after.camera == before.camera
                &&& after.clear_color == before.clear_color
                &&& after.camera_changed == before.camera_changed
            },
{
}

/// When the resize reaction has handled an event about the primary window and
/// the refresh runs after it, the projection of every camera is flagged.
pub proof fn lemma_resize_then_refresh(
    cameras: Seq<CameraEntity>,
    window: Window,
    events: Seq<WindowResized>,
)
    requires
        primary_resized(events),
    ensures
        forall|i: int|
            0 <= i < cameras.len() ==> (#[trigger] refreshed(
                after_events(cameras, window, events),
            )[i]).projection_changed,
{
}

/// Flags the projection of every camera that has been written to.
pub fn update_camera_projection_when_camera_changes(world: &mut World)
    ensures
        final(world)@ == refreshed(old(world)@),
        one_of_each(old(world)@) ==> one_of_each(final(world)@),
{
    let mut i: usize = 0;
    while i < world.cameras.len()
        invariant
            i <= world@.len(),
            world@.len() == old(world)@.len(),
            forall|j: int| 0 <= j < i ==> world@[j] == refreshed_camera(old(world)@[j]),
            forall|j: int| i <= j < world@.len() ==> world@[j] == old(world)@[j],
        decreases world@.len() - i,
    {
        let mut entity = world.cameras[i];
        if entity.camera_changed {
            entity.projection_changed = true;
            world.cameras.set(i, entity);
        }
        i += 1;
    }
    proof {
        assert(world@ =~= refreshed(old(world)@));
        lemma_same_markers(old(world)@, world@, CameraMarker::GraphCamera);
        lemma_same_markers(old(world)@, world@, CameraMarker::ViewCamera);
    }
}

} // verus!
