//! Startup: the two cameras are spawned.

use vstd::prelude::*;
use crate::camera::{
    is_single, one_of_each, spawned, tagged, CameraEntity, CameraMarker, ClearColor, World,
};

verus! {

/// The cameras that startup adds: the graph camera first, then the view
/// camera.
pub open spec fn startup_cameras() -> Seq<CameraEntity> {
    seq![spawned(CameraMarker::GraphCamera), spawned(CameraMarker::ViewCamera)]
}

/// Spawns the graph camera and the view camera, in this order, behind the
/// cameras that `world` holds already. In a store that was empty these are
/// then the one graph camera and the one view camera.
pub fn world_setup(world: &mut World)
    ensures
        final(world)@ == old(world)@ + startup_cameras(),
        old(world)@.len() == 0 ==> one_of_each(final(world)@),
{
    world.spawn(CameraMarker::GraphCamera);
    world.spawn(CameraMarker::ViewCamera);
    proof {
        assert(world@ =~= old(world)@ + startup_cameras());
        if old(world)@.len() == 0 {
            lemma_startup_yields_one_of_each();
            assert(world@ =~= startup_cameras());
        }
    }
}

/// Startup on an empty store yields exactly one graph camera, with priority
/// 0 and a blue background, and exactly one view camera, with priority 1 and
/// a crimson background. Neither has a viewport yet.
pub proof fn lemma_startup_yields_one_of_each()
    ensures
        one_of_each(startup_cameras()),
        is_single(startup_cameras(), CameraMarker::GraphCamera, 0),
        is_single(startup_cameras(), CameraMarker::ViewCamera, 1),
        startup_cameras()[0].camera.priority == 0,
        startup_cameras()[1].camera.priority == 1,
        startup_cameras()[0].clear_color == ClearColor::Blue,
        startup_cameras()[1].clear_color == ClearColor::Crimson,
        startup_cameras()[0].camera.viewport.is_none(),
        startup_cameras()[1].camera.viewport.is_none(),
        Seq::<CameraEntity>::empty() + startup_cameras() == startup_cameras(),
{
    let cameras = startup_cameras();
    assert(cameras.len() == 2);
    assert(tagged(cameras, CameraMarker::GraphCamera, 0));
    assert(tagged(cameras, CameraMarker::ViewCamera, 1));
    assert(is_single(cameras, CameraMarker::GraphCamera, 0));
    assert(is_single(cameras, CameraMarker::ViewCamera, 1));
    assert(Seq::<CameraEntity>::empty() + cameras =~= cameras);
}

} // verus!
