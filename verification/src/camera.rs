//! The cameras, the tags that tell them apart, and the store that holds them.

use vstd::prelude::*;
use crate::geometry::Viewport;

verus! {

/// The tag that a camera carries.
#[derive(Clone, Copy, Debug, PartialEq, Eq, Structural)]
pub enum CameraMarker {
    /// The camera that renders the graph, in the bottom half of the window.
    GraphCamera,
    /// The camera that renders the view, in the top half of the window.
    ViewCamera,
}

/// The colour that a camera clears its part of the window with.
#[derive(Clone, Copy, Debug, PartialEq, Eq, Structural)]
pub enum ClearColor {
    Blue,
    Crimson,
}

impl CameraMarker {
    /// The render priority of the camera with this tag. A camera with a higher
    /// priority is rendered after one with a lower priority.
    pub open spec fn render_priority(self) -> isize {
        match self {
            CameraMarker::GraphCamera => 0,
            CameraMarker::ViewCamera => 1,
        }
    }

    /// The render priority of the camera with this tag: 0 for the graph
    /// camera, 1 for the view camera.
    pub fn priority(&self) -> (priority: isize)
        ensures
            priority == self.render_priority(),
    {
        match self {
            CameraMarker::GraphCamera => 0,
            CameraMarker::ViewCamera => 1,
        }
    }

    /// The colour that the camera with this tag clears its rectangle with.
    pub open spec fn background(self) -> ClearColor {
        match self {
            CameraMarker::GraphCamera => ClearColor::Blue,
            CameraMarker::ViewCamera => ClearColor::Crimson,
        }
    }

    /// The clear colour of the camera with this tag: blue for the graph
    /// camera, crimson for the view camera.
    pub fn clear_color(&self) -> (color: ClearColor)
        ensures
            color == self.background(),
    {
        match self {
            CameraMarker::GraphCamera => ClearColor::Blue,
            CameraMarker::ViewCamera => ClearColor::Crimson,
        }
    }
}

/// What a camera is configured with.
#[derive(Clone, Copy, Debug, PartialEq, Eq)]
pub struct Camera {
    /// The rectangle that the camera renders to; the whole window if `None`.
    pub viewport: Option<Viewport>,
    /// Cameras with a lower priority are rendered first.
    pub priority: isize,
}

/// A camera in the store, with its tag and its change flags.
#[derive(Clone, Copy, Debug, PartialEq, Eq)]
pub struct CameraEntity {
    pub marker: CameraMarker,
    pub camera: Camera,
    /// What the camera's rectangle is cleared with before it renders.
    pub clear_color: ClearColor,
    /// Set when `camera` has been written to since the flags were last cleared.
    pub camera_changed: bool,
    /// Set when the camera's projection has to be rebuilt.
    pub projection_changed: bool,
}

/// The camera that is spawned for `marker`: it has the priority and the clear
/// colour of its tag and no viewport yet, and both of its flags are set, as
/// for everything that is new in the store.
pub open spec fn spawned(marker: CameraMarker) -> CameraEntity {
    CameraEntity {
        marker,
        camera: Camera { viewport: None, priority: marker.render_priority() },
        clear_color: marker.background(),
        camera_changed: true,
        projection_changed: true,
    }
}

/// Whether `i` is the place of a camera tagged `marker`.
pub open spec fn tagged(cameras: Seq<CameraEntity>, marker: CameraMarker, i: int) -> bool {
    0 <= i < cameras.len() && cameras[i].marker == marker
}

/// Whether the camera at `i` is tagged `marker` and no other camera is.
pub open spec fn is_single(cameras: Seq<CameraEntity>, marker: CameraMarker, i: int) -> bool {
    &&& tagged(cameras, marker, i)
    &&& forall|j: int| #[trigger] tagged(cameras, marker, j) ==> j == i
}

/// Whether exactly one camera is tagged `marker`.
pub open spec fn has_single(cameras: Seq<CameraEntity>, marker: CameraMarker) -> bool {
    exists|i: int| #[trigger] is_single(cameras, marker, i)
}

/// Whether the store holds exactly one graph camera and exactly one view
/// camera.
pub open spec fn one_of_each(cameras: Seq<CameraEntity>) -> bool {
    &&& has_single(cameras, CameraMarker::GraphCamera)
    &&& has_single(cameras, CameraMarker::ViewCamera)
}

/// Whether two stores hold the same tags in the same places.
pub open spec fn same_markers(a: Seq<CameraEntity>, b: Seq<CameraEntity>) -> bool {
    &&& a.len() == b.len()
    &&& forall|i: int| 0 <= i < a.len() ==> (#[trigger] a[i]).marker == b[i].marker
}

/// Stores with the same tags in the same places agree on where the camera
/// with a tag is, and on whether there is exactly one.
pub proof fn lemma_same_markers(a: Seq<CameraEntity>, b: Seq<CameraEntity>, marker: CameraMarker)
    requires
        same_markers(a, b),
    ensures
        forall|i: int| tagged(a, marker, i) <==> #[trigger] tagged(b, marker, i),
        forall|i: int| is_single(a, marker, i) <==> #[trigger] is_single(b, marker, i),
        has_single(a, marker) <==> has_single(b, marker),
{
    assert forall|i: int| tagged(a, marker, i) <==> #[trigger] tagged(b, marker, i) by {
        if 0 <= i < a.len() {
            assert(a[i].marker == b[i].marker);
        }
    }
    assert forall|i: int| is_single(a, marker, i) <==> #[trigger] is_single(b, marker, i) by {
        if is_single(a, marker, i) {
            assert forall|j: int| #[trigger] tagged(b, marker, j) implies j == i by {
                assert(tagged(a, marker, j));
            }
        }
        if is_single(b, marker, i) {
            assert forall|j: int| #[trigger] tagged(a, marker, j) implies j == i by {
                assert(tagged(b, marker, j));
            }
        }
    }
    if has_single(a, marker) {
        let i = choose|i: int| is_single(a, marker, i);
        assert(is_single(b, marker, i));
    }
    if has_single(b, marker) {
        let i = choose|i: int| is_single(b, marker, i);
        assert(is_single(a, marker, i));
    }
}

/// The cameras that exist, in the order in which they were spawned.
#[derive(Debug, PartialEq, Eq)]
pub struct World {
    pub cameras: Vec<CameraEntity>,
}

impl View for World {
    type V = Seq<CameraEntity>;

    open spec fn view(&self) -> Seq<CameraEntity> {
        self.cameras@
    }
}

impl Clone for World {
    /// A store with the same cameras.
    fn clone(&self) -> (copy: World)
        ensures
            copy@ == self@,
    {
        let cameras = self.cameras.clone();
        assert(cameras@ =~= self.cameras@);
        World { cameras }
    }
}

impl World {
    /// A store without cameras.
    pub fn new() -> (world: World)
        ensures
            world@ == Seq::<CameraEntity>::empty(),
    {
        World { cameras: Vec::new() }
    }

    /// Adds the camera for `marker` behind the cameras that exist.
    pub fn spawn(&mut self, marker: CameraMarker)
        ensures
            final(self)@ == old(self)@.push(spawned(marker)),
    {
        let entity = CameraEntity {
            marker,
            camera: Camera { viewport: None, priority: marker.priority() },
            clear_color: marker.clear_color(),
            camera_changed: true,
            projection_changed: true,
        };
        self.cameras.push(entity);
    }

    /// The place of the camera tagged `marker` if exactly one camera carries
    /// that tag, and `None` if none or more than one does.
    pub fn get_single(&self, marker: CameraMarker) -> (found: Option<usize>)
        ensures
            match found {
                Some(i) => is_single(self@, marker, i as int),
                None => !has_single(self@, marker),
            },
    {
        let mut found: Option<usize> = None;
        let mut i: usize = 0;
        while i < self.cameras.len()
            invariant
                i <= self.cameras.len(),
                match found {
                    Some(k) => {
                        &&& k < i
                        &&& tagged(self@, marker, k as int)
                        &&& forall|j: int| 0 <= j < i && #[trigger] tagged(self@, marker, j) ==> j == k
                    },
                    None => forall|j: int| 0 <= j < i ==> !#[trigger] tagged(self@, marker, j),
                },
            decreases self.cameras.len() - i,
        {
            if self.cameras[i].marker == marker {
                if let Some(k) = found {
                    assert forall|c: int| !is_single(self@, marker, c) by {
                        assert(tagged(self@, marker, k as int));
                        assert(tagged(self@, marker, i as int));
                    }
                    return None;
                }
                found = Some(i);
            }
            i += 1;
        }
        found
    }

    /// The place of the one camera tagged `marker`.
    pub fn single(&self, marker: CameraMarker) -> (i: usize)
        requires
            has_single(self@, marker),
        ensures
            is_single(self@, marker, i as int),
    {
        let ghost k = choose|k: int| is_single(self@, marker, k);
        let mut i: usize = 0;
        while self.cameras[i].marker != marker
            invariant
                i <= k < self.cameras.len(),
                is_single(self@, marker, k),
            decreases k - i,
        {
            assert(!tagged(self@, marker, i as int));
            i += 1;
        }
        assert(tagged(self@, marker, i as int));
        i
    }
}

} // verus!
