//! How the two rectangles divide the window, in one frame and over any
//! number of frames.

use vstd::prelude::*;
use crate::camera::{tagged, CameraEntity, CameraMarker};
use crate::geometry::{UVec2, Viewport};
use crate::resize::{after_events, lemma_resized_over, resized, viewport_of};
use crate::window::{primary_resized, Window, WindowResized};

verus! {

/// After a frame in which the primary window was resized to an even height
/// `h` and a width `w`, the view camera has the rectangle at `(0, 0)` of size
/// `(w, h / 2)` and the graph camera the rectangle at `(0, h / 2)` of the
/// same size. The two heights add up to `h`.
pub proof fn lemma_resize_to_even_height(
    cameras: Seq<CameraEntity>,
    window: Window,
    events: Seq<WindowResized>,
    view: int,
    graph: int,
)
    requires
        window.physical_height % 2 == 0,
        primary_resized(events),
        tagged(cameras, CameraMarker::ViewCamera, view),
        tagged(cameras, CameraMarker::GraphCamera, graph),
    ensures
        ({
            let after = after_events(cameras, window, events);
            let half = window.physical_height / 2;
            &&& after[view].camera.viewport == Some(
                Viewport {
                    physical_position: UVec2 { x: 0, y: 0 },
                    physical_size: UVec2 { x: window.physical_width, y: half },
                },
            )
            &&& after[graph].camera.viewport == Some(
                Viewport {
                    physical_position: UVec2 { x: 0, y: half },
                    physical_size: UVec2 { x: window.physical_width, y: half },
                },
            )
            &&& half + half == window.physical_height
        }),
{
}

/// After a frame in which the primary window was resized to an odd height
/// `h`, each camera's rectangle is `(h - 1) / 2` high: the half is rounded
/// down for each of the two, so the heights add up to `h - 1`. The graph
/// camera's rectangle starts in row `(h - 1) / 2`.
pub proof fn lemma_resize_to_odd_height(
    cameras: Seq<CameraEntity>,
    window: Window,
    events: Seq<WindowResized>,
    view: int,
    graph: int,
)
    requires
        window.physical_height % 2 == 1,
        primary_resized(events),
        tagged(cameras, CameraMarker::ViewCamera, view),
        tagged(cameras, CameraMarker::GraphCamera, graph),
    ensures
        ({
            let after = after_events(cameras, window, events);
            let half = (window.physical_height - 1) / 2;
            &&& after[view].camera.viewport == Some(
                Viewport {
                    physical_position: UVec2 { x: 0, y: 0 },
                    physical_size: UVec2 { x: window.physical_width, y: half as u32 },
                },
            )
            &&& after[graph].camera.viewport == Some(
                Viewport {
                    physical_position: UVec2 { x: 0, y: half as u32 },
                    physical_size: UVec2 { x: window.physical_width, y: half as u32 },
                },
            )
            &&& half + half == window.physical_height - 1
        }),
{
}

/// The pixels that the two rectangles cover together are the pixels of the
/// window, but for its last row where its height is odd.
pub proof fn lemma_halves_cover_rows(window: Window)
    ensures
        forall|x: int, y: int|
            (#[trigger] viewport_of(CameraMarker::ViewCamera, window).contains(x, y)
                || viewport_of(CameraMarker::GraphCamera, window).contains(x, y)) <==> (
            window.contains(x, y) && y < window.physical_height - window.physical_height % 2),
{
}

/// The two rectangles share no pixel, both lie inside the window, and
/// together they hold no more pixels than the window has.
pub proof fn lemma_halves_apart_and_inside(window: Window)
    ensures
        viewport_of(CameraMarker::ViewCamera, window).disjoint(
            viewport_of(CameraMarker::GraphCamera, window),
        ),
        window.encloses(viewport_of(CameraMarker::ViewCamera, window)),
        window.encloses(viewport_of(CameraMarker::GraphCamera, window)),
        viewport_of(CameraMarker::ViewCamera, window).area() + viewport_of(
            CameraMarker::GraphCamera,
            window,
        ).area() <= window.area(),
{
    let width = window.physical_width as int;
    let height = window.physical_height as int;
    let half = (window.physical_height / 2) as int;
    assert(width * half + width * half <= width * height) by (nonlinear_arith)
        requires
            0 <= width,
            0 <= half,
            half + half <= height,
    ;
}

/// What the resize reaction is given in one frame: the size of the primary
/// window and the resize events that are pending.
pub struct Frame {
    pub window: Window,
    pub resize_events: Seq<WindowResized>,
}

/// The cameras after the resize reaction has run on each of the frames, from
/// the first to the last.
pub open spec fn after_frames(cameras: Seq<CameraEntity>, frames: Seq<Frame>) -> Seq<CameraEntity>
    decreases frames.len(),
{
    if frames.len() == 0 {
        cameras
    } else {
        after_events(
            after_frames(cameras, frames.drop_last()),
            frames.last().window,
            frames.last().resize_events,
        )
    }
}

/// The window of the last frame that holds a resize event for the primary
/// window, if there is such a frame.
pub open spec fn last_resize(frames: Seq<Frame>) -> Option<Window>
    decreases frames.len(),
{
    if frames.len() == 0 {
        None
    } else if primary_resized(frames.last().resize_events) {
        Some(frames.last().window)
    } else {
        last_resize(frames.drop_last())
    }
}

/// After any number of frames the cameras are as the last resize of the
/// primary window left them, or untouched if there was none.
pub proof fn lemma_last_resize_decides(cameras: Seq<CameraEntity>, frames: Seq<Frame>)
    ensures
        after_frames(cameras, frames) == (match last_resize(frames) {
            Some(window) => resized(cameras, window),
            None => cameras,
        }),
    decreases frames.len(),
{
    if frames.len() > 0 {
        lemma_last_resize_decides(cameras, frames.drop_last());
        if let Some(earlier) = last_resize(frames.drop_last()) {
            lemma_resized_over(cameras, earlier, frames.last().window);
        }
    }
}

/// After any number of frames with at least one resize of the primary
/// window, the rectangles of the view camera and of the graph camera share no
/// pixel, both lie inside the window as it was at the last such resize, and
/// together they hold no more pixels than that window.
pub proof fn lemma_frames_keep_halves_apart(
    cameras: Seq<CameraEntity>,
    frames: Seq<Frame>,
    view: int,
    graph: int,
)
    requires
        tagged(cameras, CameraMarker::ViewCamera, view),
        tagged(cameras, CameraMarker::GraphCamera, graph),
        last_resize(frames).is_some(),
    ensures
        ({
            let after = after_frames(cameras, frames);
            let window = last_resize(frames).unwrap();
            &&& after[view].camera.viewport.is_some()
            &&& after[graph].camera.viewport.is_some()
            &&& after[view].camera.viewport.unwrap().disjoint(after[graph].camera.viewport.unwrap())
            &&& window.encloses(after[view].camera.viewport.unwrap())
            &&& window.encloses(after[graph].camera.viewport.unwrap())
            &&& after[view].camera.viewport.unwrap().area()
                + after[graph].camera.viewport.unwrap().area() <= window.area()
        }),
{
    lemma_last_resize_decides(cameras, frames);
    lemma_halves_apart_and_inside(last_resize(frames).unwrap());
}

} // verus!
