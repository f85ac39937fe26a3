//! The per-frame tick: when a frame is due, and what a frame submits.
//!
//! A frame updates every scene object, lets every sprite record its quad
//! with its camera, clears the screen once, runs every camera's render pass
//! in order, and only then empties every camera's draw list.

use vstd::prelude::*;

use crate::batch::DrawCallView;
use crate::camera::{pass_steps, Camera, CameraView, RenderStep};

verus! {

/// Target number of frames per second.
pub const BASE_FRAMERATE: u64 = 240;

/// One GPU operation of a frame.
#[derive(Clone, Copy, Debug, PartialEq, Eq, Structural)]
pub enum FrameStep {
    /// Clear the screen to transparent black.
    ClearScreen,
    /// A step of the render pass of the camera with this index.
    Camera(usize, RenderStep),
}

/// The render pass of the camera with index `index`, tagged with it.
pub open spec fn camera_steps<T>(index: int, camera: CameraView<T>) -> Seq<FrameStep> {
    pass_steps(camera.calls, camera.shader).map_values(
        |s: RenderStep| FrameStep::Camera(index as usize, s),
    )
}

/// The render passes of all cameras, in camera order.
pub open spec fn cameras_steps<T>(cameras: Seq<CameraView<T>>) -> Seq<FrameStep>
    decreases cameras.len(),
{
    if cameras.len() == 0 {
        Seq::empty()
    } else {
        cameras_steps(cameras.drop_last()) + camera_steps(cameras.len() - 1, cameras.last())
    }
}

/// A frame's GPU work: one clear of the screen, then every camera's pass.
pub open spec fn frame_spec<T>(cameras: Seq<CameraView<T>>) -> Seq<FrameStep> {
    seq![FrameStep::ClearScreen] + cameras_steps(cameras)
}

/// The cameras as mathematical values.
pub open spec fn camera_views<T>(cameras: Seq<Camera<T>>) -> Seq<CameraView<T>> {
    cameras.map_values(|c: Camera<T>| c@)
}

/// The GPU steps of one frame, once every sprite has recorded its quad.
pub fn frame_steps<T>(cameras: &Vec<Camera<T>>) -> (r: Vec<FrameStep>)
    ensures
        r@ == frame_spec(camera_views(cameras@)),
{
    let ghost views = camera_views(cameras@);
    let mut steps: Vec<FrameStep> = Vec::new();
    steps.push(FrameStep::ClearScreen);
    let mut i: usize = 0;
    while i < cameras.len()
        invariant
            views == camera_views(cameras@),
            i <= cameras@.len(),
            steps@ == seq![FrameStep::ClearScreen] + cameras_steps(views.take(i as int)),
        decreases cameras@.len() - i,
    {
        let pass = cameras[i].render_pass();
        let ghost before = steps@;
        let ghost tagged = camera_steps(i as int, views[i as int]);
        let mut k: usize = 0;
        while k < pass.len()
            invariant
                i < cameras@.len(),
                pass@ == pass_steps(views[i as int].calls, views[i as int].shader),
                tagged == camera_steps(i as int, views[i as int]),
                k <= pass@.len(),
                steps@ == before + tagged.take(k as int),
            decreases pass@.len() - k,
        {
            steps.push(FrameStep::Camera(i, pass[k]));
            k += 1;
            assert(steps@ =~= before + tagged.take(k as int));
        }
        proof {
            assert(tagged.take(pass@.len() as int) =~= tagged);
            assert(views.take(i + 1).drop_last() =~= views.take(i as int));
        }
        i += 1;
        assert(steps@ =~= seq![FrameStep::ClearScreen] + cameras_steps(views.take(i as int)));
    }
    assert(views.take(views.len() as int) =~= views);
    steps
}

/// Empties every camera's draw list once the frame has been submitted.
pub fn clear_all_draws<T>(cameras: &mut Vec<Camera<T>>)
    ensures
        final(cameras)@.len() == old(cameras)@.len(),
        forall|i: int|
            0 <= i < final(cameras)@.len() ==> (#[trigger] final(cameras)@[i])@.calls
                == Seq::<DrawCallView<T>>::empty() && final(cameras)@[i]@.shader
                == old(cameras)@[i]@.shader,
{
    let mut i: usize = 0;
    while i < cameras.len()
        invariant
            i <= cameras@.len(),
            cameras@.len() == old(cameras)@.len(),
            forall|j: int|
                0 <= j < i ==> (#[trigger] cameras@[j])@.calls
                    == Seq::<DrawCallView<T>>::empty() && cameras@[j]@.shader
                    == old(cameras)@[j]@.shader,
            forall|j: int| i <= j < cameras@.len() ==> #[trigger] cameras@[j] == old(cameras)@[j],
        decreases cameras@.len() - i,
    {
        cameras[i].clear_draws();
        i += 1;
    }
}

/// Decides when the next frame is due: a frame is skipped while less than
/// one frame period, `1 / target_fps` seconds, has passed since the last
/// frame that ran.
pub struct FrameClock {
    /// When the last frame ran, in milliseconds.
    pub last_ms: u64,
    /// The most frames per second to run.
    pub target_fps: u64,
}

/// `now_ms` is after `last_ms`, and at least one frame period has passed
/// between them.
pub open spec fn frame_due(last_ms: u64, now_ms: u64, target_fps: u64) -> bool {
    now_ms > last_ms && (now_ms - last_ms) * target_fps >= 1000
}

impl FrameClock {
    /// A clock whose first frame is measured from `now_ms`.
    pub fn new(now_ms: u64, target_fps: u64) -> (r: FrameClock)
        ensures
            r.last_ms == now_ms,
            r.target_fps == target_fps,
    {
        FrameClock { last_ms: now_ms, target_fps }
    }

    /// Called once per host frame callback at time `now_ms`. When a frame is
    /// due, returns the time elapsed since the last one ran, in
    /// milliseconds, and makes `now_ms` the last frame's time; otherwise
    /// returns `None` and changes nothing.
    pub fn tick(&mut self, now_ms: u64) -> (r: Option<u64>)
        ensures
            final(self).target_fps == old(self).target_fps,
            frame_due(old(self).last_ms, now_ms, old(self).target_fps) ==> r == Some(
                (now_ms - old(self).last_ms) as u64,
            ) && final(self).last_ms == now_ms,
            !frame_due(old(self).last_ms, now_ms, old(self).target_fps) ==> r == None::<u64>
                && final(self).last_ms == old(self).last_ms,
    {
        if now_ms <= self.last_ms {
            return None;
        }
        let elapsed: u64 = now_ms - self.last_ms;
        let fps: u64 = self.target_fps;
        assert((elapsed as int) * (fps as int) <= u64::MAX as int * u64::MAX as int) by (nonlinear_arith)
            requires
                elapsed <= u64::MAX,
                fps <= u64::MAX,
        ;
        let scaled: u128 = (elapsed as u128) * (fps as u128);
        if scaled >= 1000 {
            self.last_ms = now_ms;
            Some(elapsed)
        } else {
            None
        }
    }
}

} // verus!
