use sprite_renderer::batch::{ProgramId, TextureId};
use sprite_renderer::camera::RenderStep::{
    BindOffscreen, BindScreen, Clear, DrawTriangles, UploadDrawVertices, UploadIndices,
    UploadQuadVertices, UploadUvs, UseOffscreenTexture, UseProgram, UseTexture,
};
use sprite_renderer::camera::{Camera, RenderStep};
use sprite_renderer::frame::{clear_all_draws, frame_steps, FrameClock, FrameStep, BASE_FRAMERATE};

fn quad() -> Vec<f32> {
    vec![0.0; 12]
}

fn two_batches() -> Camera<f32> {
    let mut camera: Camera<f32> = Camera::new();
    camera.draw_sprite(ProgramId(1), Some(TextureId(2)), quad());
    camera.draw_sprite(ProgramId(1), Some(TextureId(2)), quad());
    camera.draw_sprite(ProgramId(1), Some(TextureId(4)), quad());
    camera
}

#[test]
fn pass_without_post_process_draws_to_screen() {
    let camera = two_batches();
    assert_eq!(
        camera.render_pass(),
        vec![
            UseProgram(ProgramId(1)),
            UseTexture(TextureId(2)),
            UploadDrawVertices(0),
            UploadUvs(2),
            UploadIndices(2),
            DrawTriangles(12),
            UseProgram(ProgramId(1)),
            UseTexture(TextureId(4)),
            UploadDrawVertices(1),
            UploadUvs(1),
            UploadIndices(1),
            DrawTriangles(6),
        ]
    );
}

#[test]
fn pass_with_post_process_goes_offscreen_then_composites() {
    let mut camera = two_batches();
    camera.set_shader(Some(ProgramId(7)));
    let steps = camera.render_pass();
    assert_eq!(steps.len(), 2 + 12 + 7);
    assert_eq!(&steps[..2], &[BindOffscreen, Clear]);
    assert_eq!(steps[2], UseProgram(ProgramId(1)));
    assert_eq!(
        &steps[14..],
        &[
            BindScreen,
            UseProgram(ProgramId(7)),
            UseOffscreenTexture,
            UploadQuadVertices,
            UploadUvs(1),
            UploadIndices(1),
            DrawTriangles(6),
        ]
    );
}

#[test]
fn empty_camera_with_post_process_still_composites() {
    let mut camera: Camera<f32> = Camera::new();
    camera.set_shader(Some(ProgramId(3)));
    let steps = camera.render_pass();
    assert_eq!(steps.len(), 9);
    assert_eq!(steps[0], RenderStep::BindOffscreen);
    assert_eq!(steps[8], RenderStep::DrawTriangles(6));
    let plain: Camera<f32> = Camera::new();
    assert!(plain.render_pass().is_empty());
}

#[test]
fn frame_clears_once_then_runs_each_camera() {
    let mut first: Camera<f32> = Camera::new();
    first.draw_sprite(ProgramId(0), Some(TextureId(0)), quad());
    let second = two_batches();
    let mut cameras = vec![first, second];
    let steps = frame_steps(&cameras);
    assert_eq!(steps.len(), 1 + 6 + 12);
    assert_eq!(steps[0], FrameStep::ClearScreen);
    assert_eq!(steps[1], FrameStep::Camera(0, RenderStep::UseProgram(ProgramId(0))));
    assert_eq!(steps[6], FrameStep::Camera(0, RenderStep::DrawTriangles(6)));
    assert_eq!(steps[7], FrameStep::Camera(1, RenderStep::UseProgram(ProgramId(1))));
    assert_eq!(steps[18], FrameStep::Camera(1, RenderStep::DrawTriangles(6)));
    assert_eq!(steps.iter().filter(|s| **s == FrameStep::ClearScreen).count(), 1);

    clear_all_draws(&mut cameras);
    assert!(cameras.iter().all(|c| c.draws().is_empty()));
    assert_eq!(frame_steps(&cameras), vec![FrameStep::ClearScreen]);
}

#[test]
fn clock_skips_until_a_frame_period_has_passed() {
    let mut clock = FrameClock::new(1000, BASE_FRAMERATE);
    // 4 ms * 240 = 960 < 1000: too soon.
    assert_eq!(clock.tick(1004), None);
    assert_eq!(clock.last_ms, 1000);
    // 5 ms * 240 = 1200 > 1000: due.
    assert_eq!(clock.tick(1005), Some(5));
    assert_eq!(clock.last_ms, 1005);
    // A clock that goes back skips.
    assert_eq!(clock.tick(900), None);
    assert_eq!(clock.last_ms, 1005);
}

#[test]
fn clock_runs_a_frame_at_exactly_one_period() {
    // 4 ms * 250 = 1000: exactly one frame period, so the frame runs.
    let mut clock = FrameClock::new(0, 250);
    assert_eq!(clock.tick(3), None);
    assert_eq!(clock.tick(4), Some(4));
    assert_eq!(clock.last_ms, 4);
    // 10 ms at 100 frames per second is one period too.
    let mut slower = FrameClock::new(100, 100);
    assert_eq!(slower.tick(109), None);
    assert_eq!(slower.tick(110), Some(10));
    // No time at all never makes a frame due.
    assert_eq!(slower.tick(110), None);
}

#[test]
fn clock_at_sixty_frames_per_second() {
    let mut clock = FrameClock::new(0, 60);
    assert_eq!(clock.tick(16), None);
    assert_eq!(clock.tick(17), Some(17));
    assert_eq!(clock.tick(50), Some(33));
    let mut stopped = FrameClock::new(0, 0);
    assert_eq!(stopped.tick(u64::MAX), None);
    let mut fast = FrameClock::new(0, u64::MAX);
    assert_eq!(fast.tick(u64::MAX), Some(u64::MAX));
}
