//! A camera's draw list for one frame and the render pass that submits it.

use vstd::prelude::*;

use crate::batch::{batch_quad, calls_wf, push_quad, DrawCall, DrawCallView, ProgramId, TextureId};
use crate::geometry::QUAD_POSITION_LEN;

verus! {

/// One GPU operation of a render pass, for the host that owns the GPU
/// context to carry out.
#[derive(Clone, Copy, Debug, PartialEq, Eq, Structural)]
pub enum RenderStep {
    /// Make the offscreen framebuffer the render target.
    BindOffscreen,
    /// Make the screen the render target again.
    BindScreen,
    /// Clear the current render target to transparent black.
    Clear,
    /// Bind a shader program.
    UseProgram(ProgramId),
    /// Bind a texture.
    UseTexture(TextureId),
    /// Bind the offscreen framebuffer's color buffer as the texture.
    UseOffscreenTexture,
    /// Upload the vertex positions of the camera's draw call with this index.
    UploadDrawVertices(usize),
    /// Upload the positions of the canonical unit quad.
    UploadQuadVertices,
    /// Upload the canonical texture coordinates, repeated for this many quads.
    UploadUvs(usize),
    /// Upload the index buffer of a run of this many quads.
    UploadIndices(usize),
    /// Draw indexed triangles using this many indices.
    DrawTriangles(usize),
}

/// The steps that submit the draw call with index `index`.
pub open spec fn call_steps<T>(index: int, call: DrawCallView<T>) -> Seq<RenderStep> {
    seq![
        RenderStep::UseProgram(call.program),
        RenderStep::UseTexture(call.texture),
        RenderStep::UploadDrawVertices(index as usize),
        RenderStep::UploadUvs(call.count as usize),
        RenderStep::UploadIndices(call.count as usize),
        RenderStep::DrawTriangles((6 * call.count) as usize),
    ]
}

/// The steps that submit every draw call of the list, in order.
pub open spec fn calls_steps<T>(calls: Seq<DrawCallView<T>>) -> Seq<RenderStep>
    decreases calls.len(),
{
    if calls.len() == 0 {
        Seq::empty()
    } else {
        calls_steps(calls.drop_last()) + call_steps(calls.len() - 1, calls.last())
    }
}

/// The steps that composite the offscreen buffer onto the screen through
/// the post-process program: one canonical quad.
pub open spec fn composite_steps(shader: ProgramId) -> Seq<RenderStep> {
    seq![
        RenderStep::BindScreen,
        RenderStep::UseProgram(shader),
        RenderStep::UseOffscreenTexture,
        RenderStep::UploadQuadVertices,
        RenderStep::UploadUvs(1),
        RenderStep::UploadIndices(1),
        RenderStep::DrawTriangles(6),
    ]
}

/// A camera's whole render pass: its draw calls straight to the screen, or,
/// with a post-process program, into a cleared offscreen buffer that is
/// then composited onto the screen.
pub open spec fn pass_steps<T>(calls: Seq<DrawCallView<T>>, shader: Option<ProgramId>) -> Seq<
    RenderStep,
> {
    match shader {
        None => calls_steps(calls),
        Some(p) => seq![RenderStep::BindOffscreen, RenderStep::Clear] + calls_steps(calls)
            + composite_steps(p),
    }
}

/// What a camera holds, as mathematical values.
pub struct CameraView<T> {
    pub calls: Seq<DrawCallView<T>>,
    pub shader: Option<ProgramId>,
}

/// The rendering side of a camera: the draw calls accumulated during the
/// current frame, and an optional post-process program.
pub struct Camera<T> {
    draws: Vec<DrawCall<T>>,
    shader: Option<ProgramId>,
}

impl<T> View for Camera<T> {
    type V = CameraView<T>;

    closed spec fn view(&self) -> CameraView<T> {
        CameraView { calls: self.draws@.map_values(|c: DrawCall<T>| c@), shader: self.shader }
    }
}

impl<T> Camera<T> {
    #[verifier::type_invariant]
    spec fn inv(&self) -> bool {
        calls_wf(self.draws@.map_values(|c: DrawCall<T>| c@))
    }

    /// A camera with no draw calls and no post-process program.
    pub fn new() -> (r: Camera<T>)
        ensures
            r@.calls == Seq::<DrawCallView<T>>::empty(),
            r@.shader == None::<ProgramId>,
    {
        let r = Camera { draws: Vec::new(), shader: None };
        assert(r.draws@.map_values(|c: DrawCall<T>| c@) =~= Seq::empty());
        r
    }

    /// The post-process program, if any.
    pub fn shader(&self) -> (r: Option<ProgramId>)
        ensures
            r == self@.shader,
    {
        self.shader
    }

    /// Sets or removes the post-process program.
    pub fn set_shader(&mut self, shader: Option<ProgramId>)
        ensures
            final(self)@.shader == shader,
            final(self)@.calls == old(self)@.calls,
    {
        proof {
            use_type_invariant(&*self);
        }
        self.shader = shader;
    }

    /// The draw calls accumulated so far, in order.
    pub fn draws(&self) -> (r: &Vec<DrawCall<T>>)
        ensures
            r@.map_values(|c: DrawCall<T>| c@) == self@.calls,
            calls_wf(self@.calls),
    {
        proof {
            use_type_invariant(self);
        }
        &self.draws
    }

    /// Records one sprite's quad for this frame. A sprite whose texture is
    /// not loaded yet is skipped; otherwise its quad joins the last draw
    /// call if that one uses the same program and texture, or starts a new
    /// one.
    pub fn draw_sprite(&mut self, program: ProgramId, texture: Option<TextureId>, quad: Vec<T>)
        requires
            quad@.len() == QUAD_POSITION_LEN,
        ensures
            final(self)@.shader == old(self)@.shader,
            final(self)@.calls == match texture {
                None => old(self)@.calls,
                Some(t) => batch_quad(old(self)@.calls, program, t, quad@),
            },
    {
        proof {
            use_type_invariant(&*self);
        }
        if let Some(t) = texture {
            let mut draws: Vec<DrawCall<T>> = Vec::new();
            std::mem::swap(&mut self.draws, &mut draws);
            push_quad(&mut draws, program, t, quad);
            self.draws = draws;
        }
    }

    /// The GPU steps that submit this frame's draw calls: with a
    /// post-process program, into a cleared offscreen buffer and then
    /// composited onto the screen; otherwise straight to the current target.
    /// Each draw call binds its program and texture, uploads its vertices
    /// and the texture coordinates and indices for its quad count, and
    /// draws six indices per quad.
    pub fn render_pass(&self) -> (r: Vec<RenderStep>)
        ensures
            r@ == pass_steps(self@.calls, self@.shader),
    {
        proof {
            use_type_invariant(self);
        }
        let ghost calls = self@.calls;
        let mut steps: Vec<RenderStep> = Vec::new();
        if self.shader.is_some() {
            steps.push(RenderStep::BindOffscreen);
            steps.push(RenderStep::Clear);
        }
        let ghost prefix = steps@;
        let mut i: usize = 0;
        while i < self.draws.len()
            invariant
                calls == self@.calls,
                calls_wf(calls),
                i <= calls.len(),
                steps@ == prefix + calls_steps(calls.take(i as int)),
            decreases calls.len() - i,
        {
            let call = &self.draws[i];
            assert(call@ == calls[i as int]);
            // Twelve components per quad: six indices per quad fit too.
            let _held = call.vertices.len();
            steps.push(RenderStep::UseProgram(call.program));
            steps.push(RenderStep::UseTexture(call.texture));
            steps.push(RenderStep::UploadDrawVertices(i));
            steps.push(RenderStep::UploadUvs(call.count));
            steps.push(RenderStep::UploadIndices(call.count));
            steps.push(RenderStep::DrawTriangles(call.count * 6));
            proof {
                assert(calls.take(i + 1).drop_last() =~= calls.take(i as int));
                assert(calls_steps(calls.take(i + 1)) == calls_steps(calls.take(i as int))
                    + call_steps(i as int, calls[i as int]));
            }
            i += 1;
            assert(steps@ =~= prefix + calls_steps(calls.take(i as int)));
        }
        assert(calls.take(calls.len() as int) =~= calls);
        if let Some(p) = self.shader {
            steps.push(RenderStep::BindScreen);
            steps.push(RenderStep::UseProgram(p));
            steps.push(RenderStep::UseOffscreenTexture);
            steps.push(RenderStep::UploadQuadVertices);
            steps.push(RenderStep::UploadUvs(1));
            steps.push(RenderStep::UploadIndices(1));
            steps.push(RenderStep::DrawTriangles(6));
        }
        assert(steps@ =~= pass_steps(calls, self.shader));
        steps
    }

    /// Drops every draw call, ready for the next frame.
    pub fn clear_draws(&mut self)
        ensures
            final(self)@.calls == Seq::<DrawCallView<T>>::empty(),
            final(self)@.shader == old(self)@.shader,
    {
        self.draws = Vec::new();
        assert(self.draws@.map_values(|c: DrawCall<T>| c@) =~= Seq::empty());
    }
}

} // verus!
