//! Draw calls and the policy that coalesces quads into them.
//!
//! A draw call holds the quads of consecutive sprites that use the same
//! shader program and the same texture. Only the most recent draw call is
//! ever extended, so sprites keep their drawing order.

use vstd::prelude::*;

use crate::geometry::QUAD_POSITION_LEN;

verus! {

/// Handle of a linked shader program. Two handles name the same program
/// exactly when they are equal.
#[derive(Clone, Copy, Debug, PartialEq, Eq, Structural)]
pub struct ProgramId(pub usize);

/// Handle of a GPU texture. Two handles name the same texture exactly when
/// they are equal.
#[derive(Clone, Copy, Debug, PartialEq, Eq, Structural)]
pub struct TextureId(pub usize);

/// One GPU submission: `count` quads drawn with one program and one texture.
/// `vertices` holds the quads' transformed corner positions, twelve
/// components per quad, in drawing order.
pub struct DrawCall<T> {
    pub texture: TextureId,
    pub program: ProgramId,
    pub vertices: Vec<T>,
    pub count: usize,
}

/// What a draw call holds, as mathematical values.
pub struct DrawCallView<T> {
    pub texture: TextureId,
    pub program: ProgramId,
    pub vertices: Seq<T>,
    pub count: nat,
}

impl<T> View for DrawCall<T> {
    type V = DrawCallView<T>;

    open spec fn view(&self) -> DrawCallView<T> {
        DrawCallView {
            texture: self.texture,
            program: self.program,
            vertices: self.vertices@,
            count: self.count as nat,
        }
    }
}

impl<T> DrawCallView<T> {
    /// At least one quad, and twelve position components for each.
    pub open spec fn wf(self) -> bool {
        &&& self.count >= 1
        &&& self.vertices.len() == 12 * self.count
    }
}

/// The draw calls of a frame after one more quad is drawn with `program`
/// and `texture`: appended to the last draw call when that one uses the same
/// program and texture, otherwise the start of a new draw call.
pub open spec fn batch_quad<T>(
    calls: Seq<DrawCallView<T>>,
    program: ProgramId,
    texture: TextureId,
    quad: Seq<T>,
) -> Seq<DrawCallView<T>> {
    if calls.len() > 0 && calls.last().program == program && calls.last().texture == texture {
        let top = calls.last();
        calls.update(
            calls.len() - 1,
            DrawCallView {
                texture: top.texture,
                program: top.program,
                vertices: top.vertices + quad,
                count: top.count + 1,
            },
        )
    } else {
        calls.push(DrawCallView { texture, program, vertices: quad, count: 1 })
    }
}

/// Every draw call of the list is well formed.
pub open spec fn calls_wf<T>(calls: Seq<DrawCallView<T>>) -> bool {
    forall|i: int| 0 <= i < calls.len() ==> (#[trigger] calls[i]).wf()
}

/// One quad to draw: the program and texture it is drawn with, and its
/// transformed corner positions.
pub struct QuadDraw<T> {
    pub program: ProgramId,
    pub texture: TextureId,
    pub vertices: Seq<T>,
}

/// The draw calls that a frame's quads, drawn in order, leave behind.
pub open spec fn batch_all<T>(quads: Seq<QuadDraw<T>>) -> Seq<DrawCallView<T>>
    decreases quads.len(),
{
    if quads.len() == 0 {
        Seq::empty()
    } else {
        let q = quads.last();
        batch_quad(batch_all(quads.drop_last()), q.program, q.texture, q.vertices)
    }
}

/// Appends one quad to a list of draw calls, by the coalescing policy.
pub fn push_quad<T>(
    calls: &mut Vec<DrawCall<T>>,
    program: ProgramId,
    texture: TextureId,
    quad: Vec<T>,
)
    requires
        calls_wf(old(calls)@.map_values(|c: DrawCall<T>| c@)),
        quad@.len() == QUAD_POSITION_LEN,
    ensures
        final(calls)@.map_values(|c: DrawCall<T>| c@) == batch_quad(
            old(calls)@.map_values(|c: DrawCall<T>| c@),
            program,
            texture,
            quad@,
        ),
        calls_wf(final(calls)@.map_values(|c: DrawCall<T>| c@)),
{
    let ghost before = calls@.map_values(|c: DrawCall<T>| c@);
    let ghost added = quad@;
    let mut quad = quad;
    let n = calls.len();
    if n > 0 && calls[n - 1].program == program && calls[n - 1].texture == texture {
        let mut top = calls.pop().unwrap();
        assert(before.last() == top@);
        // Twelve components per quad already held: the count cannot overflow.
        let _held = top.vertices.len();
        top.vertices.append(&mut quad);
        top.count = top.count + 1;
        calls.push(top);
        assert(calls@.map_values(|c: DrawCall<T>| c@) =~= batch_quad(before, program, texture, added));
    } else {
        calls.push(DrawCall { texture, program, vertices: quad, count: 1 });
        assert(calls@.map_values(|c: DrawCall<T>| c@) =~= batch_quad(before, program, texture, quad@));
    }
}

/// The two quads are drawn with the same program and the same texture.
pub open spec fn same_material<T>(a: QuadDraw<T>, b: QuadDraw<T>) -> bool {
    a.program == b.program && a.texture == b.texture
}

/// The number of maximal runs of consecutive quads that share a program and
/// a texture.
pub open spec fn material_runs<T>(quads: Seq<QuadDraw<T>>) -> nat
    decreases quads.len(),
{
    if quads.len() == 0 {
        0
    } else if quads.len() == 1 {
        1
    } else if same_material(quads[quads.len() - 2], quads.last()) {
        material_runs(quads.drop_last())
    } else {
        material_runs(quads.drop_last()) + 1
    }
}

/// The vertices of every draw call, end to end in list order.
pub open spec fn call_vertices<T>(calls: Seq<DrawCallView<T>>) -> Seq<T>
    decreases calls.len(),
{
    if calls.len() == 0 {
        Seq::empty()
    } else {
        call_vertices(calls.drop_last()) + calls.last().vertices
    }
}

/// The vertices of every quad, end to end in drawing order.
pub open spec fn quad_vertices<T>(quads: Seq<QuadDraw<T>>) -> Seq<T>
    decreases quads.len(),
{
    if quads.len() == 0 {
        Seq::empty()
    } else {
        quad_vertices(quads.drop_last()) + quads.last().vertices
    }
}

/// Draw calls coalesce runs and nothing else: a frame's quads leave one draw
/// call per maximal run of consecutive quads that share a program and a
/// texture; the last draw call uses the last quad's program and texture;
/// and the draw calls hold every quad's vertices, in drawing order.
pub proof fn lemma_batch_runs<T>(quads: Seq<QuadDraw<T>>)
    ensures
        batch_all(quads).len() == material_runs(quads),
        call_vertices(batch_all(quads)) == quad_vertices(quads),
        quads.len() > 0 ==> batch_all(quads).last().program == quads.last().program
            && batch_all(quads).last().texture == quads.last().texture,
    decreases quads.len(),
{
    if quads.len() > 0 {
        let rest = quads.drop_last();
        let q = quads.last();
        lemma_batch_runs(rest);
        let calls = batch_all(rest);
        let after = batch_all(quads);
        if calls.len() > 0 && calls.last().program == q.program && calls.last().texture == q.texture {
            let top = calls.last();
            assert(after.drop_last() =~= calls.drop_last());
            assert(after.last().vertices == top.vertices + q.vertices);
            assert(call_vertices(after) =~= call_vertices(calls) + q.vertices);
            assert(rest.len() >= 1);
            if rest.len() >= 1 {
                assert(rest.last() == quads[quads.len() - 2]);
            }
        } else {
            assert(after.drop_last() =~= calls);
            if rest.len() >= 1 {
                assert(rest.last() == quads[quads.len() - 2]);
            }
        }
    }
}

/// Drawing quads that all share one program and one texture leaves exactly
/// one draw call, whose count is the number of quads and whose vertices are
/// twelve components per quad.
pub proof fn lemma_single_material<T>(quads: Seq<QuadDraw<T>>, program: ProgramId, texture: TextureId)
    requires
        quads.len() >= 1,
        forall|i: int|
            0 <= i < quads.len() ==> (#[trigger] quads[i]).program == program
                && quads[i].texture == texture && quads[i].vertices.len() == 12,
    ensures
        batch_all(quads).len() == 1,
        batch_all(quads)[0].program == program,
        batch_all(quads)[0].texture == texture,
        batch_all(quads)[0].count == quads.len(),
        batch_all(quads)[0].vertices.len() == 12 * quads.len(),
    decreases quads.len(),
{
    let rest = quads.drop_last();
    let q = quads.last();
    assert(q == quads[quads.len() - 1]);
    assert(batch_all(quads) == batch_quad(batch_all(rest), q.program, q.texture, q.vertices));
    if rest.len() >= 1 {
        assert forall|i: int| 0 <= i < rest.len() implies (#[trigger] rest[i]).program == program
            && rest[i].texture == texture && rest[i].vertices.len() == 12 by {
            assert(rest[i] == quads[i]);
        }
        lemma_single_material(rest, program, texture);
        assert(batch_all(rest).last() == batch_all(rest)[0]);
    } else {
        assert(batch_all(rest) == Seq::<DrawCallView<T>>::empty());
    }
}

/// Only the most recent draw call is extended: a quad with texture `t1`, a
/// quad with another texture `t2`, then again a quad with `t1` leave three
/// draw calls, not two.
pub proof fn lemma_interleaved_textures<T>(a: QuadDraw<T>, b: QuadDraw<T>, c: QuadDraw<T>)
    requires
        a.texture != b.texture,
        c.texture == a.texture,
    ensures
        batch_all(seq![a, b, c]).len() == 3,
{
    let quads = seq![a, b, c];
    assert(quads.drop_last() =~= seq![a, b]);
    assert(seq![a, b].drop_last() =~= seq![a]);
    assert(seq![a].drop_last() =~= Seq::<QuadDraw<T>>::empty());
    assert(batch_all(Seq::<QuadDraw<T>>::empty()).len() == 0);
    assert(seq![a].last() == a);
    assert(seq![a, b].last() == b);
    assert(quads.last() == c);
    assert(batch_all(seq![a]).len() == 1);
    assert(batch_all(seq![a]).last().texture == a.texture);
    assert(batch_all(seq![a, b]).len() == 2);
    assert(batch_all(seq![a, b]).last().texture == b.texture);
}

} // verus!
