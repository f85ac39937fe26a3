//! The canonical unit quad shared by every sprite, and the buffers built by
//! repeating it.

use vstd::arithmetic::div_mod::{lemma_fundamental_div_mod, lemma_fundamental_div_mod_converse};
use vstd::prelude::*;

verus! {

/// Position components of one quad: four corners of `x, y, z`.
pub const QUAD_POSITION_LEN: usize = 12;

/// Texture-coordinate components of one quad: four corners of `u, v`.
pub const QUAD_UV_LEN: usize = 8;

/// Indices of one quad: two triangles.
pub const QUAD_INDEX_LEN: usize = 6;

/// Corner positions of the unit quad: bottom-left, bottom-right, top-right,
/// top-left, each `(x, y, z)` with `x, y` in `{-1, 1}` and `z == 0`.
pub open spec fn quad_positions() -> Seq<i8> {
    seq![-1i8, -1i8, 0i8, 1i8, -1i8, 0i8, 1i8, 1i8, 0i8, -1i8, 1i8, 0i8]
}

/// Texture coordinates of the unit quad, corner by corner as in
/// `quad_positions`, covering `(0, 0)` to `(1, 1)`.
pub open spec fn quad_uvs() -> Seq<u8> {
    seq![0u8, 0u8, 1u8, 0u8, 1u8, 1u8, 0u8, 1u8]
}

/// The two triangles of the unit quad, as corner numbers.
pub open spec fn quad_indices_spec() -> Seq<u16> {
    seq![0u16, 1u16, 2u16, 2u16, 3u16, 0u16]
}

/// Entry `i` of the index buffer for a run of quads: the corner number of
/// the canonical block, offset by four for each earlier quad, kept to the
/// 16-bit range of the index buffer.
pub open spec fn run_index(i: int) -> int {
    (4 * (i / 6) + quad_indices_spec()[i % 6] as int) % 65536
}

/// Corner positions of the unit quad.
pub fn base_quad_positions() -> (r: Vec<i8>)
    ensures
        r@ == quad_positions(),
{
    let r = vec![-1i8, -1, 0, 1, -1, 0, 1, 1, 0, -1, 1, 0];
    assert(r@ == quad_positions());
    r
}

/// Texture coordinates of the unit quad.
pub fn base_quad_uvs() -> (r: Vec<u8>)
    ensures
        r@ == quad_uvs(),
{
    let r = vec![0u8, 0, 1, 0, 1, 1, 0, 1];
    assert(r@ == quad_uvs());
    r
}

/// Triangle indices of the unit quad.
pub fn base_quad_indices() -> (r: Vec<u16>)
    ensures
        r@ == quad_indices_spec(),
{
    let r = vec![0u16, 1, 2, 2, 3, 0];
    assert(r@ == quad_indices_spec());
    r
}

/// Entry `6 * q + k` of a run's index buffer is corner `k` of the canonical
/// block, offset by four for each of the `q % 16384` quads before it.
proof fn lemma_run_index(q: int, k: int)
    requires
        0 <= q,
        0 <= k < 6,
    ensures
        run_index(6 * q + k) == 4 * (q % 16384) + quad_indices_spec()[k] as int,
        4 * (q % 16384) + (quad_indices_spec()[k] as int) < 65536,
{
    lemma_fundamental_div_mod_converse(6 * q + k, 6, q, k);
    lemma_fundamental_div_mod(q, 16384);
    let rem = 4 * (q % 16384) + quad_indices_spec()[k] as int;
    assert(quad_indices_spec()[k] <= 3);
    assert(4 * q + quad_indices_spec()[k] as int == (q / 16384) * 65536 + rem);
    lemma_fundamental_div_mod_converse(4 * q + quad_indices_spec()[k] as int, 65536, q / 16384, rem);
}

/// The index buffer for `count` quads drawn in one call: the canonical
/// triangle block once per quad, each copy offset by four times the quad's
/// position in the run. Index values are 16 bits wide, so offsets wrap past
/// the 16384th quad.
pub fn quad_run_indices(count: usize) -> (r: Vec<u16>)
    requires
        count <= usize::MAX / 6,
    ensures
        r@.len() == 6 * count,
        forall|i: int| 0 <= i < r@.len() ==> #[trigger] r@[i] as int == run_index(i),
        count <= 16384 ==> forall|i: int|
            0 <= i < r@.len() ==> #[trigger] r@[i] as int == 4 * (i / 6)
                + quad_indices_spec()[i % 6] as int,
{
    let block = base_quad_indices();
    let mut r: Vec<u16> = Vec::new();
    let mut quad: usize = 0;
    while quad < count
        invariant
            quad <= count,
            count <= usize::MAX / 6,
            block@ == quad_indices_spec(),
            r@.len() == 6 * quad,
            forall|i: int| 0 <= i < r@.len() ==> #[trigger] r@[i] as int == run_index(i),
        decreases count - quad,
    {
        let offset: u16 = ((quad % 16384) * 4) as u16;
        let mut k: usize = 0;
        while k < QUAD_INDEX_LEN
            invariant
                quad < count,
                count <= usize::MAX / 6,
                k <= 6,
                block@ == quad_indices_spec(),
                offset as int == 4 * (quad as int % 16384),
                r@.len() == 6 * quad + k,
                forall|i: int| 0 <= i < r@.len() ==> #[trigger] r@[i] as int == run_index(i),
            decreases 6 - k,
        {
            proof {
                lemma_run_index(quad as int, k as int);
            }
            r.push(block[k] + offset);
            k += 1;
        }
        quad += 1;
    }
    proof {
        if count <= 16384 {
            assert forall|i: int| 0 <= i < r@.len() implies #[trigger] r@[i] as int == 4 * (i / 6)
                + quad_indices_spec()[i % 6] as int by {
                lemma_fundamental_div_mod(i, 6);
                lemma_run_index(i / 6, i % 6);
                lemma_fundamental_div_mod_converse(i / 6, 16384, 0, i / 6);
            }
        }
    }
    r
}

/// `block` repeated `count` times, end to end: the per-quad attribute buffer
/// for a run of `count` quads that all share one canonical block.
pub fn repeat_block<T: Copy>(block: &Vec<T>, count: usize) -> (r: Vec<T>)
    requires
        block@.len() * count <= usize::MAX,
    ensures
        r@.len() == block@.len() * count,
        forall|i: int| 0 <= i < r@.len() ==> #[trigger] r@[i] == block@[i % block@.len() as int],
{
    let len = block.len();
    let mut r: Vec<T> = Vec::new();
    let mut n: usize = 0;
    while n < count
        invariant
            n <= count,
            len == block@.len(),
            len * count <= usize::MAX,
            r@.len() == len * n,
            forall|i: int| 0 <= i < r@.len() ==> #[trigger] r@[i] == block@[i % len as int],
        decreases count - n,
    {
        let mut j: usize = 0;
        while j < len
            invariant
                n < count,
                j <= len,
                len == block@.len(),
                len * count <= usize::MAX,
                r@.len() == len * n + j,
                forall|i: int| 0 <= i < r@.len() ==> #[trigger] r@[i] == block@[i % len as int],
            decreases len - j,
        {
            proof {
                assert(len * n == n * len) by (nonlinear_arith);
                lemma_fundamental_div_mod_converse(len * n + j, len as int, n as int, j as int);
            }
            r.push(block[j]);
            j += 1;
        }
        proof {
            assert(len * n + len == len * (n + 1)) by (nonlinear_arith);
        }
        n += 1;
    }
    r
}

} // verus!
