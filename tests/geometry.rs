use sprite_renderer::geometry::{
    base_quad_indices, base_quad_positions, base_quad_uvs, quad_run_indices, repeat_block,
    QUAD_INDEX_LEN, QUAD_POSITION_LEN, QUAD_UV_LEN,
};

#[test]
fn canonical_quad() {
    assert_eq!(base_quad_positions(), vec![-1, -1, 0, 1, -1, 0, 1, 1, 0, -1, 1, 0]);
    assert_eq!(base_quad_uvs(), vec![0, 0, 1, 0, 1, 1, 0, 1]);
    assert_eq!(base_quad_indices(), vec![0, 1, 2, 2, 3, 0]);
    assert_eq!(base_quad_positions().len(), QUAD_POSITION_LEN);
    assert_eq!(base_quad_uvs().len(), QUAD_UV_LEN);
    assert_eq!(base_quad_indices().len(), QUAD_INDEX_LEN);
}

#[test]
fn run_indices_offset_each_quad() {
    assert!(quad_run_indices(0).is_empty());
    assert_eq!(quad_run_indices(1), vec![0, 1, 2, 2, 3, 0]);
    assert_eq!(
        quad_run_indices(3),
        vec![0, 1, 2, 2, 3, 0, 4, 5, 6, 6, 7, 4, 8, 9, 10, 10, 11, 8]
    );
}

#[test]
fn run_indices_wrap_at_sixteen_bits() {
    let indices = quad_run_indices(16385);
    assert_eq!(&indices[6 * 16383..6 * 16384], &[65532, 65533, 65534, 65534, 65535, 65532]);
    assert_eq!(&indices[6 * 16384..], &[0, 1, 2, 2, 3, 0]);
}

#[test]
fn repeated_uv_blocks() {
    let uvs: Vec<f32> = base_quad_uvs().iter().map(|&c| c as f32).collect();
    let run = repeat_block(&uvs, 3);
    assert_eq!(run.len(), 24);
    assert_eq!(&run[16..], &uvs[..]);
    assert_eq!(&run[8..16], &uvs[..]);
    assert!(repeat_block(&uvs, 0).is_empty());
    let empty: Vec<u8> = Vec::new();
    assert!(repeat_block(&empty, 5).is_empty());
}
