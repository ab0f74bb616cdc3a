use raytracer::triangle_indices;

#[test]
fn triangles_from_index_list() {
    let idx = vec![0u32, 1, 2, 2, 3, 0];
    assert_eq!(triangle_indices(&idx), vec![(0, 1, 2), (2, 3, 0)]);
}

#[test]
fn trailing_partial_triangle_is_dropped() {
    let idx = vec![5u32, 6, 7, 8, 9];
    assert_eq!(triangle_indices(&idx), vec![(5, 6, 7)]);
}

#[test]
fn empty_index_list() {
    assert!(triangle_indices(&Vec::new()).is_empty());
    assert!(triangle_indices(&vec![1u32, 2]).is_empty());
}

#[test]
fn large_vertex_indices() {
    let idx = vec![u32::MAX, 0, 70_000];
    assert_eq!(triangle_indices(&idx), vec![(u32::MAX as usize, 0, 70_000)]);
}
