use aabb::mesh::{
    append_raised_indices, push_circle_indices, push_rectangle_indices, DEFAULT_CIRCLE_SEGMENTS,
    RECTANGLE_VERTICES,
};

#[test]
fn rectangle_is_two_triangles_round_its_corners() {
    let mut indices: Vec<u32> = Vec::new();
    push_rectangle_indices(&mut indices, 0);
    assert_eq!(indices, vec![0, 1, 2, 2, 3, 0]);
    push_rectangle_indices(&mut indices, RECTANGLE_VERTICES);
    assert_eq!(indices, vec![0, 1, 2, 2, 3, 0, 4, 5, 6, 6, 7, 4]);
}

#[test]
fn rectangle_indices_reach_the_last_vertex() {
    let mut indices: Vec<u32> = vec![9];
    push_rectangle_indices(&mut indices, u32::MAX - 3);
    assert_eq!(
        indices,
        vec![9, u32::MAX - 3, u32::MAX - 2, u32::MAX - 1, u32::MAX - 1, u32::MAX, u32::MAX - 3]
    );
}

#[test]
fn circle_fan_closes_on_the_first_rim_vertex() {
    let mut indices: Vec<u32> = vec![7];
    push_circle_indices(&mut indices, 10, 4);
    assert_eq!(indices, vec![7, 10, 11, 12, 10, 12, 13, 10, 13, 14, 10, 14, 11]);
}

#[test]
fn circle_of_one_segment_is_one_flat_triangle() {
    let mut indices: Vec<u32> = Vec::new();
    push_circle_indices(&mut indices, 5, 1);
    assert_eq!(indices, vec![5, 6, 6]);
}

#[test]
fn circle_of_no_segments_adds_nothing() {
    let mut indices: Vec<u32> = vec![1, 2, 3];
    push_circle_indices(&mut indices, 5, 0);
    assert_eq!(indices, vec![1, 2, 3]);
}

#[test]
fn default_circle_has_sixteen_triangles() {
    let mut indices: Vec<u32> = Vec::new();
    push_circle_indices(&mut indices, 0, DEFAULT_CIRCLE_SEGMENTS);
    assert_eq!(indices.len(), 48);
    assert_eq!(&indices[45..], &[0, 16, 1]);
}

#[test]
fn circle_fan_reaches_the_last_vertex() {
    let mut indices: Vec<u32> = Vec::new();
    push_circle_indices(&mut indices, u32::MAX - 2, 2);
    assert_eq!(
        indices,
        vec![u32::MAX - 2, u32::MAX - 1, u32::MAX, u32::MAX - 2, u32::MAX, u32::MAX - 1]
    );
}

#[test]
fn appended_indices_are_raised_by_the_vertex_count() {
    let mut indices: Vec<u32> = vec![0, 1, 2];
    append_raised_indices(&mut indices, &vec![0, 1, 2, 2, 3, 0], 3);
    assert_eq!(indices, vec![0, 1, 2, 3, 4, 5, 5, 6, 3]);
    append_raised_indices(&mut indices, &Vec::new(), 100);
    assert_eq!(indices, vec![0, 1, 2, 3, 4, 5, 5, 6, 3]);
}
