use quad_renderer::geometry::{
    is_ccw_triangle_list, signed_area2, square_corners, square_indices, Corner,
};

fn c(x: i32, y: i32) -> Corner {
    Corner { x, y, u: 0, v: 0 }
}

#[test]
fn square_is_two_ccw_triangles() {
    let corners = square_corners();
    let indices = square_indices();
    assert_eq!(corners.len(), 4);
    assert_eq!(indices, vec![0, 1, 2, 0, 2, 3]);
    assert!(is_ccw_triangle_list(&corners, &indices));
    let t1 = signed_area2(corners[0], corners[1], corners[2]);
    let t2 = signed_area2(corners[0], corners[2], corners[3]);
    assert_eq!(t1, 4);
    assert_eq!(t2, 4);
    // the quad is two half-units wide and high: twice its area is 8
    assert_eq!(t1 + t2, 8);
}

#[test]
fn square_corners_and_texture_coordinates() {
    let corners = square_corners();
    assert_eq!(corners[0], Corner { x: 1, y: 1, u: 1, v: 0 });
    assert_eq!(corners[1], Corner { x: -1, y: 1, u: 0, v: 0 });
    assert_eq!(corners[2], Corner { x: -1, y: -1, u: 0, v: 1 });
    assert_eq!(corners[3], Corner { x: 1, y: -1, u: 1, v: 1 });
}

#[test]
fn signed_area_signs() {
    assert_eq!(signed_area2(c(0, 0), c(2, 0), c(0, 3)), 6);
    assert_eq!(signed_area2(c(0, 0), c(0, 3), c(2, 0)), -6);
    assert_eq!(signed_area2(c(0, 0), c(1, 1), c(2, 2)), 0);
    let big = signed_area2(c(i32::MIN, i32::MIN), c(i32::MAX, i32::MIN), c(i32::MIN, i32::MAX));
    assert_eq!(big, (u32::MAX as i128) * (u32::MAX as i128));
}

#[test]
fn clockwise_or_broken_lists_are_refused() {
    let corners = square_corners();
    assert!(!is_ccw_triangle_list(&corners, &vec![0, 2, 1]));
    assert!(!is_ccw_triangle_list(&corners, &vec![0, 1, 4]));
    assert!(!is_ccw_triangle_list(&corners, &vec![0, 1, 2, 0]));
    assert!(is_ccw_triangle_list(&corners, &vec![]));
}
