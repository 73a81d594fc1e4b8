use floatwin::fan::polygon_to_triangle_points;

#[test]
fn fan_of_a_pentagon() {
    let t = polygon_to_triangle_points(&vec![1, 2, 3, 4, 5]);
    assert_eq!(t, vec![[1, 2, 3], [1, 3, 4], [1, 4, 5]]);
}

#[test]
fn fan_of_too_few_points_is_empty() {
    assert!(polygon_to_triangle_points(&vec![1, 2]).is_empty());
    assert!(polygon_to_triangle_points::<i32>(&vec![]).is_empty());
}
