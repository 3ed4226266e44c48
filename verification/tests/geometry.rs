use rtt_planner::geom::{has_route, CircleArea, Point};

fn one_obstacle(x: i64, y: i64, radius: i64) -> Vec<CircleArea> {
    vec![CircleArea { center: Point { x, y }, radius }]
}

#[test]
fn sq_dist_three_four_five() {
    let a = Point { x: 0, y: 0 };
    let b = Point { x: 3, y: 4 };
    assert_eq!(a.sq_dist(&b), 25);
    assert_eq!(b.sq_dist(&a), 25);
}

#[test]
fn sq_dist_zero_for_same_point() {
    let a = Point { x: -7, y: 11 };
    assert_eq!(a.sq_dist(&a), 0);
}

#[test]
fn segment_through_obstacle_center_is_blocked() {
    let obstacles = one_obstacle(5, 5, 2);
    let src = Point { x: 0, y: 5 };
    let dst = Point { x: 10, y: 5 };
    assert!(!has_route(&src, &dst, &obstacles));
}

#[test]
fn segment_beside_obstacle_is_passable() {
    let obstacles = one_obstacle(5, 5, 2);
    let src = Point { x: 0, y: 0 };
    let dst = Point { x: 10, y: 0 };
    assert!(has_route(&src, &dst, &obstacles));
}

#[test]
fn distinct_points_without_obstacles_have_route() {
    let obstacles: Vec<CircleArea> = Vec::new();
    let src = Point { x: -3, y: 8 };
    let dst = Point { x: 14, y: -2 };
    assert!(has_route(&src, &dst, &obstacles));
    assert!(has_route(&dst, &src, &obstacles));
}

#[test]
fn degenerate_segment_has_no_route() {
    let obstacles: Vec<CircleArea> = Vec::new();
    let p = Point { x: 4, y: 4 };
    assert!(!has_route(&p, &p, &obstacles));
}

#[test]
fn closest_point_clamps_to_source_end() {
    // The obstacle sits behind the segment's source; the clamped closest
    // point is the source itself.
    let src = Point { x: 0, y: 0 };
    let dst = Point { x: 10, y: 0 };
    // Source is 3 away from the center, outside radius 2: passable.
    assert!(has_route(&src, &dst, &one_obstacle(-3, 0, 2)));
    // Source is 1 away from the center, inside radius 2: blocked.
    assert!(!has_route(&src, &dst, &one_obstacle(-1, 0, 2)));
}

#[test]
fn closest_point_clamps_to_destination_end() {
    let src = Point { x: 0, y: 0 };
    let dst = Point { x: 10, y: 0 };
    assert!(has_route(&src, &dst, &one_obstacle(13, 0, 2)));
    assert!(!has_route(&src, &dst, &one_obstacle(11, 0, 2)));
}

#[test]
fn first_blocking_obstacle_decides() {
    let obstacles = vec![
        CircleArea { center: Point { x: 2, y: 9 }, radius: 1 },
        CircleArea { center: Point { x: 5, y: 0 }, radius: 3 },
    ];
    let src = Point { x: 0, y: 0 };
    let dst = Point { x: 10, y: 0 };
    assert!(!has_route(&src, &dst, &obstacles));
}

#[test]
fn grazing_obstacle_rim_is_passable() {
    // The closest point lies exactly on the rim; blocking needs a strictly
    // smaller distance.
    let obstacles = one_obstacle(5, 2, 2);
    let src = Point { x: 0, y: 0 };
    let dst = Point { x: 10, y: 0 };
    assert!(has_route(&src, &dst, &obstacles));
}
