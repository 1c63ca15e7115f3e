use equilibrium::body::{
    hue_among, Body, Circle, Cross, GameShape, PolygonBody, RightIsoscelesTriangle, Square, Triangle,
    COUNT, I, J, L,
};

#[test]
fn shapes_have_names_places_and_hues() {
    assert_eq!(Circle {}.name(), "Circle");
    assert_eq!(Cross {}.name(), "Cross");
    assert_eq!(I {}.name(), "I Shape");
    assert_eq!(J {}.name(), "J Shape");
    assert_eq!(L {}.name(), "L Shape");
    assert_eq!(Square {}.name(), "Square");
    assert_eq!(Triangle {}.name(), "Triangle");
    assert_eq!(RightIsoscelesTriangle {}.name(), "Triangle");
    assert_eq!(COUNT, 7);
    let all = GameShape::all();
    assert_eq!(all.len(), COUNT);
    let names: Vec<&str> = all.iter().map(|s| s.name()).collect();
    assert_eq!(names, vec!["Circle", "Cross", "I Shape", "L Shape", "J Shape", "Square", "Triangle"]);
    let places: Vec<usize> = all.iter().map(|s| s.index()).collect();
    assert_eq!(places, vec![0, 1, 3, 2, 4, 5, 6]);
    let hues: Vec<usize> = all.iter().map(|s| s.hue()).collect();
    assert_eq!(hues, vec![0, 51, 154, 102, 205, 257, 308]);
}

#[test]
fn polygon_sides_close_the_polygon() {
    static CORNERS: [(isize, isize); 3] = [(-1, -1), (-1, 2), (2, -1)];
    let triangle: PolygonBody<4, 3> = PolygonBody(&CORNERS);
    assert_eq!(triangle.sides(), vec![(0, 1), (1, 2), (2, 0)]);
    assert_eq!(triangle.corner(1), (-1, 2));
    static ONE: [(isize, isize); 1] = [(0, 0)];
    let point: PolygonBody<1, 1> = PolygonBody(&ONE);
    assert_eq!(point.sides(), vec![(0, 0)]);
    static NONE: [(isize, isize); 0] = [];
    let nothing: PolygonBody<0, 0> = PolygonBody(&NONE);
    assert_eq!(nothing.sides(), vec![]);
}

#[test]
fn hues_go_one_and_a_half_times_round_the_wheel() {
    assert_eq!(hue_among(0, 21), 0);
    assert_eq!(hue_among(1, 21), 25);
    assert_eq!(hue_among(13, 21), 334);
    assert_eq!(hue_among(14, 21), 0);
    assert_eq!(hue_among(20, 21), 154);
    assert_eq!(hue_among(usize::MAX, 1), ((usize::MAX as u128 * 540) % 360) as usize);
}
