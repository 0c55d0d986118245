use tricopter_frame::geometry::{
    centered_cube, centered_square, circle, cylinder, extruded, moved, moved2d, offset, polygon,
    polygon_with_path, turned, Angle, Axis, CircleSize, Element, Node, OffsetKind, Point2, Point3,
};
use tricopter_frame::units::{is_in_range, scale, LIMIT, MM, WHOLE};

fn cube(x: i64, y: i64, z: i64) -> Node {
    Node::leaf(Element::Cube(Point3 { x, y, z }))
}

#[test]
fn one_millimetre_is_ten_thousand_units() {
    assert_eq!(MM, 10_000);
    assert_eq!(WHOLE, 1_000);
    assert_eq!(LIMIT, 10_000 * MM);
}

#[test]
fn range_check_is_closed_at_both_ends() {
    assert!(is_in_range(0));
    assert!(is_in_range(LIMIT));
    assert!(is_in_range(-LIMIT));
    assert!(!is_in_range(LIMIT + 1));
    assert!(!is_in_range(-LIMIT - 1));
}

#[test]
fn scale_multiplies_by_thousandths() {
    assert_eq!(scale(80_000, 500), 40_000);
    assert_eq!(scale(17_000, 500), 8_500);
    assert_eq!(scale(80_000, 0), 0);
    assert_eq!(scale(80_000, 1_000), 80_000);
}

#[test]
fn scale_rounds_toward_zero() {
    assert_eq!(scale(3, 500), 1);
    assert_eq!(scale(-3, 500), -1);
    assert_eq!(scale(3, -500), -1);
    assert_eq!(scale(1, 999), 0);
    assert_eq!(scale(-1, 999), 0);
}

#[test]
fn leaf_has_no_children() {
    let n = cube(1, 2, 3);
    assert!(n.children.is_empty());
    assert_eq!(n.element, Element::Cube(Point3 { x: 1, y: 2, z: 3 }));
}

#[test]
fn wrap_has_one_child() {
    let n = Node::wrap(Element::Union, cube(1, 2, 3));
    assert_eq!(n.element, Element::Union);
    assert_eq!(n.children, vec![cube(1, 2, 3)]);
}

#[test]
fn fixed_arity_constructors_keep_the_order() {
    let n = Node::with3(Element::Difference, cube(1, 1, 1), cube(2, 2, 2), cube(3, 3, 3));
    assert_eq!(n.children, vec![cube(1, 1, 1), cube(2, 2, 2), cube(3, 3, 3)]);
    assert_eq!(
        Node::with2(Element::Hull, cube(1, 1, 1), cube(2, 2, 2)).children,
        vec![cube(1, 1, 1), cube(2, 2, 2)]
    );
    assert_eq!(
        Node::with4(Element::Hull, cube(1, 1, 1), cube(2, 2, 2), cube(3, 3, 3), cube(4, 4, 4))
            .children,
        vec![cube(1, 1, 1), cube(2, 2, 2), cube(3, 3, 3), cube(4, 4, 4)]
    );
    assert_eq!(
        Node::with5(
            Element::Hull,
            cube(1, 1, 1),
            cube(2, 2, 2),
            cube(3, 3, 3),
            cube(4, 4, 4),
            cube(5, 5, 5)
        )
        .children,
        vec![cube(1, 1, 1), cube(2, 2, 2), cube(3, 3, 3), cube(4, 4, 4), cube(5, 5, 5)]
    );
    let m = Node::with6(
        Element::Union,
        cube(1, 0, 0),
        cube(2, 0, 0),
        cube(3, 0, 0),
        cube(4, 0, 0),
        cube(5, 0, 0),
        cube(6, 0, 0),
    );
    assert_eq!(m.children.len(), 6);
    for (i, child) in m.children.iter().enumerate() {
        assert_eq!(*child, cube(i as i64 + 1, 0, 0));
    }
}

#[test]
fn with_child_appends_at_the_end() {
    let n = Node::with2(Element::Union, cube(1, 1, 1), cube(2, 2, 2)).with_child(cube(3, 3, 3));
    assert_eq!(n.element, Element::Union);
    assert_eq!(n.children, vec![cube(1, 1, 1), cube(2, 2, 2), cube(3, 3, 3)]);
}

#[test]
fn new_takes_any_number_of_children() {
    let n = Node::new(Element::Hull, vec![]);
    assert_eq!(n, Node::leaf(Element::Hull));
    let m = Node::new(Element::Hull, vec![cube(1, 1, 1), cube(2, 2, 2)]);
    assert_eq!(m, Node::with2(Element::Hull, cube(1, 1, 1), cube(2, 2, 2)));
}

#[test]
fn duplicate_copies_the_whole_tree() {
    let tree = Node::with2(
        Element::Difference,
        moved(1, 2, 3, polygon(vec![Point2 { x: 0, y: 0 }, Point2 { x: 5, y: 0 }, Point2 { x: 0, y: 5 }])),
        turned(90_000, Axis::X, cylinder(10, CircleSize::Radius(4))),
    );
    let copy = tree.duplicate();
    assert_eq!(copy, tree);
    assert_eq!(tree.clone(), tree);
}

#[test]
fn duplicate_of_a_changed_copy_leaves_the_first_alone() {
    let tree = Node::wrap(Element::Union, cube(1, 1, 1));
    let mut copy = tree.duplicate();
    copy.children.push(cube(2, 2, 2));
    assert_eq!(tree.children.len(), 1);
    assert_eq!(copy.children.len(), 2);
}

#[test]
fn centered_cube_centres_the_chosen_axes() {
    let n = centered_cube(Point3 { x: 1_000, y: 2_000, z: 4_000 }, (false, true, true));
    assert_eq!(
        n,
        Node::wrap(Element::Translate(Point3 { x: 0, y: -1_000, z: -2_000 }), cube(1_000, 2_000, 4_000))
    );
    let m = centered_cube(Point3 { x: 1_000, y: 1_000, z: 1_000 }, (true, false, false));
    assert_eq!(
        m,
        Node::wrap(Element::Translate(Point3 { x: -500, y: 0, z: 0 }), cube(1_000, 1_000, 1_000))
    );
}

#[test]
fn centered_cube_rounds_half_sizes_toward_zero() {
    let n = centered_cube(Point3 { x: 3, y: -3, z: 1 }, (true, true, true));
    assert_eq!(n.element, Element::Translate(Point3 { x: -1, y: 1, z: 0 }));
}

#[test]
fn centered_cube_takes_the_largest_sizes() {
    let n = centered_cube(Point3 { x: i64::MAX, y: i64::MIN, z: 0 }, (true, true, true));
    assert_eq!(
        n.element,
        Element::Translate(Point3 { x: -(i64::MAX / 2), y: -(i64::MIN / 2), z: 0 })
    );
}

#[test]
fn centered_square_centres_the_chosen_axes() {
    let n = centered_square(Point2 { x: 2_000, y: 4_000 }, (true, true));
    assert_eq!(
        n,
        Node::wrap(
            Element::Translate2d(Point2 { x: -1_000, y: -2_000 }),
            Node::leaf(Element::Square(Point2 { x: 2_000, y: 4_000 }))
        )
    );
    let m = centered_square(Point2 { x: 2_000, y: 4_000 }, (false, true));
    assert_eq!(m.element, Element::Translate2d(Point2 { x: 0, y: -2_000 }));
}

#[test]
fn shorthand_constructors_build_single_nodes() {
    assert_eq!(
        cylinder(10, CircleSize::Diameter(3)),
        Node::leaf(Element::Cylinder(10, CircleSize::Diameter(3)))
    );
    assert_eq!(circle(CircleSize::Radius(3)), Node::leaf(Element::Circle(CircleSize::Radius(3))));
    assert_eq!(
        moved(1, 2, 3, cube(1, 1, 1)),
        Node::wrap(Element::Translate(Point3 { x: 1, y: 2, z: 3 }), cube(1, 1, 1))
    );
    assert_eq!(
        moved2d(1, 2, circle(CircleSize::Radius(3))),
        Node::wrap(Element::Translate2d(Point2 { x: 1, y: 2 }), circle(CircleSize::Radius(3)))
    );
    assert_eq!(
        turned(-90_000, Axis::Y, cube(1, 1, 1)),
        Node::wrap(Element::Rotate(Angle::Fixed(-90_000), Axis::Y), cube(1, 1, 1))
    );
    assert_eq!(
        extruded(5, circle(CircleSize::Radius(3))),
        Node::wrap(
            Element::LinearExtrude { height: 5, center: false },
            circle(CircleSize::Radius(3))
        )
    );
    assert_eq!(
        offset(OffsetKind::Delta(-2), circle(CircleSize::Radius(3))),
        Node::wrap(Element::Offset(OffsetKind::Delta(-2), false), circle(CircleSize::Radius(3)))
    );
}

#[test]
fn polygon_keeps_points_and_path() {
    let points = vec![Point2 { x: 0, y: 0 }, Point2 { x: 1, y: 0 }, Point2 { x: 0, y: 1 }];
    assert_eq!(
        polygon(points.clone()),
        Node::leaf(Element::Polygon { points: points.clone(), path: vec![] })
    );
    assert_eq!(
        polygon_with_path(points.clone(), vec![0, 2, 1]),
        Node::leaf(Element::Polygon { points, path: vec![0, 2, 1] })
    );
}
