use tricopter_frame::body::TricopterBody;
use tricopter_frame::canopy::{chamfered, CANOPY_SWEEP};
use tricopter_frame::geometry::{Angle, Axis, CircleSize, Element, Node, OffsetKind, Point2, Point3};

fn pt(x: i64, y: i64) -> Point2 {
    Point2 { x, y }
}

fn poly(points: Vec<Point2>) -> Node {
    Node::leaf(Element::Polygon { points, path: vec![] })
}

fn at(x: i64, y: i64, z: i64, child: Node) -> Node {
    Node::wrap(Element::Translate(Point3 { x, y, z }), child)
}

fn at2(x: i64, y: i64, child: Node) -> Node {
    Node::wrap(Element::Translate2d(Point2 { x, y }), child)
}

fn turn(angle: i64, axis: Axis, child: Node) -> Node {
    Node::wrap(Element::Rotate(Angle::Fixed(angle), axis), child)
}

fn sweep(child: Node) -> Node {
    Node::wrap(Element::LinearExtrude { height: 5_000_000, center: true }, child)
}

fn grown(amount: i64, child: Node) -> Node {
    Node::wrap(Element::Offset(OffsetKind::Delta(amount), true), child)
}

fn cyl(height: i64, size: CircleSize) -> Node {
    Node::leaf(Element::Cylinder(height, size))
}

#[test]
fn chamfered_moves_an_outline_and_cuts_its_corners() {
    assert_eq!(CANOPY_SWEEP, 5_000_000);
    assert_eq!(chamfered(-30_000, poly(vec![])), grown(-30_000, poly(vec![])));
}

#[test]
fn canopy_side_silhouette() {
    let body = TricopterBody::new();
    assert_eq!(
        body.get_canopy_xz_outline(10_000),
        poly(vec![
            pt(-600_000, 10_000),
            pt(-600_000, 210_000),
            pt(-500_000, 310_000),
            pt(200_000, 310_000),
            pt(800_000, 70_000),
            pt(800_000, 10_000),
        ])
    );
}

#[test]
fn canopy_front_silhouette_is_a_triangle() {
    let body = TricopterBody::new();
    assert_eq!(
        body.get_canopy_yz_outline(-30_000),
        poly(vec![pt(528_750, -30_000), pt(-528_750, -30_000), pt(0, 528_750)])
    );
}

#[test]
fn canopy_intersection() {
    let body = TricopterBody::new();
    let shell = body.get_canopy_outside(10_000);
    assert_eq!(shell.element, Element::Intersection);
    assert_eq!(shell.children.len(), 4);
    let sweep_xy = sweep(grown(10_000, body.get_mid_section_outline()));
    let sweep_xz = turn(90_000, Axis::X, sweep(grown(10_000, body.get_canopy_xz_outline(10_000))));
    let sweep_yz = turn(
        90_000,
        Axis::Z,
        turn(90_000, Axis::X, sweep(grown(10_000, body.get_canopy_yz_outline(10_000)))),
    );
    assert_eq!(shell.children[0], sweep_xy);
    assert_eq!(shell.children[1], sweep_xz);
    assert_eq!(shell.children[2], sweep_yz);
}

#[test]
fn every_silhouette_of_the_canopy_gets_the_same_clearance() {
    let body = TricopterBody::new();
    for clearance in [10_000, -30_000, 0] {
        let shell = body.get_canopy_outside(clearance);
        let mut seen = 0;
        let mut stack: Vec<&Node> = vec![&shell];
        while let Some(node) = stack.pop() {
            if let Element::Offset(kind, chamfer) = node.element {
                assert_eq!(kind, OffsetKind::Delta(clearance));
                assert!(chamfer);
                seen += 1;
            }
            for child in &node.children {
                stack.push(child);
            }
        }
        assert_eq!(seen, 5);
    }
}

#[test]
fn canopy_front_roundoff_leans_two_sweeps_back() {
    let body = TricopterBody::new();
    let shell = body.get_canopy_outside(10_000);
    let outline = poly(vec![
        pt(2_000_000, 230_000),
        pt(-500_000, 330_000),
        pt(-600_000, 130_000),
        pt(-600_000, -130_000),
        pt(-500_000, -330_000),
        pt(2_000_000, -230_000),
    ]);
    let swept = sweep(grown(10_000, outline));
    assert_eq!(
        shell.children[3],
        Node::with2(
            Element::Intersection,
            at(0, 0, 70_000, turn(30_000, Axis::Y, swept.clone())),
            at(0, 0, -90_000, turn(60_000, Axis::Y, swept)),
        )
    );
}

#[test]
fn canopy_edge_is_swept_from_below_the_plane() {
    let body = TricopterBody::new();
    let outline = poly(vec![pt(0, 0), pt(1, 0), pt(0, 1)]);
    assert_eq!(
        body.extrude_canopy_edge(outline.clone(), 30_000),
        at(
            0,
            0,
            -30_000,
            Node::wrap(Element::LinearExtrude { height: 60_000, center: false }, outline.clone())
        )
    );
    assert_eq!(
        body.extrude_canopy_edge(outline.clone(), 0),
        at(0, 0, -30_000, Node::wrap(Element::LinearExtrude { height: 30_000, center: false }, outline))
    );
}

#[test]
fn canopy_edge_cutout_is_an_inward_offset_of_the_mid_section() {
    let body = TricopterBody::new();
    assert_eq!(
        body.canopy_edge_cutout(),
        Node::wrap(Element::Offset(OffsetKind::Delta(-12_500), false), body.get_mid_section_outline())
    );
}

#[test]
fn canopy_screw_tabs_hang_below_the_plane() {
    let body = TricopterBody::new();
    let tall = Element::LinearExtrude { height: 70_000, center: false };
    assert_eq!(
        body.get_canopy_screw_tabs(70_000),
        Node::with2(
            Element::Translate(Point3 { x: 0, y: 0, z: -30_000 }),
            Node::wrap(tall.clone(), body.get_front_screw_tab_outline()),
            Node::wrap(tall, body.get_back_screw_tab_outline()),
        )
    );
}

#[test]
fn canopy_screwholes_have_shafts_and_room_for_heads() {
    let body = TricopterBody::new();
    let shaft = CircleSize::Diameter(35_000);
    let head = CircleSize::Diameter(65_000);
    assert_eq!(
        body.get_canopy_screwholes(70_000),
        Node::with2(
            Element::Union,
            at(
                0,
                0,
                -30_000,
                Node::with2(
                    Element::LinearExtrude { height: 70_000, center: false },
                    body.get_front_screwholes(shaft),
                    body.circle_at_back_screwholes(shaft),
                )
            ),
            at(
                0,
                0,
                40_000,
                Node::with2(
                    Element::LinearExtrude { height: 310_000, center: false },
                    body.get_front_screwholes(head),
                    body.circle_at_back_screwholes(head),
                )
            ),
        )
    );
}

#[test]
fn front_fillet_is_what_rounding_leaves_of_the_front_corners() {
    let body = TricopterBody::new();
    let main_square =
        at2(0, -250_000, Node::leaf(Element::Square(Point2 { x: 800_000, y: 500_000 })));
    let rounded = Node::wrap(
        Element::Offset(OffsetKind::Radius(20_000), false),
        Node::wrap(Element::Offset(OffsetKind::Delta(-20_000), false), main_square.clone()),
    );
    let corners = Node::with2(Element::Difference, main_square.clone(), rounded);
    let cutoff = at2(
        400_000,
        0,
        at2(0, -250_000, Node::leaf(Element::Square(Point2 { x: 400_000, y: 500_000 }))),
    );
    assert_eq!(
        body.get_front_fillet(310_000),
        Node::wrap(
            Element::LinearExtrude { height: 620_000, center: true },
            at2(
                -600_000,
                0,
                Node::with2(
                    Element::Difference,
                    Node::with2(Element::Intersection, main_square, corners),
                    cutoff
                )
            )
        )
    );
}

#[test]
fn vtx_connector_hole_is_square_to_the_back_wall() {
    let body = TricopterBody::new();
    let cutout = Node::with2(
        Element::Union,
        at(0, 0, -55_000, cyl(55_000, CircleSize::Diameter(80_000))),
        cyl(125_000, CircleSize::Diameter(60_000)),
    );
    let along = at(-133_333, 0, 0, at(0, 0, -25_000, cutout));
    assert_eq!(
        body.get_vtx_connector_hole(),
        at(
            800_000,
            -165_000,
            155_000,
            Node::wrap(
                Element::Rotate(Angle::Slope { rise: 85_000, run: 800_000 }, Axis::Z),
                turn(90_000, Axis::X, along)
            )
        )
    );
}

#[test]
fn canopy_is_a_shell_with_its_openings_cut_out_clipped_to_the_envelope() {
    let body = TricopterBody::new();
    let lip = Node::wrap(Element::Offset(OffsetKind::Radius(10_000), false), body.get_mid_section_outline());
    assert_eq!(
        body.get_canopy(),
        Node::with2(
            Element::Intersection,
            Node::with5(
                Element::Difference,
                Node::with3(
                    Element::Union,
                    body.get_canopy_outside(10_000),
                    body.get_canopy_screw_tabs(70_000),
                    body.extrude_canopy_edge(lip, 30_000),
                ),
                body.get_canopy_outside(-30_000),
                body.get_camera_lens_hole(30_000),
                body.extrude_canopy_edge(body.canopy_edge_cutout(), 0),
                body.get_canopy_screwholes(70_000),
            ),
            body.get_side_bounds(),
        )
    );
}
