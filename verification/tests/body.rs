use tricopter_frame::body::{
    get_body_section, TricopterBody, ARM_SPACING, ENVELOPE_HEIGHT, ENVELOPE_LENGTH, ENVELOPE_WIDTH,
    SCREW_DIAMETER,
};
use tricopter_frame::geometry::{Angle, Axis, Element, Node, OffsetKind, Point2, Point3};
use tricopter_frame::placement::{placements_of, Placement};
use tricopter_frame::walls::wall;

fn pt(x: i64, y: i64) -> Point2 {
    Point2 { x, y }
}

fn poly(points: Vec<Point2>) -> Node {
    Node::leaf(Element::Polygon { points, path: vec![] })
}

fn polygon_points(node: &Node) -> Vec<Point2> {
    match &node.element {
        Element::Polygon { points, .. } => points.clone(),
        _ => panic!("not a polygon"),
    }
}

#[test]
fn default_body_dimensions() {
    let body = TricopterBody::new();
    assert_eq!(body.radius, 800_000);
    assert_eq!(body.top_height, 50_000);
    assert_eq!(body.height, 40_000);
    assert_eq!(body.outer_width, 230_000);
    assert_eq!(body.back_outer_width, 330_000);
    assert_eq!(body.inner_width, 500_000);
    assert_eq!(body.center_width, 560_000);
    assert_eq!(body.back_block_length_factor, 500);
    assert_eq!(body.arm_width, 100_000);
    assert_eq!(body.front_block_x, 300_000);
    assert_eq!(body.front_section_length, 600_000);
    assert_eq!(body.front_section_corner_radius, 20_000);
    assert_eq!(body.canopy_thickness, 30_000);
    assert_eq!(body.edge_padding, 2_500);
    assert_eq!(body.edge_height, 30_000);
    assert_eq!(body.camera_box_length, 200_000);
    assert_eq!(body.camera_box_edge_width, 10_000);
    assert_eq!(body.camera_box_edge_padding, 5_000);
    assert_eq!(body.motor_wire_hole_radius, 40_000);
    assert_eq!(body.camera_offset_from_top, 100_000);
    assert_eq!(body.mounting_screw_outline_radius, 30_000);
    assert_eq!(body.canopy_max_height, 310_000);
    assert_eq!(body.screw_mount_height, 70_000);
    assert_eq!(body.screwhead_diameter, 65_000);
    assert_eq!(body.side_plate_arc_width, 360_000);
    assert_eq!(body.side_plate_arc_height, 190_000);
    assert_eq!(body.side_plate_thickness, 20_000);
    assert_eq!(body.side_plate_mount_length, 150_000);
    assert_eq!(body.side_plate_front_screw_top_offset, 70_000);
}

#[test]
fn derived_defaults_follow_the_dimensions_they_derive_from() {
    let body = TricopterBody::new();
    assert_eq!(body.front_section_width, body.inner_width);
    assert_eq!(body.edge_thickness, body.canopy_thickness / 2);
    assert_eq!(body.edge_thickness, 15_000);
    assert_eq!(body.canopy_bottom_min_height, body.screw_mount_height);
}

#[test]
fn shared_constants() {
    assert_eq!(SCREW_DIAMETER, 35_000);
    assert_eq!(ARM_SPACING, 120_000);
    assert_eq!(ENVELOPE_WIDTH, 1_400_000);
}

#[test]
fn body_section_is_a_quadrilateral_from_hub_to_tip() {
    assert_eq!(
        get_body_section(500_000, 230_000, 800_000),
        poly(vec![pt(0, -250_000), pt(0, 250_000), pt(800_000, 115_000), pt(800_000, -115_000)])
    );
}

#[test]
fn body_section_rounds_half_widths_toward_zero() {
    assert_eq!(
        get_body_section(5, -5, 7),
        poly(vec![pt(0, -2), pt(0, 2), pt(7, -2), pt(7, 2)])
    );
}

#[test]
fn body_arm_fan() {
    let mut body = TricopterBody::new();
    body.inner_width = 500_000;
    body.back_outer_width = 330_000;
    body.outer_width = 230_000;
    body.radius = 800_000;
    let shape = body.get_body_shape();
    assert_eq!(shape.element, Element::Union);
    assert_eq!(shape.children.len(), 3);

    let mut rotations: Vec<i64> = Vec::new();
    for segment in &shape.children {
        let (rotation, outline) = match &segment.element {
            Element::Rotate(Angle::Fixed(angle), Axis::Z) => {
                assert_eq!(segment.children.len(), 1);
                (*angle, &segment.children[0])
            }
            _ => (0, segment),
        };
        assert_eq!(polygon_points(outline).len(), 4);
        rotations.push(rotation);
    }
    rotations.sort();
    assert_eq!(rotations, vec![0, 120_000, 240_000]);
}

#[test]
fn body_shape_puts_the_back_arm_last_and_unturned() {
    let body = TricopterBody::new();
    let side = poly(vec![pt(0, -250_000), pt(0, 250_000), pt(800_000, 115_000), pt(800_000, -115_000)]);
    let back = poly(vec![pt(0, -250_000), pt(0, 250_000), pt(800_000, 165_000), pt(800_000, -165_000)]);
    assert_eq!(
        body.get_body_shape(),
        Node::with3(
            Element::Union,
            Node::wrap(Element::Rotate(Angle::Fixed(120_000), Axis::Z), side.clone()),
            Node::wrap(Element::Rotate(Angle::Fixed(240_000), Axis::Z), side),
            back,
        )
    );
}

#[test]
fn all_arms_are_equally_wide_at_the_hub() {
    let mut body = TricopterBody::new();
    body.inner_width = 440_000;
    let shape = body.get_body_shape();
    for segment in &shape.children {
        let outline = match &segment.element {
            Element::Rotate(..) => &segment.children[0],
            _ => segment,
        };
        let points = polygon_points(outline);
        assert_eq!(points[0], pt(0, -220_000));
        assert_eq!(points[1], pt(0, 220_000));
    }
}

#[test]
fn bottom_total_height_is_plate_plus_arm() {
    assert_eq!(TricopterBody::new().get_bottom_total_height(), 140_000);
}

#[test]
fn back_mount_block_is_a_half_and_its_mirror_image() {
    let body = TricopterBody::new();
    let half = poly(vec![
        pt(400_000, 51_250),
        pt(400_000, 207_500),
        pt(800_000, 165_000),
        pt(800_000, 51_250),
    ]);
    assert_eq!(
        body.get_back_mount_block(),
        Node::with2(Element::Union, half.clone(), Node::wrap(Element::Mirror(Axis::Y), half))
    );
}

#[test]
fn back_mount_block_extends_equally_to_both_sides() {
    let body = TricopterBody::new();
    let block = body.get_back_mount_block();
    assert_eq!(placements_of(&block), vec![Placement::Keep, Placement::Flip(Axis::Y)]);
    let kept = polygon_points(&block.children[0]);
    let mirrored: Vec<Point2> =
        polygon_points(&block.children[1].children[0]).iter().map(|p| pt(p.x, -p.y)).collect();
    let highest = kept.iter().chain(mirrored.iter()).map(|p| p.y).max().unwrap();
    let lowest = kept.iter().chain(mirrored.iter()).map(|p| p.y).min().unwrap();
    assert_eq!(highest, 207_500);
    assert_eq!(lowest, -207_500);
    assert_eq!(highest + lowest, 0);
}

#[test]
fn back_mount_block_follows_the_length_factor() {
    let mut body = TricopterBody::new();
    body.back_block_length_factor = 250;
    let block = body.get_back_mount_block();
    let half = polygon_points(&block.children[0]);
    assert_eq!(half[0], pt(200_000, 51_250));
    assert_eq!(half[1], pt(200_000, (330_000 + 42_500) / 2));
}

#[test]
fn front_section_is_a_rounded_rectangle() {
    let body = TricopterBody::new();
    assert_eq!(
        body.get_front_section(),
        Node::wrap(
            Element::Offset(OffsetKind::Radius(20_000), false),
            poly(vec![pt(0, 230_000), pt(0, -230_000), pt(-580_000, -230_000), pt(-580_000, 230_000)])
        )
    );
}

#[test]
fn mid_section_outline_runs_around_six_points() {
    let body = TricopterBody::new();
    assert_eq!(
        body.get_mid_section_outline(),
        Node::leaf(Element::Polygon {
            points: vec![
                pt(-600_000, 250_000),
                pt(-600_000, -250_000),
                pt(0, 280_000),
                pt(0, -280_000),
                pt(800_000, 165_000),
                pt(800_000, -165_000),
            ],
            path: vec![0, 2, 4, 5, 3, 1],
        })
    );
}

#[test]
fn top_plate_lip_is_the_space_between_two_offsets_of_one_outline() {
    let body = TricopterBody::new();
    let lip = body.get_top_plate_canopy_edges();
    assert_eq!(lip.element, Element::Difference);
    assert_eq!(lip.children.len(), 2);
    let mut amounts: Vec<i64> = Vec::new();
    for face in &lip.children {
        assert_eq!(face.element, Element::LinearExtrude { height: 30_000, center: false });
        let ring = &face.children[0];
        match ring.element {
            Element::Offset(OffsetKind::Radius(amount), false) => amounts.push(amount),
            _ => panic!("not a rounded offset"),
        }
        assert_eq!(ring.children, vec![body.get_mid_section_outline()]);
    }
    assert_eq!(amounts, vec![-17_500, -30_000]);
    assert_eq!(amounts[0] - amounts[1], body.edge_thickness - body.edge_padding);
}

#[test]
fn camera_box_top_cutout_sits_inside_the_front_section() {
    let body = TricopterBody::new();
    assert_eq!(
        body.get_camera_box_top_cutout(),
        poly(vec![pt(-370_000, 220_000), pt(-570_000, 220_000), pt(-570_000, -220_000), pt(-370_000, -220_000)])
    );
}

#[test]
fn camera_box_outline_and_its_inner_offsets() {
    let body = TricopterBody::new();
    let outline = Node::wrap(
        Element::Offset(OffsetKind::Radius(20_000), false),
        poly(vec![pt(-360_000, 230_000), pt(-580_000, 230_000), pt(-580_000, -230_000), pt(-360_000, -230_000)]),
    );
    assert_eq!(body.get_camera_box_outline(), outline);
    let rim = Node::wrap(Element::Offset(OffsetKind::Delta(-35_000), false), outline);
    assert_eq!(body.get_camera_box_bottom_edge_outline(), rim);
    let hollow = Node::wrap(Element::Offset(OffsetKind::Delta(-10_000), false), rim);
    assert_eq!(body.get_camera_box_bottom_cutout_outline(), hollow);
}

#[test]
fn side_bounds_are_the_print_envelope() {
    let bounds = TricopterBody::new().get_side_bounds();
    assert_eq!(
        bounds,
        Node::wrap(
            Element::Translate(Point3 { x: -50_000_000, y: -700_000, z: 0 }),
            Node::leaf(Element::Cube(Point3 {
                x: ENVELOPE_LENGTH,
                y: ENVELOPE_WIDTH,
                z: ENVELOPE_HEIGHT
            }))
        )
    );
}

#[test]
fn walls_lie_between_two_offsets_of_one_outline() {
    let outline = poly(vec![pt(0, 0), pt(10, 0), pt(0, 10)]);
    let lip = wall(&outline, OffsetKind::Delta(3), OffsetKind::Delta(-3), 7);
    let face = |kind: OffsetKind| {
        Node::wrap(
            Element::LinearExtrude { height: 7, center: false },
            Node::wrap(Element::Offset(kind, false), outline.clone()),
        )
    };
    assert_eq!(
        lip,
        Node::with2(Element::Difference, face(OffsetKind::Delta(3)), face(OffsetKind::Delta(-3)))
    );
}
