use tricopter_frame::boards::{get_m3_screw, NazeBoard};
use tricopter_frame::body::{envelope_box, TricopterBody};
use tricopter_frame::geometry::{Axis, Element, Node, Point3};
use tricopter_frame::plates::{assemble, clip, clip_to_envelope, cut};
use tricopter_frame::servo::ServoMount;

fn cube(x: i64, y: i64, z: i64) -> Node {
    Node::leaf(Element::Cube(Point3 { x, y, z }))
}

fn at(x: i64, y: i64, z: i64, child: Node) -> Node {
    Node::wrap(Element::Translate(Point3 { x, y, z }), child)
}

/// Three readings of the elements whose extent the renderer decides: they
/// cover nothing, they cover everything, or only the plate itself covers
/// everything.
fn readings() -> Vec<fn(&Node) -> bool> {
    fn nothing(_: &Node) -> bool {
        false
    }
    fn everything(_: &Node) -> bool {
        true
    }
    fn plate_only(node: &Node) -> bool {
        node.element == Element::LinearExtrude { height: 40_000, center: false }
    }
    vec![nothing, everything, plate_only]
}

/// Whether the tree covers a lattice point under a reading.
fn covers(node: &Node, p: (i64, i64, i64), opaque: fn(&Node) -> bool) -> bool {
    match &node.element {
        Element::Union | Element::Color(_) => node.children.iter().any(|c| covers(c, p, opaque)),
        Element::Difference => {
            !node.children.is_empty()
                && covers(&node.children[0], p, opaque)
                && node.children[1..].iter().all(|c| !covers(c, p, opaque))
        }
        Element::Intersection => {
            !node.children.is_empty() && node.children.iter().all(|c| covers(c, p, opaque))
        }
        Element::Translate(v) => {
            node.children.iter().any(|c| covers(c, (p.0 - v.x, p.1 - v.y, p.2 - v.z), opaque))
        }
        Element::Translate2d(v) => {
            node.children.iter().any(|c| covers(c, (p.0 - v.x, p.1 - v.y, p.2), opaque))
        }
        Element::Mirror(axis) => {
            let q = match axis {
                Axis::X => (-p.0, p.1, p.2),
                Axis::Y => (p.0, -p.1, p.2),
                Axis::Z => (p.0, p.1, -p.2),
            };
            node.children.iter().any(|c| covers(c, q, opaque))
        }
        Element::Cube(size) => {
            0 <= p.0 && p.0 <= size.x && 0 <= p.1 && p.1 <= size.y && 0 <= p.2 && p.2 <= size.z
        }
        _ => opaque(node),
    }
}

fn within_envelope(p: (i64, i64, i64)) -> bool {
    -50_000_000 <= p.0
        && p.0 <= 50_000_000
        && -700_000 <= p.1
        && p.1 <= 700_000
        && 0 <= p.2
        && p.2 <= 10_000_000
}

fn samples() -> Vec<(i64, i64, i64)> {
    let xs = [-50_000_010, -50_000_000, -600_000, 0, 550_000, 50_000_000, 50_000_010];
    let ys = [-700_010, -700_000, -170_000, 0, 105_000, 700_000, 700_010];
    let zs = [-1, 0, 20_000, 40_000, 10_000_000, 10_000_010];
    let mut points = Vec::new();
    for x in xs {
        for y in ys {
            for z in zs {
                points.push((x, y, z));
            }
        }
    }
    points
}

#[test]
fn assemble_joins_cuts_and_clips_in_that_order() {
    let part = assemble(
        vec![cube(10, 10, 10), cube(20, 5, 5)],
        vec![cube(1, 1, 1), cube(2, 2, 2), cube(3, 3, 3)],
        cube(8, 8, 8),
    );
    assert_eq!(
        part,
        Node::with2(
            Element::Intersection,
            Node::with4(
                Element::Difference,
                Node::with2(Element::Union, cube(10, 10, 10), cube(20, 5, 5)),
                cube(1, 1, 1),
                cube(2, 2, 2),
                cube(3, 3, 3),
            ),
            cube(8, 8, 8),
        )
    );
}

#[test]
fn assemble_without_removals_only_joins_and_clips() {
    let part = assemble(vec![cube(10, 10, 10)], vec![], cube(8, 8, 8));
    assert_eq!(
        part,
        Node::with2(
            Element::Intersection,
            Node::wrap(Element::Difference, Node::wrap(Element::Union, cube(10, 10, 10))),
            cube(8, 8, 8),
        )
    );
}

#[test]
fn assembled_part_covers_what_is_added_and_not_removed_inside_the_envelope() {
    let part = assemble(
        vec![cube(10, 10, 10), at(5, 0, 0, cube(10, 4, 4))],
        vec![at(2, 2, 0, cube(2, 2, 10))],
        cube(12, 8, 8),
    );
    let reading = readings()[0];
    assert!(covers(&part, (1, 1, 1), reading));
    assert!(covers(&part, (12, 3, 3), reading));
    assert!(!covers(&part, (3, 3, 3), reading));
    assert!(!covers(&part, (13, 3, 3), reading));
    assert!(!covers(&part, (1, 9, 1), reading));
    assert!(!covers(&part, (11, 5, 1), reading));
}

#[test]
fn removal_order_does_not_change_the_part() {
    let adds = || vec![cube(10, 10, 10)];
    let first = assemble(adds(), vec![at(1, 1, 0, cube(2, 2, 10)), at(6, 6, 0, cube(2, 2, 10))], cube(9, 9, 9));
    let second = assemble(adds(), vec![at(6, 6, 0, cube(2, 2, 10)), at(1, 1, 0, cube(2, 2, 10))], cube(9, 9, 9));
    assert_ne!(first, second);
    for x in -1..12 {
        for y in -1..12 {
            for z in [0, 5, 9, 10] {
                assert_eq!(
                    covers(&first, (x, y, z), readings()[0]),
                    covers(&second, (x, y, z), readings()[0])
                );
            }
        }
    }
}

#[test]
fn body_bottom_is_assembled_from_three_additions_and_seven_removals() {
    let body = TricopterBody::new();
    let bottom = body.get_body_bottom();
    assert_eq!(bottom.element, Element::Intersection);
    assert_eq!(bottom.children.len(), 2);
    assert_eq!(bottom.children[1], body.get_side_bounds());
    let cut = &bottom.children[0];
    assert_eq!(cut.element, Element::Difference);
    assert_eq!(cut.children.len(), 8);
    let joined = &cut.children[0];
    assert_eq!(joined.element, Element::Union);
    assert_eq!(
        joined.children,
        vec![
            Node::with2(
                Element::LinearExtrude { height: 40_000, center: false },
                body.get_body_shape(),
                body.get_front_section()
            ),
            Node::with4(
                Element::LinearExtrude { height: 140_000, center: false },
                body.get_back_mount_block(),
                body.get_camera_box_outline(),
                body.get_front_screw_tab_outline(),
                body.get_back_screw_tab_outline()
            ),
            Node::wrap(
                Element::LinearExtrude { height: 180_000, center: false },
                body.get_camera_box_bottom_edge_outline()
            ),
        ]
    );
    assert_eq!(
        cut.children[1..].to_vec(),
        vec![
            body.get_front_arm_screw_holes(),
            body.get_back_screwholes(),
            at(
                0,
                0,
                40_000,
                Node::wrap(
                    Element::LinearExtrude { height: 180_000, center: false },
                    body.get_camera_box_bottom_cutout_outline()
                )
            ),
            body.get_camera_lens_hole(240_000),
            body.get_battery_strap_holes(),
            body.place_object_at_motor_wire_holes(body.get_back_block_cable_hole()),
            body.get_cable_tie_holes(),
        ]
    );
}

#[test]
fn body_top_halves_differ_only_in_how_the_splitter_is_used() {
    let body = TricopterBody::new();
    let front_part = body.get_body_top(true);
    let back_part = body.get_body_top(false);
    let front = &front_part.children[0];
    let back = &back_part.children[0];
    assert_eq!(front.element, Element::Difference);
    assert_eq!(back.element, Element::Intersection);
    assert_eq!(front.children, back.children);
    assert_eq!(front.children.len(), 2);
    let splitter = body.place_object_at_motor_wire_holes(Node::with2(
        Element::Union,
        at(0, 0, 25_000, at(0, -500_000, 0, cube(1_000_000, 1_000_000, 1_000_000))),
        at(30_000, 0, 0, at(0, -500_000, 0, cube(1_000_000, 1_000_000, 25_000))),
    ));
    assert_eq!(front.children[1], splitter);
}

#[test]
fn body_top_is_assembled_from_two_additions_and_seven_removals() {
    let body = TricopterBody::new();
    let top = body.get_body_top(true);
    let cut = &top.children[0].children[0];
    assert_eq!(cut.element, Element::Difference);
    assert_eq!(
        cut.children[0],
        Node::with2(
            Element::Union,
            Node::with5(
                Element::LinearExtrude { height: 40_000, center: false },
                body.get_body_shape(),
                body.get_mid_section_outline(),
                body.get_front_section(),
                body.get_front_screw_tab_outline(),
                body.get_back_screw_tab_outline()
            ),
            at(0, 0, 40_000, body.get_top_plate_canopy_edges()),
        )
    );
    assert_eq!(
        cut.children[1..].to_vec(),
        vec![
            body.get_front_arm_screw_holes(),
            body.get_back_screwholes(),
            body.get_top_plate_motor_wire_hole(),
            body.get_battery_wire_hole(),
            body.get_camera_lens_hole(100_000),
            Node::wrap(Element::Union, NazeBoard::new().place_object_at_holes(get_m3_screw(40_000))),
            Node::wrap(
                Element::LinearExtrude { height: 40_000, center: false },
                body.get_camera_box_top_cutout()
            ),
        ]
    );
}

#[test]
fn plates_stay_inside_the_print_envelope() {
    let body = TricopterBody::new();
    let parts = vec![body.get_body_bottom(), body.get_body_top(true), body.get_body_top(false)];
    for part in &parts {
        for p in samples() {
            for opaque in readings() {
                if covers(part, p, opaque) {
                    assert!(within_envelope(p));
                }
            }
        }
    }
}

#[test]
fn clipping_a_plate_again_changes_nothing() {
    let body = TricopterBody::new();
    let bottom = body.get_body_bottom();
    let again = clip(bottom.clone(), body.get_side_bounds());
    assert_eq!(again, Node::with2(Element::Intersection, bottom.clone(), body.get_side_bounds()));
    let mut covered = 0;
    for p in samples() {
        for opaque in readings() {
            assert_eq!(covers(&again, p, opaque), covers(&bottom, p, opaque));
            if covers(&bottom, p, opaque) {
                covered += 1;
            }
        }
    }
    assert!(covered > 0);
}

#[test]
fn clipping_any_part_keeps_it_inside_the_envelope() {
    let body = TricopterBody::new();
    let sprawling = Node::with2(
        Element::Union,
        at(-60_000_000, -800_000, -5, cube(120_000_000, 1_600_000, 20_000_000)),
        body.get_canopy(),
    );
    let clipped = clip(sprawling.clone(), body.get_side_bounds());
    let again = clip(clipped.clone(), body.get_side_bounds());
    let mut inside = 0;
    let mut outside = 0;
    for p in samples() {
        for reading in readings() {
            assert!(covers(&sprawling, p, reading));
            assert_eq!(covers(&clipped, p, reading), within_envelope(p));
            assert_eq!(covers(&again, p, reading), covers(&clipped, p, reading));
            if covers(&clipped, p, reading) {
                inside += 1;
            } else {
                outside += 1;
            }
        }
    }
    assert!(inside > 0 && outside > 0);
}

#[test]
fn every_part_ends_with_the_envelope_intersection() {
    let body = TricopterBody::new();
    let parts = vec![
        body.get_body_bottom(),
        body.get_body_top(true),
        body.get_body_top(false),
        body.get_canopy(),
        body.side_plate_shape(),
        body.get_side_plate_mount(),
        body.side_plate_front_bracket(),
        ServoMount::new().full(),
    ];
    for part in &parts {
        assert_eq!(part.element, Element::Intersection);
        assert_eq!(part.children.len(), 2);
        assert_eq!(part.children[1], body.get_side_bounds());
        assert_ne!(part.children[0].children.last(), Some(&body.get_side_bounds()));
    }
}

#[test]
fn every_part_stays_inside_the_print_envelope() {
    let body = TricopterBody::new();
    let parts = vec![
        body.get_canopy(),
        body.side_plate_shape(),
        body.get_side_plate_mount(),
        body.side_plate_front_bracket(),
        ServoMount::new().full(),
    ];
    for part in &parts {
        let again = clip(part.clone(), body.get_side_bounds());
        for p in samples() {
            for reading in readings() {
                if covers(part, p, reading) {
                    assert!(within_envelope(p));
                }
                assert_eq!(covers(&again, p, reading), covers(part, p, reading));
            }
        }
    }
}

#[test]
fn splitting_before_or_after_clipping_gives_the_same_half() {
    let body = TricopterBody::new();
    for filter_front in [true, false] {
        let part = body.get_body_top(filter_front);
        let half = &part.children[0];
        let early = Node::with2(
            half.element.clone(),
            clip(half.children[0].clone(), body.get_side_bounds()),
            half.children[1].clone(),
        );
        for p in samples() {
            for reading in readings() {
                assert_eq!(covers(&part, p, reading), covers(&early, p, reading));
            }
        }
    }
}

#[test]
fn cut_joins_what_is_added_and_removes_the_rest() {
    assert_eq!(
        cut(vec![cube(10, 10, 10), cube(20, 5, 5)], vec![cube(1, 1, 1)]),
        Node::with2(
            Element::Difference,
            Node::with2(Element::Union, cube(10, 10, 10), cube(20, 5, 5)),
            cube(1, 1, 1),
        )
    );
}

#[test]
fn clip_to_envelope_intersects_with_the_envelope_box() {
    assert_eq!(
        clip_to_envelope(cube(1, 2, 3)),
        Node::with2(Element::Intersection, cube(1, 2, 3), TricopterBody::new().get_side_bounds())
    );
    assert_eq!(envelope_box(), TricopterBody::new().get_side_bounds());
}
