use tricopter_frame::body::TricopterBody;
use tricopter_frame::boards::get_camera_cushion;
use tricopter_frame::geometry::{centered_cube, moved, Axis, Element, Node, Point3};
use tricopter_frame::placement::mirror_pair;

fn covers(node: &Node, p: (i64, i64, i64)) -> bool {
    match &node.element {
        Element::Union => node.children.iter().any(|c| covers(c, p)),
        Element::Difference => {
            !node.children.is_empty()
                && covers(&node.children[0], p)
                && node.children[1..].iter().all(|c| !covers(c, p))
        }
        Element::Intersection => !node.children.is_empty() && node.children.iter().all(|c| covers(c, p)),
        Element::Translate(v) => node.children.iter().any(|c| covers(c, (p.0 - v.x, p.1 - v.y, p.2 - v.z))),
        Element::Mirror(axis) => {
            let q = match axis {
                Axis::X => (-p.0, p.1, p.2),
                Axis::Y => (p.0, -p.1, p.2),
                Axis::Z => (p.0, p.1, -p.2),
            };
            node.children.iter().any(|c| covers(c, q))
        }
        Element::Cube(size) => {
            0 <= p.0 && p.0 <= size.x && 0 <= p.1 && p.1 <= size.y && 0 <= p.2 && p.2 <= size.z
        }
        _ => false,
    }
}

fn extent_along_y(node: &Node, x: i64, z: i64) -> Option<(i64, i64)> {
    let mut lowest: Option<i64> = None;
    let mut highest: Option<i64> = None;
    for y in -300_000..=300_000 {
        if covers(node, (x, y, z)) {
            if lowest.is_none() {
                lowest = Some(y);
            }
            highest = Some(y);
        }
    }
    match (lowest, highest) {
        (Some(l), Some(h)) => Some((l, h)),
        _ => None,
    }
}

#[test]
fn battery_strap_holes_extend_equally_to_both_sides() {
    let holes = TricopterBody::new().get_battery_strap_holes();
    let extent = extent_along_y(&holes, 0, 10_000);
    assert_eq!(extent, Some((-190_000, 190_000)));
    assert_eq!(extent_along_y(&holes, 135_000, 40_000), Some((-190_000, 190_000)));
    assert_eq!(extent_along_y(&holes, 135_010, 40_000), None);
    assert!(!covers(&holes, (0, 0, 10_000)));
    assert!(covers(&holes, (0, 150_000, 10_000)));
    assert!(covers(&holes, (0, -150_000, 10_000)));
}

#[test]
fn mirror_pair_covers_a_point_exactly_when_it_covers_its_reflection() {
    let lopsided = moved(3, 1, -2, centered_cube(Point3 { x: 4, y: 7, z: 5 }, (false, true, false)));
    for axis in [Axis::X, Axis::Y, Axis::Z] {
        let pair = mirror_pair(axis, &lopsided);
        let mut covered = 0;
        for x in -9..=9 {
            for y in -9..=9 {
                for z in -9..=9 {
                    let q = match axis {
                        Axis::X => (-x, y, z),
                        Axis::Y => (x, -y, z),
                        Axis::Z => (x, y, -z),
                    };
                    assert_eq!(covers(&pair, (x, y, z)), covers(&pair, q));
                    assert_eq!(
                        covers(&pair, (x, y, z)),
                        covers(&lopsided, (x, y, z)) || covers(&lopsided, q)
                    );
                    if covers(&pair, (x, y, z)) {
                        covered += 1;
                    }
                }
            }
        }
        assert!(covered > 0);
    }
}

#[test]
fn camera_cushion_cutouts_are_mirrored_across_its_middle() {
    let cushion = get_camera_cushion();
    let cutouts = &cushion.children[1];
    for y in [139_990, 140_000, 150_000, 160_000, 160_010] {
        for x in [0, 104_990, 105_000, 205_000, 305_000, 305_010] {
            assert_eq!(covers(cutouts, (x, y, 50)), covers(cutouts, (-x, y, 50)));
        }
    }
    assert!(covers(cutouts, (205_000, 150_000, 50)));
    assert!(covers(cutouts, (-205_000, 150_000, 50)));
    assert!(!covers(cutouts, (0, 150_000, 50)));
}
