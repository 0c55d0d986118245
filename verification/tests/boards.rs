use tricopter_frame::boards::{
    get_camera_cushion, get_camera_water_seal, get_m3_screw, get_vtx_mount, BoardCamera, DysEsc,
    Esc, EscStack, NazeBoard, VTX_HOLE_OFFSET, VTX_WIDTH,
};
use tricopter_frame::body::TricopterBody;
use tricopter_frame::geometry::{Axis, CircleSize, Element, Node, Point2, Point3};
use tricopter_frame::placement::{placements_of, Placement};

fn at(x: i64, y: i64, z: i64, child: Node) -> Node {
    Node::wrap(Element::Translate(Point3 { x, y, z }), child)
}

fn at2(x: i64, y: i64, child: Node) -> Node {
    Node::wrap(Element::Translate2d(Point2 { x, y }), child)
}

fn cube(x: i64, y: i64, z: i64) -> Node {
    Node::leaf(Element::Cube(Point3 { x, y, z }))
}

fn square(x: i64, y: i64) -> Node {
    Node::leaf(Element::Square(Point2 { x, y }))
}

fn cyl(height: i64, size: CircleSize) -> Node {
    Node::leaf(Element::Cylinder(height, size))
}

fn disc(size: CircleSize) -> Node {
    Node::leaf(Element::Circle(size))
}

fn at_corners(half: i64, object: Node) -> Node {
    Node::with4(
        Element::Union,
        at(-half, -half, 0, object.clone()),
        at(-half, half, 0, object.clone()),
        at(half, -half, 0, object.clone()),
        at(half, half, 0, object),
    )
}

#[test]
fn vtx_mount_is_a_plate_with_a_window_and_a_bar() {
    assert_eq!(VTX_HOLE_OFFSET, 265_000);
    assert_eq!(VTX_WIDTH, 210_000);
    let at_holes = |object: Node| {
        Node::with2(Element::Union, at2(265_000, 0, object.clone()), at2(-265_000, 0, object))
    };
    let footprint = Node::with2(
        Element::Hull,
        at_holes(disc(CircleSize::Diameter(75_000))),
        at2(-105_000, -105_000, square(210_000, 210_000)),
    );
    assert_eq!(
        get_vtx_mount(),
        Node::wrap(
            Element::LinearExtrude { height: 15_000, center: false },
            Node::with2(
                Element::Union,
                Node::with3(
                    Element::Difference,
                    footprint.clone(),
                    at_holes(disc(CircleSize::Diameter(35_000))),
                    Node::wrap(Element::Scale2d(Point2 { x: 300, y: 300 }), footprint),
                ),
                at2(-15_000, -105_000, square(30_000, 210_000)),
            )
        )
    );
}

#[test]
fn vtx_mount_pads_and_holes_share_their_positions() {
    let mount = get_vtx_mount();
    let cut = &mount.children[0].children[0];
    let pads = &cut.children[0].children[0];
    let holes = &cut.children[1];
    assert_eq!(placements_of(pads), placements_of(holes));
    assert_eq!(
        placements_of(holes),
        vec![
            Placement::Shift2d(Point2 { x: 265_000, y: 0 }),
            Placement::Shift2d(Point2 { x: -265_000, y: 0 })
        ]
    );
}

#[test]
fn m3_screw_is_a_head_under_a_thread() {
    assert_eq!(
        get_m3_screw(40_000),
        Node::with2(
            Element::Union,
            cyl(20_000, CircleSize::Diameter(70_000)),
            cyl(60_000, CircleSize::Diameter(35_000))
        )
    );
    assert_eq!(get_m3_screw(i64::MAX - 20_000).children[1], cyl(i64::MAX, CircleSize::Diameter(35_000)));
}

#[test]
fn naze_board_defaults() {
    let naze = NazeBoard::new();
    assert_eq!(naze.hole_diameter, 30_000);
    assert_eq!(naze.hole_distance, 305_000);
    assert_eq!(naze.hole_padding_radius, 25_000);
    assert_eq!(naze.get_width(), 355_000);
}

#[test]
fn naze_board_places_objects_at_its_four_holes() {
    let naze = NazeBoard::new();
    let object = cyl(1, CircleSize::Radius(1));
    assert_eq!(naze.place_object_at_holes(object.clone()), at_corners(152_500, object));
}

#[test]
fn naze_board_hole_positions_do_not_depend_on_the_object() {
    let naze = NazeBoard::new();
    let pads = naze.place_object_at_holes(cyl(35_000, CircleSize::Radius(25_000)));
    let holes = naze.get_holes(35_000);
    assert_eq!(placements_of(&pads), placements_of(&holes));
    assert_eq!(placements_of(&holes).len(), 4);
}

#[test]
fn naze_board_is_the_hull_of_its_pads_without_the_holes() {
    let naze = NazeBoard::new();
    assert_eq!(
        naze.get_board(),
        Node::with2(
            Element::Difference,
            Node::wrap(Element::Hull, at_corners(152_500, cyl(35_000, CircleSize::Radius(25_000)))),
            at_corners(152_500, cyl(35_000, CircleSize::Diameter(30_000))),
        )
    );
}

#[test]
fn naze_board_rounds_half_the_hole_distance_toward_zero() {
    let naze = NazeBoard { hole_diameter: 30_000, hole_distance: 5, hole_padding_radius: 25_000 };
    let holes = naze.get_holes(1);
    assert_eq!(holes.children[0].element, Element::Translate(Point3 { x: -2, y: -2, z: 0 }));
    assert_eq!(holes.children[3].element, Element::Translate(Point3 { x: 2, y: 2, z: 0 }));
}

#[test]
fn dys_esc_board_is_a_naze_board_with_two_crossing_bars() {
    let esc = DysEsc::new();
    assert_eq!((esc.x_length, esc.y_length, esc.extension_width), (400_000, 433_000, 300_000));
    let naze = NazeBoard::new();
    assert_eq!(
        esc.get_board(),
        Node::with2(
            Element::Difference,
            Node::with2(
                Element::Union,
                naze.get_board(),
                Node::with2(
                    Element::Union,
                    at(-150_000, -216_500, 0, cube(300_000, 433_000, 35_000)),
                    at(-200_000, -150_000, 0, cube(400_000, 300_000, 35_000)),
                )
            ),
            naze.get_holes(35_000),
        )
    );
}

#[test]
fn board_camera_model_and_lens_hole() {
    let camera = BoardCamera::new();
    assert_eq!(
        camera.get_model(),
        Node::with2(
            Element::Union,
            at(-160_000, -160_000, 0, cube(320_000, 320_000, 40_000)),
            cyl(280_000, CircleSize::Diameter(170_000)),
        )
    );
    assert_eq!(camera.get_lens_hole(), cyl(240_000, CircleSize::Radius(115_000)));
}

#[test]
fn camera_water_seal_is_a_notched_ring() {
    let seal = get_camera_water_seal(&BoardCamera::new(), &TricopterBody::new());
    assert_eq!(
        seal,
        Node::wrap(
            Element::RotateExtrude,
            at2(
                85_000,
                0,
                Node::with2(
                    Element::Difference,
                    at2(0, -40_000, square(80_000, 80_000)),
                    at2(30_000, 0, at2(0, -15_000, square(115_000, 30_000))),
                )
            )
        )
    );
}

#[test]
fn esc_pcb_is_a_box_centred_as_asked() {
    let esc = Esc::new();
    assert_eq!(
        esc.get_pcb((true, true, false)),
        at(-100_000, -125_000, 0, cube(200_000, 250_000, 40_000))
    );
    assert_eq!(esc.get_pcb((false, false, true)), at(0, 0, -20_000, cube(200_000, 250_000, 40_000)));
}

#[test]
fn esc_stack_places_objects_at_its_four_screws() {
    let stack = EscStack::new();
    let object = cyl(1, CircleSize::Radius(1));
    assert_eq!(
        stack.place_object_at_holes(object.clone()),
        Node::with4(
            Element::Union,
            at(127_500, 62_500, 0, object.clone()),
            at(-127_500, 62_500, 0, object.clone()),
            at(127_500, -62_500, 0, object.clone()),
            at(-127_500, -62_500, 0, object),
        )
    );
}

#[test]
fn esc_stack_mid_section_pads_and_holes_share_their_positions() {
    let stack = EscStack::new();
    let layer = stack.get_mid_section();
    assert_eq!(
        layer,
        Node::with2(
            Element::Difference,
            Node::with2(
                Element::Hull,
                stack.place_object_at_holes(cyl(20_000, CircleSize::Radius(37_500))),
                at(-100_000, -125_000, 0, cube(200_000, 250_000, 20_000)),
            ),
            stack.place_object_at_holes(cyl(20_000, CircleSize::Diameter(35_000))),
        )
    );
    assert_eq!(placements_of(&layer.children[0].children[0]), placements_of(&layer.children[1]));
}

#[test]
fn camera_cushion_is_two_pads_without_the_light_cutouts() {
    let cutout = at(205_000, 140_000, 0, at(-100_000, 0, 0, cube(200_000, 20_000, 1_000_000)));
    assert_eq!(
        get_camera_cushion(),
        Node::with2(
            Element::Difference,
            Node::with2(
                Element::Union,
                at(-205_000, 0, 0, cube(410_000, 160_000, 30_000)),
                at(-100_000, 0, 0, cube(200_000, 30_000, 205_000)),
            ),
            Node::with2(
                Element::Union,
                cutout.clone(),
                Node::wrap(Element::Mirror(Axis::X), cutout)
            ),
        )
    );
}
