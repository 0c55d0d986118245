//! Electronics and their mounts: the flight controller board, the speed
//! controllers and their stack, the camera, and the transmitter mount.
//!
//! Each accessory has its own dimensions and is built about its own origin;
//! the frame positions it by an offset of its own choosing.

use vstd::prelude::*;
use crate::body::{TricopterBody, SCREW_DIAMETER};
use crate::geometry::{
    centered_cube, centered_cube_shape, centered_square, centered_square_shape, circle,
    circle_shape, cylinder, cylinder_shape, extruded, extruded_shape, moved, moved2d, moved2d_shape,
    moved_shape, point2, point3, pos2, pos3, Axis, CircleSize, CircleSizeView, Element, ElementView,
    Node, Point2, Point3, Shape,
};
use crate::placement::{
    lemma_placements_read_back, mirror_pair, place, place_shape, shape_placements, PatternSpec,
    PatternView,
};
use crate::solid::mirror_pair_shape;
use crate::units::{in_range, quot};

verus! {

/// Distance of the transmitter mount's screws from its centre.
pub const VTX_HOLE_OFFSET: i64 = 265_000;

/// Width of the transmitter.
pub const VTX_WIDTH: i64 = 210_000;

/// The two screw positions of the transmitter mount.
pub open spec fn vtx_holes() -> PatternView {
    PatternView::Offsets2d(seq![pos2(VTX_HOLE_OFFSET as int, 0), pos2(-VTX_HOLE_OFFSET, 0)])
}

/// The footprint of the transmitter mount: the hull of the pads around its
/// screws and of the square under the transmitter.
pub open spec fn vtx_mount_footprint() -> Shape {
    Shape::node(
        ElementView::Hull,
        seq![
            place_shape(vtx_holes(), circle_shape(CircleSizeView::Diameter(75_000))),
            centered_square_shape(pos2(VTX_WIDTH as int, VTX_WIDTH as int), (true, true)),
        ],
    )
}

/// The transmitter mount: its footprint without the screw holes and without
/// a window three tenths its size, joined by a bar across the window.
pub open spec fn vtx_mount() -> Shape {
    extruded_shape(
        15_000,
        Shape::node(
            ElementView::Union,
            seq![
                Shape::node(
                    ElementView::Difference,
                    seq![
                        vtx_mount_footprint(),
                        place_shape(vtx_holes(), circle_shape(CircleSizeView::Diameter(35_000))),
                        Shape::wrap(ElementView::Scale2d(pos2(300, 300)), vtx_mount_footprint()),
                    ],
                ),
                centered_square_shape(pos2(30_000, VTX_WIDTH as int), (true, true)),
            ],
        ),
    )
}

fn vtx_hole_pattern() -> (r: PatternSpec)
    ensures
        r@ == vtx_holes(),
        r@.wf(),
{
    let left: i64 = -VTX_HOLE_OFFSET;
    let offsets: Vec<Point2> = vec![point2(VTX_HOLE_OFFSET, 0), point2(left, 0)];
    let r = PatternSpec::Offsets2d(offsets);
    assert(r@->Offsets2d_0 =~= vtx_holes()->Offsets2d_0);
    r
}

fn build_vtx_mount_footprint() -> (r: Node)
    ensures
        r@ == vtx_mount_footprint(),
{
    Node::with2(
        Element::Hull,
        place(&vtx_hole_pattern(), &circle(CircleSize::Diameter(75_000))),
        centered_square(point2(VTX_WIDTH, VTX_WIDTH), (true, true)),
    )
}

/// Builds the mount for the video transmitter.
pub fn get_vtx_mount() -> (r: Node)
    ensures
        r@ == vtx_mount(),
{
    let footprint = build_vtx_mount_footprint();
    let window = Node::wrap(Element::Scale2d(point2(300, 300)), build_vtx_mount_footprint());
    let screwholes = place(&vtx_hole_pattern(), &circle(CircleSize::Diameter(35_000)));
    extruded(
        15_000,
        Node::with2(
            Element::Union,
            Node::with3(Element::Difference, footprint, screwholes, window),
            centered_square(point2(30_000, VTX_WIDTH), (true, true)),
        ),
    )
}

/// The clearance for an M3 screw of the given length, head down: a wide
/// cylinder for the head under a narrow one for the thread.
pub open spec fn m3_screw(length: int) -> Shape {
    Shape::node(
        ElementView::Union,
        seq![
            cylinder_shape(20_000, CircleSizeView::Diameter(70_000)),
            cylinder_shape(length + 20_000, CircleSizeView::Diameter(35_000)),
        ],
    )
}

/// Builds the clearance for an M3 screw.
pub fn get_m3_screw(length: i64) -> (r: Node)
    requires
        length + 20_000 <= i64::MAX,
    ensures
        r@ == m3_screw(length as int),
{
    Node::with2(
        Element::Union,
        cylinder(20_000, CircleSize::Diameter(70_000)),
        cylinder(length + 20_000, CircleSize::Diameter(35_000)),
    )
}

/// The dimensions of the flight controller board.
#[derive(Clone, Copy, Debug, PartialEq, Eq)]
pub struct NazeBoard {
    /// Diameter of a mounting hole.
    pub hole_diameter: i64,
    /// Distance between neighbouring mounting holes.
    pub hole_distance: i64,
    /// Radius of the pad around each hole; by default one millimetre more
    /// than the hole's.
    pub hole_padding_radius: i64,
}

impl NazeBoard {
    /// Whether every dimension lies within the magnitude the builders accept.
    pub open spec fn wf(&self) -> bool {
        &&& in_range(self.hole_diameter as int)
        &&& in_range(self.hole_distance as int)
        &&& in_range(self.hole_padding_radius as int)
    }

    /// The default dimensions; the pad reaches one millimetre past the hole.
    pub open spec fn defaults() -> NazeBoard {
        let hole_diameter = 30_000i64;
        NazeBoard {
            hole_diameter,
            hole_distance: 305_000,
            hole_padding_radius: (quot(hole_diameter as int, 2) + 10_000) as i64,
        }
    }

    /// A board with the default dimensions.
    pub fn new() -> (r: NazeBoard)
        ensures
            r == NazeBoard::defaults(),
            r.wf(),
    {
        let hole_diameter: i64 = 30_000;
        NazeBoard {
            hole_diameter,
            hole_distance: 305_000,
            hole_padding_radius: hole_diameter / 2 + 10_000,
        }
    }

    /// The square of the four mounting holes.
    pub open spec fn holes(&self) -> PatternView {
        PatternView::Grid {
            half_x: quot(self.hole_distance as int, 2),
            half_y: quot(self.hole_distance as int, 2),
        }
    }

    /// Copies of `object` at the four mounting holes.
    pub open spec fn at_holes(&self, object: Shape) -> Shape {
        place_shape(self.holes(), object)
    }

    /// The board: the hull of the pads, without the holes.
    pub open spec fn board(&self) -> Shape {
        Shape::node(
            ElementView::Difference,
            seq![
                Shape::wrap(
                    ElementView::Hull,
                    self.at_holes(
                        cylinder_shape(
                            35_000,
                            CircleSizeView::Radius(self.hole_padding_radius as int),
                        ),
                    ),
                ),
                self.hole_cylinders(35_000),
            ],
        )
    }

    /// Cylinders of the given height through the four mounting holes.
    pub open spec fn hole_cylinders(&self, height: int) -> Shape {
        self.at_holes(cylinder_shape(height, CircleSizeView::Diameter(self.hole_diameter as int)))
    }

    /// Builds the board.
    pub fn get_board(&self) -> (r: Node)
        ensures
            r@ == self.board(),
    {
        let height: i64 = 35_000;
        let main = Node::wrap(
            Element::Hull,
            self.place_object_at_holes(
                cylinder(height, CircleSize::Radius(self.hole_padding_radius)),
            ),
        );
        Node::with2(Element::Difference, main, self.get_holes(height))
    }

    /// Builds cylinders of the given height through the four mounting holes.
    pub fn get_holes(&self, height: i64) -> (r: Node)
        ensures
            r@ == self.hole_cylinders(height as int),
    {
        self.place_object_at_holes(cylinder(height, CircleSize::Diameter(self.hole_diameter)))
    }

    /// Places a copy of `object` at each of the four mounting holes. The
    /// positions are the same whatever the object.
    pub fn place_object_at_holes(&self, object: Node) -> (r: Node)
        ensures
            r@ == self.at_holes(object@),
            shape_placements(r@) == self.holes().placements(),
    {
        let half: i64 = self.hole_distance / 2;
        let pattern = PatternSpec::Grid { half_x: half, half_y: half };
        proof {
            lemma_placements_read_back(pattern@, object@);
        }
        place(&pattern, &object)
    }

    /// The width of the board over its pads.
    pub fn get_width(&self) -> (r: i64)
        requires
            self.wf(),
        ensures
            r == self.hole_distance + self.hole_padding_radius * 2,
    {
        self.hole_distance + self.hole_padding_radius * 2
    }
}

/// The dimensions of the four-in-one speed controller board.
#[derive(Clone, Copy, Debug, PartialEq, Eq)]
pub struct DysEsc {
    /// Length of the bar along x.
    pub x_length: i64,
    /// Length of the bar along y.
    pub y_length: i64,
    /// Width of the two bars that cross in the middle of the board.
    pub extension_width: i64,
}

impl DysEsc {
    /// Whether every dimension lies within the magnitude the builders accept.
    pub open spec fn wf(&self) -> bool {
        &&& in_range(self.x_length as int)
        &&& in_range(self.y_length as int)
        &&& in_range(self.extension_width as int)
    }

    /// The default dimensions.
    pub open spec fn defaults() -> DysEsc {
        DysEsc { x_length: 400_000, y_length: 433_000, extension_width: 300_000 }
    }

    /// A board with the default dimensions.
    pub fn new() -> (r: DysEsc)
        ensures
            r == DysEsc::defaults(),
            r.wf(),
    {
        DysEsc { x_length: 400_000, y_length: 433_000, extension_width: 300_000 }
    }

    /// The board: the default flight controller board widened by two
    /// crossing bars, with the flight controller's mounting holes.
    pub open spec fn board(&self) -> Shape {
        let naze = NazeBoard::defaults();
        Shape::node(
            ElementView::Difference,
            seq![
                Shape::node(
                    ElementView::Union,
                    seq![
                        naze.board(),
                        Shape::node(
                            ElementView::Union,
                            seq![
                                centered_cube_shape(
                                    pos3(self.extension_width as int, self.y_length as int, 35_000),
                                    (true, true, false),
                                ),
                                centered_cube_shape(
                                    pos3(self.x_length as int, self.extension_width as int, 35_000),
                                    (true, true, false),
                                ),
                            ],
                        ),
                    ],
                ),
                naze.hole_cylinders(35_000),
            ],
        )
    }

    /// Builds the board.
    pub fn get_board(&self) -> (r: Node)
        requires
            self.wf(),
        ensures
            r@ == self.board(),
    {
        let height: i64 = 35_000;
        let naze = NazeBoard::new();
        let extensions = Node::with2(
            Element::Union,
            centered_cube(point3(self.extension_width, self.y_length, height), (true, true, false)),
            centered_cube(point3(self.x_length, self.extension_width, height), (true, true, false)),
        );
        Node::with2(
            Element::Difference,
            Node::with2(Element::Union, naze.get_board(), extensions),
            naze.get_holes(height),
        )
    }
}

/// The dimensions of the board camera.
#[derive(Clone, Copy, Debug, PartialEq, Eq)]
pub struct BoardCamera {
    /// Side of the square circuit board.
    pub width: i64,
    /// Thickness of the circuit board.
    pub thickness: i64,
    /// Diameter of the lens.
    pub lens_diameter: i64,
    /// Length of the lens, from the board.
    pub lens_length: i64,
    /// Radial room around the lens for a seal against snow.
    pub snowproof_padding_radius: i64,
}

impl BoardCamera {
    /// Whether every dimension lies within the magnitude the builders accept.
    pub open spec fn wf(&self) -> bool {
        &&& in_range(self.width as int)
        &&& in_range(self.thickness as int)
        &&& in_range(self.lens_diameter as int)
        &&& in_range(self.lens_length as int)
        &&& in_range(self.snowproof_padding_radius as int)
    }

    /// The default dimensions.
    pub open spec fn defaults() -> BoardCamera {
        BoardCamera {
            width: 320_000,
            thickness: 40_000,
            lens_diameter: 170_000,
            lens_length: 240_000,
            snowproof_padding_radius: 30_000,
        }
    }

    /// A camera with the default dimensions.
    pub fn new() -> (r: BoardCamera)
        ensures
            r == BoardCamera::defaults(),
            r.wf(),
    {
        BoardCamera {
            width: 320_000,
            thickness: 40_000,
            lens_diameter: 170_000,
            lens_length: 240_000,
            snowproof_padding_radius: 30_000,
        }
    }

    /// The camera: a square board lying on the plane and the lens standing on it.
    pub open spec fn model(&self) -> Shape {
        Shape::node(
            ElementView::Union,
            seq![
                centered_cube_shape(
                    pos3(self.width as int, self.width as int, self.thickness as int),
                    (true, true, false),
                ),
                cylinder_shape(
                    self.thickness + self.lens_length,
                    CircleSizeView::Diameter(self.lens_diameter as int),
                ),
            ],
        )
    }

    /// The hole for the lens and its seal.
    pub open spec fn lens_hole(&self) -> Shape {
        cylinder_shape(
            self.lens_length as int,
            CircleSizeView::Radius(
                self.snowproof_padding_radius + quot(self.lens_diameter as int, 2),
            ),
        )
    }

    /// Builds a model of the camera.
    pub fn get_model(&self) -> (r: Node)
        requires
            self.wf(),
        ensures
            r@ == self.model(),
    {
        Node::with2(
            Element::Union,
            centered_cube(point3(self.width, self.width, self.thickness), (true, true, false)),
            cylinder(self.thickness + self.lens_length, CircleSize::Diameter(self.lens_diameter)),
        )
    }

    /// Builds the hole for the lens and its seal.
    pub fn get_lens_hole(&self) -> (r: Node)
        requires
            self.wf(),
        ensures
            r@ == self.lens_hole(),
    {
        let total_radius: i64 = self.snowproof_padding_radius + self.lens_diameter / 2;
        cylinder(self.lens_length, CircleSize::Radius(total_radius))
    }
}

/// The profile of the seal around the camera lens, before it is swept
/// around the lens axis: a rectangle five millimetres larger than the hole
/// in the canopy, with a notch as thick as the canopy.
pub open spec fn camera_water_seal(camera: BoardCamera, body: TricopterBody) -> Shape {
    let inner_radius = quot(camera.lens_diameter as int, 2);
    let outer_radius = camera.snowproof_padding_radius + inner_radius;
    let thickness = body.canopy_thickness as int;
    Shape::wrap(
        ElementView::RotateExtrude,
        moved2d_shape(
            inner_radius,
            0,
            Shape::node(
                ElementView::Difference,
                seq![
                    centered_square_shape(
                        pos2(outer_radius + 50_000 - inner_radius, thickness + 50_000),
                        (false, true),
                    ),
                    moved2d_shape(
                        outer_radius - inner_radius,
                        0,
                        centered_square_shape(pos2(outer_radius, thickness), (false, true)),
                    ),
                ],
            ),
        ),
    )
}

/// Builds the seal that sits between the camera lens and the canopy.
pub fn get_camera_water_seal(camera: &BoardCamera, tricopter_body: &TricopterBody) -> (r: Node)
    requires
        camera.wf(),
        tricopter_body.wf(),
    ensures
        r@ == camera_water_seal(*camera, *tricopter_body),
{
    let inner_radius: i64 = camera.lens_diameter / 2;
    let outer_radius: i64 = camera.snowproof_padding_radius + inner_radius;
    let thickness: i64 = tricopter_body.canopy_thickness;
    let outer_thickness: i64 = thickness + 50_000;
    let outer_shell_radius: i64 = outer_radius + 50_000;
    let shell_square = centered_square(
        point2(outer_shell_radius - inner_radius, outer_thickness),
        (false, true),
    );
    let outer_cutoff = moved2d(
        outer_radius - inner_radius,
        0,
        centered_square(point2(outer_radius, thickness), (false, true)),
    );
    let outline = Node::with2(Element::Difference, shell_square, outer_cutoff);
    Node::wrap(Element::RotateExtrude, moved2d(inner_radius, 0, outline))
}

/// The dimensions of one speed controller.
#[derive(Clone, Copy, Debug, PartialEq, Eq)]
pub struct Esc {
    /// Extent of the circuit board along x.
    pub width: i64,
    /// Extent of the circuit board along y.
    pub length: i64,
    /// Thickness of the circuit board with its parts.
    pub thickness: i64,
}

impl Esc {
    /// Whether every dimension lies within the magnitude the builders accept.
    pub open spec fn wf(&self) -> bool {
        &&& in_range(self.width as int)
        &&& in_range(self.length as int)
        &&& in_range(self.thickness as int)
    }

    /// The default dimensions.
    pub open spec fn defaults() -> Esc {
        Esc { width: 200_000, length: 250_000, thickness: 40_000 }
    }

    /// A speed controller with the default dimensions.
    pub fn new() -> (r: Esc)
        ensures
            r == Esc::defaults(),
            r.wf(),
    {
        Esc { width: 200_000, length: 250_000, thickness: 40_000 }
    }

    /// The circuit board, centred on the chosen axes.
    pub open spec fn pcb(&self, center: (bool, bool, bool)) -> Shape {
        centered_cube_shape(
            pos3(self.width as int, self.length as int, self.thickness as int),
            center,
        )
    }

    /// Builds the circuit board.
    pub fn get_pcb(&self, center: (bool, bool, bool)) -> (r: Node)
        ensures
            r@ == self.pcb(center),
    {
        centered_cube(point3(self.width, self.length, self.thickness), center)
    }
}

/// The dimensions of one layer of the speed controller stack.
#[derive(Clone, Copy, Debug, PartialEq, Eq)]
pub struct EscStack {
    /// Thickness of one layer.
    pub layer_thickness: i64,
    /// The speed controller that the layer holds.
    pub esc: Esc,
    /// Material between a screw and the speed controller.
    pub screw_padding: i64,
}

impl EscStack {
    /// Whether every dimension lies within the magnitude the builders accept.
    pub open spec fn wf(&self) -> bool {
        &&& in_range(self.layer_thickness as int)
        &&& self.esc.wf()
        &&& in_range(self.screw_padding as int)
    }

    /// The default dimensions, around the default speed controller.
    pub open spec fn defaults() -> EscStack {
        EscStack { layer_thickness: 20_000, esc: Esc::defaults(), screw_padding: 20_000 }
    }

    /// A stack layer with the default dimensions.
    pub fn new() -> (r: EscStack)
        ensures
            r == EscStack::defaults(),
            r.wf(),
    {
        EscStack { layer_thickness: 20_000, esc: Esc::new(), screw_padding: 20_000 }
    }

    /// The four screw positions beside the speed controller.
    pub open spec fn holes(&self) -> PatternView {
        let x = quot(self.esc.width as int, 2) + quot(self.screw_padding as int, 2) + quot(
            SCREW_DIAMETER as int,
            2,
        );
        let y = quot(self.esc.length as int, 4);
        PatternView::Offsets(seq![pos3(x, y, 0), pos3(-x, y, 0), pos3(x, -y, 0), pos3(-x, -y, 0)])
    }

    /// Copies of `object` at the four screw positions.
    pub open spec fn at_holes(&self, object: Shape) -> Shape {
        place_shape(self.holes(), object)
    }

    /// One layer of the stack: the hull of the screw pads and the speed
    /// controller's footprint, without the screw holes.
    pub open spec fn mid_section(&self) -> Shape {
        Shape::node(
            ElementView::Difference,
            seq![
                Shape::node(
                    ElementView::Hull,
                    seq![
                        self.at_holes(
                            cylinder_shape(
                                self.layer_thickness as int,
                                CircleSizeView::Radius(
                                    quot(SCREW_DIAMETER as int, 2) + self.screw_padding,
                                ),
                            ),
                        ),
                        centered_cube_shape(
                            pos3(
                                self.esc.width as int,
                                self.esc.length as int,
                                self.layer_thickness as int,
                            ),
                            (true, true, false),
                        ),
                    ],
                ),
                self.at_holes(
                    cylinder_shape(
                        self.layer_thickness as int,
                        CircleSizeView::Diameter(SCREW_DIAMETER as int),
                    ),
                ),
            ],
        )
    }

    /// Places a copy of `object` at each of the four screw positions. The
    /// positions are the same whatever the object.
    pub fn place_object_at_holes(&self, object: Node) -> (r: Node)
        requires
            self.wf(),
        ensures
            r@ == self.at_holes(object@),
            shape_placements(r@) == self.holes().placements(),
    {
        let x: i64 = self.esc.width / 2 + self.screw_padding / 2 + SCREW_DIAMETER / 2;
        let y: i64 = self.esc.length / 4;
        let left: i64 = -x;
        let down: i64 = -y;
        let offsets: Vec<Point3> = vec![
            point3(x, y, 0),
            point3(left, y, 0),
            point3(x, down, 0),
            point3(left, down, 0),
        ];
        let pattern = PatternSpec::Offsets(offsets);
        proof {
            assert(pattern@->Offsets_0 =~= self.holes()->Offsets_0);
            lemma_placements_read_back(pattern@, object@);
        }
        place(&pattern, &object)
    }

    /// Builds one layer of the stack.
    pub fn get_mid_section(&self) -> (r: Node)
        requires
            self.wf(),
        ensures
            r@ == self.mid_section(),
    {
        let chamfer_radius: i64 = SCREW_DIAMETER / 2 + self.screw_padding;
        let main = Node::with2(
            Element::Hull,
            self.place_object_at_holes(
                cylinder(self.layer_thickness, CircleSize::Radius(chamfer_radius)),
            ),
            centered_cube(
                point3(self.esc.width, self.esc.length, self.layer_thickness),
                (true, true, false),
            ),
        );
        Node::with2(
            Element::Difference,
            main,
            self.place_object_at_holes(
                cylinder(self.layer_thickness, CircleSize::Diameter(SCREW_DIAMETER)),
            ),
        )
    }
}

/// The cutouts for the camera's two lights, one on each side.
pub open spec fn camera_cushion_led_holes() -> Shape {
    mirror_pair_shape(
        Axis::X,
        moved_shape(
            205_000,
            140_000,
            0,
            centered_cube_shape(pos3(200_000, 20_000, 1_000_000), (true, false, false)),
        ),
    )
}

/// The cushion behind the camera: a pad and a taller block behind it,
/// without the cutouts for the lights.
pub open spec fn camera_cushion() -> Shape {
    Shape::node(
        ElementView::Difference,
        seq![
            Shape::node(
                ElementView::Union,
                seq![
                    centered_cube_shape(pos3(410_000, 160_000, 30_000), (true, false, false)),
                    centered_cube_shape(pos3(200_000, 30_000, 205_000), (true, false, false)),
                ],
            ),
            camera_cushion_led_holes(),
        ],
    )
}

/// Builds the cushion behind the camera.
pub fn get_camera_cushion() -> (r: Node)
    ensures
        r@ == camera_cushion(),
{
    let size_x: i64 = 410_000;
    let size_y: i64 = 160_000;
    let cutout_y: i64 = 20_000;
    let led_hole = moved(
        size_x / 2,
        size_y - cutout_y,
        0,
        centered_cube(point3(200_000, cutout_y, 1_000_000), (true, false, false)),
    );
    Node::with2(
        Element::Difference,
        Node::with2(
            Element::Union,
            centered_cube(point3(size_x, size_y, 30_000), (true, false, false)),
            centered_cube(point3(200_000, 30_000, size_x / 2), (true, false, false)),
        ),
        mirror_pair(Axis::X, &led_hole),
    )
}

} // verus!
