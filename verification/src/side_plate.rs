//! The side plates, their mount on the back arm, and the front bracket.

use vstd::prelude::*;
use crate::body::{print_envelope, within_envelope, TricopterBody};
use crate::geometry::{
    centered_cube, centered_cube_shape, centered_square, centered_square_shape, cylinder,
    cylinder_shape, extruded, extruded_shape, moved, moved_shape, offset, offset_shape, point2,
    point3, polygon, polygon_points, polygon_shape, pos2, pos3, positions, Axis, CircleSize,
    CircleSizeView, Element, ElementView, Node, OffsetKind, OffsetKindView, Point2, Pos3, Shape,
};
use crate::plates::clip_to_envelope;
use crate::solid::{clipped, occupies};
use crate::units::{quot, scale};

verus! {

/// Height of the side plate above the flight controller.
pub const SIDE_PLATE_CENTER_HEIGHT: i64 = 270_000;

/// Length of the side plate's middle section.
pub const SIDE_PLATE_CENTER_LENGTH: i64 = 360_000;

/// Height of the side plate at its front end.
pub const SIDE_PLATE_FRONT_HEIGHT: i64 = 200_000;

/// Distance of the side plate's front end from the hub.
pub const SIDE_PLATE_FRONT_LENGTH: i64 = 450_000;

/// Height of the opening for the speed controllers.
pub const SIDE_PLATE_ESC_HEIGHT: i64 = 60_000;

/// Depth of the grooves that hold the flight controller stack.
pub const SIDE_PLATE_GROOVE_DEPTH: i64 = 15_000;

/// Diameter of the side plate's screw holes.
pub const SIDE_PLATE_SCREW_DIAMETER: i64 = 32_000;

impl TricopterBody {
    /// Room left around the body inside the side plate mount.
    pub open spec fn side_plate_mount_padding() -> int {
        40_000
    }

    /// The mount that holds the side plates on the back arm: a sleeve
    /// around the body's outline with an arch over it, open toward the hub
    /// and cut to length.
    pub open spec fn side_plate_mount_unclipped(&self) -> Shape {
        let padding = Self::side_plate_mount_padding();
        let thickness = self.side_plate_thickness as int;
        let base_height = self.top_height + thickness * 2;
        let arch_width = self.side_plate_arc_width as int;
        let arch_height = self.side_plate_arc_height as int;
        let start = self.back_block_start();
        Shape::node(
            ElementView::Difference,
            seq![
                Shape::node(
                    ElementView::Union,
                    seq![
                        extruded_shape(
                            base_height,
                            offset_shape(
                                OffsetKindView::Delta(thickness + quot(padding, 2)),
                                self.body_shape(),
                            ),
                        ),
                        centered_cube_shape(
                            pos3(1_000_000, arch_width, base_height + arch_height + thickness),
                            (false, true, false),
                        ),
                    ],
                ),
                extruded_shape(
                    base_height - thickness,
                    offset_shape(OffsetKindView::Delta(-50_000), self.body_shape()),
                ),
                moved_shape(
                    0,
                    0,
                    thickness,
                    extruded_shape(
                        self.top_height as int,
                        offset_shape(OffsetKindView::Delta(quot(padding, 2)), self.body_shape()),
                    ),
                ),
                moved_shape(
                    start,
                    0,
                    0,
                    centered_cube_shape(pos3(1_000_000, 1_000_000, 1_000_000), (false, true, true)),
                ),
                moved_shape(
                    start - self.side_plate_mount_length,
                    0,
                    0,
                    Shape::wrap(
                        ElementView::Mirror(Axis::X),
                        centered_cube_shape(
                            pos3(5_000_000, 5_000_000, 5_000_000),
                            (false, true, true),
                        ),
                    ),
                ),
                moved_shape(
                    0,
                    0,
                    thickness * 2,
                    centered_cube_shape(
                        pos3(
                            1_000_000,
                            arch_width - thickness * 2,
                            arch_height + base_height - thickness * 2,
                        ),
                        (false, true, false),
                    ),
                ),
            ],
        )
    }

    /// The side plate mount as it is exported: built as above, and last
    /// of all clipped to the print envelope.
    pub open spec fn side_plate_mount(&self) -> Shape {
        clipped(self.side_plate_mount_unclipped(), print_envelope())
    }

    /// The bracket that braces the two side plates at the front screw: a
    /// nut-shaped post with a flat back, bored through, open between the
    /// plates.
    pub open spec fn front_bracket_unclipped(&self) -> Shape {
        let thickness = self.side_plate_thickness as int;
        let hole_top_offset = self.side_plate_front_screw_top_offset as int;
        let z_size = self.side_plate_arc_width + thickness * 2;
        Shape::node(
            ElementView::Difference,
            seq![
                Shape::node(
                    ElementView::Union,
                    seq![
                        Shape::leaf(ElementView::Nut { width: 90_000, height: z_size }),
                        centered_cube_shape(
                            pos3(90_000, hole_top_offset + thickness, z_size),
                            (true, false, false),
                        ),
                    ],
                ),
                cylinder_shape(z_size, CircleSizeView::Diameter(37_000)),
                moved_shape(
                    0,
                    0,
                    thickness,
                    centered_cube_shape(
                        pos3(1_000_000, hole_top_offset * 2, self.side_plate_arc_width as int),
                        (true, true, false),
                    ),
                ),
            ],
        )
    }

    /// The front bracket as it is exported: built as above, and last
    /// of all clipped to the print envelope.
    pub open spec fn front_bracket(&self) -> Shape {
        clipped(self.front_bracket_unclipped(), print_envelope())
    }

    /// The outline of a side plate before holes are cut.
    pub open spec fn side_plate_outline(&self) -> Shape {
        let back_length = self.back_block_start();
        let back_height = self.side_plate_arc_height as int;
        let thickness = self.side_plate_thickness as int;
        let arch_length = self.side_plate_mount_length as int;
        let half_center = quot(SIDE_PLATE_CENTER_LENGTH as int, 2);
        polygon_shape(
            seq![
                pos2(-back_length, thickness),
                pos2(-back_length, back_height + thickness),
                pos2(-half_center, SIDE_PLATE_CENTER_HEIGHT as int),
                pos2(half_center, SIDE_PLATE_CENTER_HEIGHT as int),
                pos2(SIDE_PLATE_FRONT_LENGTH as int, SIDE_PLATE_FRONT_HEIGHT as int),
                pos2(SIDE_PLATE_FRONT_LENGTH as int, 0),
                pos2(half_center, 0),
                pos2(half_center, SIDE_PLATE_ESC_HEIGHT as int),
                pos2(-half_center, SIDE_PLATE_ESC_HEIGHT as int),
                pos2(-half_center, 0),
                pos2(-(back_length - arch_length), 0),
                pos2(-(back_length - arch_length), thickness),
            ],
        )
    }

    /// The holes through a side plate: two screw holes at the back and the
    /// opening beside the flight controller.
    pub open spec fn side_plate_holes(&self) -> Shape {
        let back_length = self.back_block_start();
        let back_height = self.side_plate_arc_height as int;
        let arch_length = self.side_plate_mount_length as int;
        let hole = Shape::leaf(
            ElementView::Circle(CircleSizeView::Diameter(SIDE_PLATE_SCREW_DIAMETER as int)),
        );
        let back_x = back_length - quot(arch_length, 2);
        Shape::node(
            ElementView::Union,
            seq![
                Shape::wrap(ElementView::Translate2d(pos2(-back_x, quot(back_height, 3))), hole),
                Shape::wrap(
                    ElementView::Translate2d(pos2(-back_x, quot(3 * back_height, 4))),
                    hole,
                ),
                Shape::wrap(
                    ElementView::Translate2d(pos2(0, 140_000)),
                    centered_square_shape(
                        pos2(SIDE_PLATE_CENTER_LENGTH as int, 60_000),
                        (true, true),
                    ),
                ),
            ],
        )
    }

    /// The outline of the two grooves on the inside of a side plate.
    pub open spec fn side_plate_grooves(&self) -> Shape {
        let width = 70_000int;
        let x_offset = SIDE_PLATE_CENTER_LENGTH as int - quot(width, 2);
        let slot = centered_square_shape(pos2(width, 1_000_000), (true, false));
        Shape::node(
            ElementView::Union,
            seq![
                Shape::wrap(ElementView::Translate2d(pos2(-quot(x_offset, 2), 140_000)), slot),
                Shape::wrap(ElementView::Translate2d(pos2(quot(x_offset, 2), 140_000)), slot),
            ],
        )
    }

    /// A shape moved to the front screw of a side plate, on the plate's inside.
    pub open spec fn at_side_plate_front_screw(&self, object: Shape) -> Shape {
        let thickness = self.side_plate_thickness as int;
        let half_center = quot(SIDE_PLATE_CENTER_LENGTH as int, 2);
        let x_offset = half_center + quot(SIDE_PLATE_FRONT_LENGTH as int - half_center, 2);
        let y_offset = SIDE_PLATE_FRONT_HEIGHT as int + quot(
            SIDE_PLATE_CENTER_HEIGHT as int - SIDE_PLATE_FRONT_HEIGHT as int,
            2,
        ) - self.side_plate_front_screw_top_offset as int;
        Shape::wrap(
            ElementView::Mirror(Axis::Z),
            Shape::wrap(ElementView::Translate(pos3(x_offset, y_offset, -thickness)), object),
        )
    }

    /// The boss that holds the front screw's nut.
    pub open spec fn side_plate_nut_boss(&self) -> Shape {
        self.at_side_plate_front_screw(
            Shape::wrap(
                ElementView::Translate(pos3(0, 0, self.side_plate_thickness as int)),
                Shape::leaf(ElementView::Nut { width: 103_000, height: 20_000 }),
            ),
        )
    }

    /// The pocket for the front screw and its nut.
    pub open spec fn side_plate_nut_pocket(&self) -> Shape {
        self.at_side_plate_front_screw(
            Shape::node(
                ElementView::Union,
                seq![
                    Shape::wrap(
                        ElementView::Translate(pos3(0, 0, 15_000)),
                        Shape::leaf(ElementView::Nut { width: 53_000, height: 1_000_000 }),
                    ),
                    Shape::leaf(
                        ElementView::Cylinder(
                            1_000_000,
                            CircleSizeView::Diameter(SIDE_PLATE_SCREW_DIAMETER as int),
                        ),
                    ),
                ],
            ),
        )
    }

    /// A side plate: the outline without its holes, as thick as the plate,
    /// with the nut boss added, then the grooves and the nut pocket removed.
    pub open spec fn side_plate_unclipped(&self) -> Shape {
        Shape::node(
            ElementView::Difference,
            seq![
                Shape::node(
                    ElementView::Union,
                    seq![
                        extruded_shape(
                            self.side_plate_thickness as int,
                            Shape::node(
                                ElementView::Difference,
                                seq![self.side_plate_outline(), self.side_plate_holes()],
                            ),
                        ),
                        self.side_plate_nut_boss(),
                    ],
                ),
                extruded_shape(SIDE_PLATE_GROOVE_DEPTH as int, self.side_plate_grooves()),
                self.side_plate_nut_pocket(),
            ],
        )
    }

    /// A side plate as it is exported: built as above, and last
    /// of all clipped to the print envelope.
    pub open spec fn side_plate(&self) -> Shape {
        clipped(self.side_plate_unclipped(), print_envelope())
    }

    /// Builds a side plate, clipped to the print envelope as its last step.
    /// Nothing of it lies outside the envelope.
    pub fn side_plate_shape(&self) -> (r: Node)
        requires
            self.wf(),
        ensures
            r@ == self.side_plate(),
            forall|reading: spec_fn(Shape, Pos3) -> bool, p: Pos3| #[trigger]
                occupies(r@, reading, p) ==> within_envelope(p),
    {
        let back_length: i64 = scale(self.radius, self.back_block_length_factor);
        let back_height: i64 = self.side_plate_arc_height;
        let thickness: i64 = self.side_plate_thickness;
        let arch_length: i64 = self.side_plate_mount_length;
        let half_center: i64 = SIDE_PLATE_CENTER_LENGTH / 2;

        let back_end: i64 = -back_length;
        let arch_end: i64 = -(back_length - arch_length);
        let center_back: i64 = -half_center;
        let points: Vec<Point2> = vec![
            point2(back_end, thickness),
            point2(back_end, back_height + thickness),
            point2(center_back, SIDE_PLATE_CENTER_HEIGHT),
            point2(half_center, SIDE_PLATE_CENTER_HEIGHT),
            point2(SIDE_PLATE_FRONT_LENGTH, SIDE_PLATE_FRONT_HEIGHT),
            point2(SIDE_PLATE_FRONT_LENGTH, 0),
            point2(half_center, 0),
            point2(half_center, SIDE_PLATE_ESC_HEIGHT),
            point2(center_back, SIDE_PLATE_ESC_HEIGHT),
            point2(center_back, 0),
            point2(arch_end, 0),
            point2(arch_end, thickness),
        ];
        assert(positions(points@) =~= polygon_points(self.side_plate_outline()));
        let outline = polygon(points);

        let back_x: i64 = back_length - arch_length / 2;
        let holes = Node::with3(
            Element::Union,
            Node::wrap(
                Element::Translate2d(point2(-back_x, back_height / 3)),
                Node::leaf(Element::Circle(CircleSize::Diameter(SIDE_PLATE_SCREW_DIAMETER))),
            ),
            Node::wrap(
                Element::Translate2d(point2(-back_x, 3 * back_height / 4)),
                Node::leaf(Element::Circle(CircleSize::Diameter(SIDE_PLATE_SCREW_DIAMETER))),
            ),
            Node::wrap(
                Element::Translate2d(point2(0, 140_000)),
                centered_square(point2(SIDE_PLATE_CENTER_LENGTH, 60_000), (true, true)),
            ),
        );

        let width: i64 = 70_000;
        let x_offset: i64 = SIDE_PLATE_CENTER_LENGTH - width / 2;
        let grooves = Node::with2(
            Element::Union,
            Node::wrap(
                Element::Translate2d(point2(-(x_offset / 2), 140_000)),
                centered_square(point2(width, 1_000_000), (true, false)),
            ),
            Node::wrap(
                Element::Translate2d(point2(x_offset / 2, 140_000)),
                centered_square(point2(width, 1_000_000), (true, false)),
            ),
        );

        let screw_x: i64 = half_center + (SIDE_PLATE_FRONT_LENGTH - half_center) / 2;
        let screw_y: i64 = SIDE_PLATE_FRONT_HEIGHT + (SIDE_PLATE_CENTER_HEIGHT
            - SIDE_PLATE_FRONT_HEIGHT) / 2 - self.side_plate_front_screw_top_offset;
        let nut_boss = Node::wrap(
            Element::Mirror(Axis::Z),
            Node::wrap(
                Element::Translate(point3(screw_x, screw_y, -thickness)),
                Node::wrap(
                    Element::Translate(point3(0, 0, thickness)),
                    Node::leaf(Element::Nut { width: 103_000, height: 20_000 }),
                ),
            ),
        );
        let nut_pocket = Node::wrap(
            Element::Mirror(Axis::Z),
            Node::wrap(
                Element::Translate(point3(screw_x, screw_y, -thickness)),
                Node::with2(
                    Element::Union,
                    Node::wrap(
                        Element::Translate(point3(0, 0, 15_000)),
                        Node::leaf(Element::Nut { width: 53_000, height: 1_000_000 }),
                    ),
                    Node::leaf(
                        Element::Cylinder(
                            1_000_000,
                            CircleSize::Diameter(SIDE_PLATE_SCREW_DIAMETER),
                        ),
                    ),
                ),
            ),
        );

        let part = Node::with3(
            Element::Difference,
            Node::with2(
                Element::Union,
                extruded(thickness, Node::with2(Element::Difference, outline, holes)),
                nut_boss,
            ),
            extruded(SIDE_PLATE_GROOVE_DEPTH, grooves),
            nut_pocket,
        );
        clip_to_envelope(part)
    }

    /// Builds the mount that holds the side plates on the back arm, clipped
    /// to the print envelope as its last step. Nothing of it lies outside
    /// the envelope.
    pub fn get_side_plate_mount(&self) -> (r: Node)
        requires
            self.wf(),
        ensures
            r@ == self.side_plate_mount(),
            forall|reading: spec_fn(Shape, Pos3) -> bool, p: Pos3| #[trigger]
                occupies(r@, reading, p) ==> within_envelope(p),
    {
        let padding: i64 = 40_000;
        let thickness: i64 = self.side_plate_thickness;
        let base_height: i64 = self.top_height + thickness * 2;
        let length: i64 = self.side_plate_mount_length;
        let arch_width: i64 = self.side_plate_arc_width;
        let arch_height: i64 = self.side_plate_arc_height;
        let start: i64 = scale(self.radius, self.back_block_length_factor);

        let base_extruded = extruded(
            base_height,
            offset(OffsetKind::Delta(thickness + padding / 2), self.get_body_shape()),
        );
        let inner_cutout = extruded(
            base_height - thickness,
            offset(OffsetKind::Delta(-50_000), self.get_body_shape()),
        );
        let inner_inner_cutout = moved(
            0,
            0,
            thickness,
            extruded(
                self.top_height,
                offset(OffsetKind::Delta(padding / 2), self.get_body_shape()),
            ),
        );
        let back_cutout = moved(
            start,
            0,
            0,
            centered_cube(point3(1_000_000, 1_000_000, 1_000_000), (false, true, true)),
        );
        let front_cutout = moved(
            start - length,
            0,
            0,
            Node::wrap(
                Element::Mirror(Axis::X),
                centered_cube(point3(5_000_000, 5_000_000, 5_000_000), (false, true, true)),
            ),
        );
        let arch_outer = centered_cube(
            point3(1_000_000, arch_width, base_height + arch_height + thickness),
            (false, true, false),
        );
        let arch_inner = moved(
            0,
            0,
            thickness * 2,
            centered_cube(
                point3(
                    1_000_000,
                    arch_width - thickness * 2,
                    arch_height + base_height - thickness * 2,
                ),
                (false, true, false),
            ),
        );
        let part = Node::with6(
            Element::Difference,
            Node::with2(Element::Union, base_extruded, arch_outer),
            inner_cutout,
            inner_inner_cutout,
            back_cutout,
            front_cutout,
            arch_inner,
        );
        clip_to_envelope(part)
    }

    /// Builds the bracket that braces the two side plates at the front
    /// screw, clipped to the print envelope as its last step. Nothing of it
    /// lies outside the envelope.
    pub fn side_plate_front_bracket(&self) -> (r: Node)
        requires
            self.wf(),
        ensures
            r@ == self.front_bracket(),
            forall|reading: spec_fn(Shape, Pos3) -> bool, p: Pos3| #[trigger]
                occupies(r@, reading, p) ==> within_envelope(p),
    {
        let thickness: i64 = self.side_plate_thickness;
        let hole_top_offset: i64 = self.side_plate_front_screw_top_offset;
        let hole_diameter: i64 = 37_000;
        let width: i64 = 90_000;
        let z_size: i64 = self.side_plate_arc_width + thickness * 2;
        let shape = Node::with2(
            Element::Union,
            Node::leaf(Element::Nut { width, height: z_size }),
            centered_cube(point3(width, hole_top_offset + thickness, z_size), (true, false, false)),
        );
        let hole = cylinder(z_size, CircleSize::Diameter(hole_diameter));
        let cutout = moved(
            0,
            0,
            thickness,
            centered_cube(
                point3(1_000_000, hole_top_offset * 2, self.side_plate_arc_width),
                (true, true, false),
            ),
        );
        let part = Node::with3(Element::Difference, shape, hole, cutout);
        clip_to_envelope(part)
    }
}

} // verus!
