//! Screw holes, wire holes and screw tabs of the frame body.
//!
//! Whatever is placed at screws comes in pairs: the material around a screw
//! and the hole through it. Each pair of builders shares one `place_object_at`
//! function, which fixes where the screws are.

use vstd::prelude::*;
use crate::boards::BoardCamera;
use crate::body::{TricopterBody, ARM_SPACING, SCREW_DIAMETER};
use crate::geometry::{
    centered_cube, centered_cube_shape, circle, circle_shape, cylinder, cylinder_shape, moved,
    moved2d, moved2d_shape, moved_shape, point2, point3, pos2, pos3, turned, turned_shape, Angle,
    AngleView, Axis, CircleSize, CircleSizeView, Element, ElementView, Node, Point2, Point3, Pos3,
    Shape,
};
use crate::placement::{
    lemma_placements_read_back, mirror_pair, place, place_shape, place_under, place_under_shape,
    shape_placements, PatternSpec, PatternView, PlacementView,
};
use crate::solid::{lemma_mirror_pair_symmetric, mirror_pair_shape, occupies, reflect};
use crate::units::{quot, scale};

verus! {

/// The slots for one cable tie: two cuts of the given height, two
/// millimetres to either side of the origin, turned about z.
pub open spec fn cable_tie_hole(height: int, z_rotation: int) -> Shape {
    let cut = moved_shape(
        20_000,
        0,
        0,
        Shape::leaf(ElementView::Cube(pos3(30_000, 40_000, height))),
    );
    Shape::node(
        ElementView::Rotate(AngleView::Fixed(z_rotation), Axis::Z),
        seq![cut, Shape::wrap(ElementView::Mirror(Axis::X), cut)],
    )
}

/// Builds the slots for one cable tie.
pub fn get_cable_tie_hole(height: i64, z_rotation: i64) -> (r: Node)
    ensures
        r@ == cable_tie_hole(height as int, z_rotation as int),
{
    let separation: i64 = 40_000;
    let length: i64 = 40_000;
    let hole_width: i64 = 30_000;
    let cutout = Node::leaf(Element::Cube(point3(hole_width, length, height)));
    let translated = moved(separation / 2, 0, 0, cutout);
    let mirrored = Node::wrap(Element::Mirror(Axis::X), translated.duplicate());
    Node::with2(
        Element::Rotate(Angle::Fixed(z_rotation), Axis::Z),
        translated,
        mirrored,
    )
}

impl TricopterBody {
    /// The two screw holes of one front arm, turned to the arm: one through
    /// the arm where it is mounted, one beside it that stops it.
    pub open spec fn front_arm_screw_holes_one_side(&self) -> Shape {
        let hole = cylinder_shape(self.height as int, CircleSizeView::Diameter(SCREW_DIAMETER as int));
        Shape::node(
            ElementView::Rotate(AngleView::Fixed(ARM_SPACING as int), Axis::Z),
            seq![
                moved_shape(self.radius - 250_000, 0, 0, hole),
                moved_shape(
                    self.radius - 80_000,
                    quot(self.arm_width as int, 2) + quot(SCREW_DIAMETER as int, 2),
                    0,
                    hole,
                ),
            ],
        )
    }

    /// The screw holes of the two front arms: those of one arm and their
    /// mirror image.
    pub open spec fn front_arm_screw_holes(&self) -> Shape {
        mirror_pair_shape(Axis::Y, self.front_arm_screw_holes_one_side())
    }

    /// Three screw holes through the bottom part: one on the x axis and one
    /// to either side, clear of the arm.
    pub open spec fn center_screwholes(&self) -> Shape {
        let hole = cylinder_shape(
            self.bottom_total_height(),
            CircleSizeView::Diameter(SCREW_DIAMETER as int),
        );
        let beside = moved_shape(
            0,
            quot(self.arm_width as int, 2) + SCREW_DIAMETER + 10_000,
            0,
            hole,
        );
        Shape::node(
            ElementView::Union,
            seq![beside, Shape::wrap(ElementView::Mirror(Axis::Y), beside), hole],
        )
    }

    /// The screw holes through the back mount block.
    pub open spec fn back_screwholes(&self) -> Shape {
        moved_shape(quot(self.radius * 7, 8), 0, 0, self.center_screwholes())
    }

    /// Where the motor wires pass the back block, on the positive side.
    pub open spec fn motor_wire_hole_position(&self) -> Pos3 {
        pos3(
            quot(self.radius * 3, 4),
            quot(self.arm_width as int, 2) + self.motor_wire_hole_radius + 15_000,
            0,
        )
    }

    /// An object at the motor wire hole and its mirror image on the other
    /// side of the arm.
    pub open spec fn at_motor_wire_holes(&self, object: Shape) -> Shape {
        mirror_pair_shape(
            Axis::Y,
            Shape::wrap(ElementView::Translate(self.motor_wire_hole_position()), object),
        )
    }

    /// The motor wire holes through the top plate, each with a shallow
    /// recess for a sealing ring.
    pub open spec fn top_plate_motor_wire_hole(&self) -> Shape {
        Shape::node(
            ElementView::Union,
            seq![
                self.at_motor_wire_holes(
                    cylinder_shape(
                        self.height as int,
                        CircleSizeView::Radius(self.motor_wire_hole_radius as int),
                    ),
                ),
                self.at_motor_wire_holes(
                    cylinder_shape(
                        10_000,
                        CircleSizeView::Radius(self.motor_wire_hole_radius + 20_000),
                    ),
                ),
            ],
        )
    }

    /// The hole for the battery wires, in front of the flight controller.
    pub open spec fn battery_wire_hole(&self) -> Shape {
        moved_shape(
            -quot(self.radius as int, 3),
            0,
            0,
            cylinder_shape(self.height as int, CircleSizeView::Radius(40_000)),
        )
    }

    /// The hole for the camera lens, lying along x at the front, `z_offset`
    /// above the plane.
    pub open spec fn camera_lens_hole(&self, z_offset: int) -> Shape {
        let camera = BoardCamera::defaults();
        moved_shape(
            -(self.front_section_length - quot(camera.lens_length as int, 2)),
            0,
            z_offset,
            turned_shape(-90_000, Axis::Y, camera.lens_hole()),
        )
    }

    /// One slot for the battery strap, on the positive side.
    pub open spec fn battery_strap_hole(&self) -> Shape {
        moved_shape(
            0,
            170_000,
            0,
            centered_cube_shape(pos3(270_000, 40_000, self.height as int), (true, true, false)),
        )
    }

    /// The two slots for the battery strap: one and its mirror image.
    pub open spec fn battery_strap_holes(&self) -> Shape {
        mirror_pair_shape(Axis::Y, self.battery_strap_hole())
    }

    /// Where the two front mounting screws are, seen from the point between
    /// them.
    pub open spec fn front_mount_locations(&self) -> PatternView {
        let y = quot(self.front_section_width as int, 2) + self.mounting_screw_outline_radius;
        PatternView::Offsets(seq![pos3(0, y, 0), pos3(0, -y, 0)])
    }

    /// Copies of `object` at the two front mounting screws.
    pub open spec fn at_front_mount_locations(&self, object: Shape) -> Shape {
        place_under_shape(
            ElementView::Translate(pos3(-quot(self.front_section_length * 11, 16), 0, 0)),
            self.front_mount_locations(),
            object,
        )
    }

    /// The outline of the tab that carries the two front mounting screws.
    pub open spec fn front_screw_tab_outline(&self) -> Shape {
        Shape::wrap(
            ElementView::Hull,
            self.at_front_mount_locations(
                circle_shape(CircleSizeView::Radius(self.mounting_screw_outline_radius as int)),
            ),
        )
    }

    /// Discs of the given size at the two front mounting screws.
    pub open spec fn front_screwholes(&self, size: CircleSizeView) -> Shape {
        self.at_front_mount_locations(circle_shape(size))
    }

    /// Where the two back mounting screws are, seen from the point between
    /// them.
    pub open spec fn back_screwhole_locations(&self) -> PatternView {
        let y = quot(quot(self.outer_width * 7, 8), 2);
        PatternView::Offsets2d(seq![pos2(0, y), pos2(0, -y)])
    }

    /// Copies of `object` at the two back mounting screws.
    pub open spec fn at_back_screwholes(&self, object: Shape) -> Shape {
        place_shape(self.back_screwhole_locations(), object)
    }

    /// The outline of the two tabs that carry the back mounting screws.
    pub open spec fn back_screw_tab_outline(&self) -> Shape {
        let r = self.mounting_screw_outline_radius as int;
        let pad = circle_shape(CircleSizeView::Radius(r));
        Shape::wrap(
            ElementView::Difference,
            self.at_back_screwholes(
                Shape::node(
                    ElementView::Hull,
                    seq![
                        moved2d_shape(self.radius - r, 0, pad),
                        moved2d_shape(self.radius + r, 0, pad),
                    ],
                ),
            ),
        )
    }

    /// Discs of the given size at the two back mounting screws.
    pub open spec fn back_screwhole_circles(&self, size: CircleSizeView) -> Shape {
        Shape::wrap(
            ElementView::Difference,
            self.at_back_screwholes(
                moved2d_shape(
                    self.radius + self.mounting_screw_outline_radius,
                    0,
                    circle_shape(size),
                ),
            ),
        )
    }

    /// The channel that leads the motor wires through the back block: down
    /// from the top, around a bend, and out toward the hub.
    pub open spec fn back_block_cable_hole(&self) -> Shape {
        let height = quot(self.bottom_total_height() * 3, 8);
        let size = CircleSizeView::Radius(self.motor_wire_hole_radius as int);
        Shape::node(
            ElementView::Translate(pos3(0, 0, self.bottom_total_height() - height)),
            seq![
                cylinder_shape(height, size),
                Shape::leaf(ElementView::Sphere(size)),
                turned_shape(
                    -90_000,
                    Axis::Y,
                    cylinder_shape(quot(self.back_block_start(), 2), size),
                ),
            ],
        )
    }

    /// Where the cable ties go: two beside the front section and one beside
    /// the back arm.
    pub open spec fn cable_tie_locations(&self) -> PatternView {
        let front_x = -quot(self.front_section_length as int, 3);
        PatternView::Offsets(
            seq![
                pos3(front_x, quot(self.inner_width as int, 2), 0),
                pos3(front_x, -quot(self.inner_width as int, 2), 0),
                pos3(quot(self.radius as int, 3), quot(self.outer_width as int, 2), 0),
            ],
        )
    }

    /// The slots for the cable ties through the bottom plate.
    pub open spec fn cable_tie_holes(&self) -> Shape {
        place_shape(self.cable_tie_locations(), cable_tie_hole(self.height as int, 90_000))
    }

    /// Builds the screw holes of the two front arms.
    pub fn get_front_arm_screw_holes(&self) -> (r: Node)
        requires
            self.wf(),
        ensures
            r@ == self.front_arm_screw_holes(),
    {
        let stopper_screw_distance: i64 = self.radius - 80_000;
        let mount_screw_offset: i64 = self.radius - 250_000;
        let mount_hole = moved(
            mount_screw_offset,
            0,
            0,
            cylinder(self.height, CircleSize::Diameter(SCREW_DIAMETER)),
        );
        let stopper_hole = moved(
            stopper_screw_distance,
            self.arm_width / 2 + SCREW_DIAMETER / 2,
            0,
            cylinder(self.height, CircleSize::Diameter(SCREW_DIAMETER)),
        );
        let rotated = Node::with2(
            Element::Rotate(Angle::Fixed(ARM_SPACING), Axis::Z),
            mount_hole,
            stopper_hole,
        );
        mirror_pair(Axis::Y, &rotated)
    }

    /// Builds the screw holes through the back mount block.
    pub fn get_back_screwholes(&self) -> (r: Node)
        requires
            self.wf(),
        ensures
            r@ == self.back_screwholes(),
    {
        let x_offset: i64 = self.radius * 7 / 8;
        moved(x_offset, 0, 0, self.get_center_screwholes())
    }

    /// Builds three screw holes about the x axis.
    pub fn get_center_screwholes(&self) -> (r: Node)
        requires
            self.wf(),
        ensures
            r@ == self.center_screwholes(),
    {
        let y_offset: i64 = self.arm_width / 2 + SCREW_DIAMETER + 10_000;
        let height: i64 = self.get_bottom_total_height();
        let beside = moved(
            0,
            y_offset,
            0,
            cylinder(height, CircleSize::Diameter(SCREW_DIAMETER)),
        );
        let mirrored = Node::wrap(Element::Mirror(Axis::Y), beside.duplicate());
        Node::with3(
            Element::Union,
            beside,
            mirrored,
            cylinder(height, CircleSize::Diameter(SCREW_DIAMETER)),
        )
    }

    /// Places `object` at the motor wire hole and its mirror image on the
    /// other side of the arm. The positions are the same whatever the object.
    pub fn place_object_at_motor_wire_holes(&self, object: Node) -> (r: Node)
        requires
            self.wf(),
        ensures
            r@ == self.at_motor_wire_holes(object@),
            shape_placements(r@) == seq![
                PlacementView::Shift(self.motor_wire_hole_position()),
                PlacementView::Flip(Axis::Y),
            ],
    {
        let padding: i64 = 15_000;
        let hole_x: i64 = self.radius * 3 / 4;
        let hole_y: i64 = self.arm_width / 2 + self.motor_wire_hole_radius + padding;
        let translated = moved(hole_x, hole_y, 0, object);
        let r = mirror_pair(Axis::Y, &translated);
        assert(shape_placements(r@) =~= seq![
            PlacementView::Shift(self.motor_wire_hole_position()),
            PlacementView::Flip(Axis::Y),
        ]);
        r
    }

    /// Builds the motor wire holes through the top plate.
    pub fn get_top_plate_motor_wire_hole(&self) -> (r: Node)
        requires
            self.wf(),
        ensures
            r@ == self.top_plate_motor_wire_hole(),
    {
        let hole = cylinder(self.height, CircleSize::Radius(self.motor_wire_hole_radius));
        let o_ring_radius: i64 = self.motor_wire_hole_radius + 20_000;
        let o_ring_height: i64 = 10_000;
        let o_ring_hole = cylinder(o_ring_height, CircleSize::Radius(o_ring_radius));
        Node::with2(
            Element::Union,
            self.place_object_at_motor_wire_holes(hole),
            self.place_object_at_motor_wire_holes(o_ring_hole),
        )
    }

    /// Builds the hole for the battery wires.
    pub fn get_battery_wire_hole(&self) -> (r: Node)
        ensures
            r@ == self.battery_wire_hole(),
    {
        let radius: i64 = 40_000;
        let x: i64 = -(self.radius / 3);
        moved(x, 0, 0, cylinder(self.height, CircleSize::Radius(radius)))
    }

    /// Builds the hole for the camera lens, `z_offset` above the plane.
    pub fn get_camera_lens_hole(&self, z_offset: i64) -> (r: Node)
        requires
            self.wf(),
        ensures
            r@ == self.camera_lens_hole(z_offset as int),
    {
        let camera_board = BoardCamera::new();
        let offset: i64 = -(self.front_section_length - camera_board.lens_length / 2);
        let hole = camera_board.get_lens_hole();
        moved(offset, 0, z_offset, turned(-90_000, Axis::Y, hole))
    }

    /// Builds the two slots for the battery strap.
    pub fn get_battery_strap_holes(&self) -> (r: Node)
        ensures
            r@ == self.battery_strap_holes(),
    {
        let y_separation: i64 = 170_000;
        let x_size: i64 = 270_000;
        let y_size: i64 = 40_000;
        let cube = centered_cube(point3(x_size, y_size, self.height), (true, true, false));
        let translated = moved(0, y_separation, 0, cube);
        mirror_pair(Axis::Y, &translated)
    }

    /// Places a copy of `object` at each of the two front mounting screws.
    /// The positions are the same whatever the object.
    pub fn place_object_at_front_mount_locations(&self, object: Node) -> (r: Node)
        requires
            self.wf(),
        ensures
            r@ == self.at_front_mount_locations(object@),
            shape_placements(r@) == self.front_mount_locations().placements(),
    {
        let offset_from_side: i64 = self.mounting_screw_outline_radius;
        let x_offset: i64 = -(self.front_section_length * 11 / 16);
        let y_separation: i64 = self.front_section_width / 2 + offset_from_side;
        let other_side: i64 = -y_separation;
        let offsets: Vec<Point3> = vec![point3(0, y_separation, 0), point3(0, other_side, 0)];
        let pattern = PatternSpec::Offsets(offsets);
        proof {
            assert(pattern@->Offsets_0 =~= self.front_mount_locations()->Offsets_0);
            lemma_placements_read_back(pattern@, object@);
        }
        let r = place_under(Element::Translate(point3(x_offset, 0, 0)), &pattern, &object);
        assert(shape_placements(r@) =~= shape_placements(place_shape(pattern@, object@)));
        r
    }

    /// Builds the outline of the tab that carries the front mounting screws.
    pub fn get_front_screw_tab_outline(&self) -> (r: Node)
        requires
            self.wf(),
        ensures
            r@ == self.front_screw_tab_outline(),
    {
        let outline_circle = circle(CircleSize::Radius(self.mounting_screw_outline_radius));
        Node::wrap(Element::Hull, self.place_object_at_front_mount_locations(outline_circle))
    }

    /// Builds discs of the given size at the two front mounting screws.
    pub fn get_front_screwholes(&self, size: CircleSize) -> (r: Node)
        requires
            self.wf(),
        ensures
            r@ == self.front_screwholes(size@),
    {
        self.place_object_at_front_mount_locations(circle(size))
    }

    /// Builds the outline of the tabs that carry the back mounting screws.
    pub fn get_back_screw_tab_outline(&self) -> (r: Node)
        requires
            self.wf(),
        ensures
            r@ == self.back_screw_tab_outline(),
    {
        let outline_radius: i64 = self.mounting_screw_outline_radius;
        let x_start: i64 = self.radius - outline_radius;
        let x_end: i64 = self.radius + outline_radius;
        let hull = Node::with2(
            Element::Hull,
            moved2d(x_start, 0, circle(CircleSize::Radius(outline_radius))),
            moved2d(x_end, 0, circle(CircleSize::Radius(outline_radius))),
        );
        Node::wrap(Element::Difference, self.place_object_at_back_screwholes(hull))
    }

    /// Builds discs of the given size at the two back mounting screws.
    pub fn circle_at_back_screwholes(&self, size: CircleSize) -> (r: Node)
        requires
            self.wf(),
        ensures
            r@ == self.back_screwhole_circles(size@),
    {
        let x_end: i64 = self.radius + self.mounting_screw_outline_radius;
        let hole = moved2d(x_end, 0, circle(size));
        Node::wrap(Element::Difference, self.place_object_at_back_screwholes(hole))
    }

    /// Places a copy of `object` at each of the two back mounting screws.
    /// The positions are the same whatever the object.
    pub fn place_object_at_back_screwholes(&self, object: Node) -> (r: Node)
        requires
            self.wf(),
        ensures
            r@ == self.at_back_screwholes(object@),
            shape_placements(r@) == self.back_screwhole_locations().placements(),
    {
        let y_separation: i64 = self.outer_width * 7 / 8;
        let other_side: i64 = -(y_separation / 2);
        let offsets: Vec<Point2> = vec![point2(0, y_separation / 2), point2(0, other_side)];
        let pattern = PatternSpec::Offsets2d(offsets);
        proof {
            assert(pattern@->Offsets2d_0 =~= self.back_screwhole_locations()->Offsets2d_0);
            lemma_placements_read_back(pattern@, object@);
        }
        place(&pattern, &object)
    }

    /// Builds the channel that leads the motor wires through the back block.
    pub fn get_back_block_cable_hole(&self) -> (r: Node)
        requires
            self.wf(),
        ensures
            r@ == self.back_block_cable_hole(),
    {
        let total: i64 = self.get_bottom_total_height();
        let height: i64 = total * 3 / 8;
        let size = CircleSize::Radius(self.motor_wire_hole_radius);
        let bottom_length: i64 = scale(self.radius, self.back_block_length_factor) / 2;
        let horizontal_cylinder = turned(-90_000, Axis::Y, cylinder(bottom_length, size));
        let z_position: i64 = total - height;
        Node::with3(
            Element::Translate(point3(0, 0, z_position)),
            cylinder(height, size),
            Node::leaf(Element::Sphere(size)),
            horizontal_cylinder,
        )
    }

    /// Builds the slots for the cable ties through the bottom plate.
    pub fn get_cable_tie_holes(&self) -> (r: Node)
        ensures
            r@ == self.cable_tie_holes(),
            shape_placements(r@) == self.cable_tie_locations().placements(),
    {
        let front_y_separation: i64 = self.inner_width;
        let front_x_offset: i64 = -(self.front_section_length / 3);
        let back_x: i64 = self.radius / 3;
        let back_y: i64 = self.outer_width / 2;
        let front_low: i64 = -(front_y_separation / 2);
        let offsets: Vec<Point3> = vec![
            point3(front_x_offset, front_y_separation / 2, 0),
            point3(front_x_offset, front_low, 0),
            point3(back_x, back_y, 0),
        ];
        let pattern = PatternSpec::Offsets(offsets);
        let hole = get_cable_tie_hole(self.height, 90_000);
        proof {
            assert(pattern@->Offsets_0 =~= self.cable_tie_locations()->Offsets_0);
            lemma_placements_read_back(pattern@, hole@);
        }
        place(&pattern, &hole)
    }

    /// The screw holes of the front arms reach as far to one side of the
    /// frame's centre line as to the other.
    pub proof fn lemma_front_arm_screw_holes_symmetric(
        &self,
        reading: spec_fn(Shape, Pos3) -> bool,
        p: Pos3,
    )
        ensures
            occupies(self.front_arm_screw_holes(), reading, p) == occupies(
                self.front_arm_screw_holes(),
                reading,
                reflect(Axis::Y, p),
            ),
    {
        lemma_mirror_pair_symmetric(Axis::Y, self.front_arm_screw_holes_one_side(), reading, p);
    }

    /// The battery strap slots reach as far to one side of the frame's
    /// centre line as to the other.
    pub proof fn lemma_battery_strap_holes_symmetric(
        &self,
        reading: spec_fn(Shape, Pos3) -> bool,
        p: Pos3,
    )
        ensures
            occupies(self.battery_strap_holes(), reading, p) == occupies(
                self.battery_strap_holes(),
                reading,
                reflect(Axis::Y, p),
            ),
    {
        lemma_mirror_pair_symmetric(Axis::Y, self.battery_strap_hole(), reading, p);
    }
}

} // verus!
