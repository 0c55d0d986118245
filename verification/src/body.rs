//! The frame body: its dimensions, the outline of its arms and sections, the
//! camera box, and the print envelope.

use vstd::prelude::*;
use crate::geometry::{
    centered_cube, centered_cube_shape, offset, offset_shape, point2, point3, polygon, polygon_path,
    polygon_path_shape, polygon_points, polygon_shape, polygon_with_path, pos2, pos3, positions,
    turned_shape, Axis, ElementView, Node, OffsetKind, OffsetKindView, Point2, Pos3, Shape,
};
use crate::placement::{mirror_pair, place, PatternSpec};
use crate::solid::{lemma_mirror_pair_symmetric, mirror_pair_shape, occupies, reflect};
use crate::units::{in_range, quot, scale, scaled};
use crate::walls::{lemma_wall_faces, wall, wall_face_amount, wall_face_outline, wall_shape};

verus! {

/// Diameter of the clearance holes for the frame's screws.
pub const SCREW_DIAMETER: i64 = 35_000;

/// Angle between neighbouring arms.
pub const ARM_SPACING: i64 = 120_000;

/// Widest a part may be to fit the printer's bed.
pub const ENVELOPE_WIDTH: i64 = 1_400_000;

/// Length of the print envelope, far beyond any part.
pub const ENVELOPE_LENGTH: i64 = 100_000_000;

/// Height of the print envelope above the bed.
pub const ENVELOPE_HEIGHT: i64 = 10_000_000;

/// The outline of one arm: a quadrilateral from the hub, where it is
/// `inner_width` wide, to the tip at `length`, where it is `outer_width` wide.
pub open spec fn body_section(inner_width: int, outer_width: int, length: int) -> Shape {
    polygon_shape(
        seq![
            pos2(0, -quot(inner_width, 2)),
            pos2(0, quot(inner_width, 2)),
            pos2(length, quot(outer_width, 2)),
            pos2(length, -quot(outer_width, 2)),
        ],
    )
}

/// Builds the outline of one arm.
pub fn get_body_section(inner_width: i64, outer_width: i64, length: i64) -> (r: Node)
    ensures
        r@ == body_section(inner_width as int, outer_width as int, length as int),
{
    let inner_low: i64 = -(inner_width / 2);
    let outer_low: i64 = -(outer_width / 2);
    let points: Vec<Point2> = vec![
        point2(0, inner_low),
        point2(0, inner_width / 2),
        point2(length, outer_width / 2),
        point2(length, outer_low),
    ];
    assert(positions(points@) =~= polygon_points(
        body_section(inner_width as int, outer_width as int, length as int),
    ));
    polygon(points)
}

/// The box that no printable part may leave: as wide as the printer's bed,
/// standing on the plane.
pub open spec fn print_envelope() -> Shape {
    centered_cube_shape(
        pos3(ENVELOPE_LENGTH as int, ENVELOPE_WIDTH as int, ENVELOPE_HEIGHT as int),
        (true, true, false),
    )
}

/// Builds the box that no printable part may leave.
pub fn envelope_box() -> (r: Node)
    ensures
        r@ == print_envelope(),
{
    centered_cube(point3(ENVELOPE_LENGTH, ENVELOPE_WIDTH, ENVELOPE_HEIGHT), (true, true, false))
}

/// Whether a lattice point lies inside the print envelope.
pub open spec fn within_envelope(p: Pos3) -> bool {
    &&& -ENVELOPE_LENGTH / 2 <= p.x <= ENVELOPE_LENGTH / 2
    &&& -ENVELOPE_WIDTH / 2 <= p.y <= ENVELOPE_WIDTH / 2
    &&& 0 <= p.z <= ENVELOPE_HEIGHT
}

/// The print envelope covers exactly the points within its bounds.
pub proof fn lemma_print_envelope(
    reading: spec_fn(Shape, Pos3) -> bool,
    p: Pos3,
)
    ensures
        occupies(print_envelope(), reading, p) == within_envelope(p),
{
    let envelope = print_envelope();
    let cube = envelope.children[0];
    let q = Pos3 {
        x: p.x + ENVELOPE_LENGTH / 2,
        y: p.y + ENVELOPE_WIDTH / 2,
        z: p.z,
    };
    assert(occupies(cube, reading, q) == within_envelope(p));
    if within_envelope(p) {
        assert(occupies(envelope.children[0], reading, q));
    }
}

/// The dimensions of the frame body, its canopy and its side plates.
///
/// Lengths are tenths of a micrometre; `back_block_length_factor` is
/// thousandths.
#[derive(Clone, Copy, Debug, PartialEq, Eq)]
pub struct TricopterBody {
    /// Length of an arm, from the hub to its tip.
    pub radius: i64,
    /// Thickness of the top plate where the side plate mount clasps it.
    pub top_height: i64,
    /// Thickness of a plate.
    pub height: i64,
    /// Width of a front arm at its tip.
    pub outer_width: i64,
    /// Width of the back arm at its tip.
    pub back_outer_width: i64,
    /// Width of every arm at the hub.
    pub inner_width: i64,
    /// Width of the mid section at the hub.
    pub center_width: i64,
    /// Fraction of the arm length at which the back mount block starts.
    pub back_block_length_factor: i64,
    /// Width of the booms that the arms carry.
    pub arm_width: i64,
    /// Distance of the front blocks from the hub.
    pub front_block_x: i64,
    /// Width of the front section; by default that of the arms at the hub.
    pub front_section_width: i64,
    /// Length of the front section, from the hub forward.
    pub front_section_length: i64,
    /// Radius of the front section's corners.
    pub front_section_corner_radius: i64,
    /// Thickness of the canopy's shell.
    pub canopy_thickness: i64,
    /// Thickness of the lip that joins canopy and top plate; by default
    /// half the canopy's thickness.
    pub edge_thickness: i64,
    /// Play between the canopy's lip and the top plate's.
    pub edge_padding: i64,
    /// Height of the lip.
    pub edge_height: i64,
    /// Length of the camera box.
    pub camera_box_length: i64,
    /// Width of the camera box's rim.
    pub camera_box_edge_width: i64,
    /// Play between the camera box's rim and the opening in the top plate.
    pub camera_box_edge_padding: i64,
    /// Radius of the holes for the motor wires.
    pub motor_wire_hole_radius: i64,
    /// Height of the camera's lens above the top plate.
    pub camera_offset_from_top: i64,
    /// Radius of the material around a mounting screw.
    pub mounting_screw_outline_radius: i64,
    /// Height of the canopy at its highest.
    pub canopy_max_height: i64,
    /// Height of the canopy's screw tabs.
    pub screw_mount_height: i64,
    /// Height of the canopy at the tip of the back arm; by default that of
    /// the screw tabs.
    pub canopy_bottom_min_height: i64,
    /// Diameter of the room for a screw's head.
    pub screwhead_diameter: i64,
    /// Width of the arch of the side plate mount.
    pub side_plate_arc_width: i64,
    /// Height of the arch of the side plate mount.
    pub side_plate_arc_height: i64,
    /// Thickness of a side plate.
    pub side_plate_thickness: i64,
    /// Length of the side plate mount along the back arm.
    pub side_plate_mount_length: i64,
    /// Distance of the side plates' front screw below their top edge.
    pub side_plate_front_screw_top_offset: i64,
}

impl TricopterBody {
    /// Whether every dimension lies within the magnitude the builders accept.
    pub open spec fn wf(&self) -> bool {
        &&& in_range(self.radius as int)
        &&& in_range(self.top_height as int)
        &&& in_range(self.height as int)
        &&& in_range(self.outer_width as int)
        &&& in_range(self.back_outer_width as int)
        &&& in_range(self.inner_width as int)
        &&& in_range(self.center_width as int)
        &&& in_range(self.back_block_length_factor as int)
        &&& in_range(self.arm_width as int)
        &&& in_range(self.front_block_x as int)
        &&& in_range(self.front_section_width as int)
        &&& in_range(self.front_section_length as int)
        &&& in_range(self.front_section_corner_radius as int)
        &&& in_range(self.canopy_thickness as int)
        &&& in_range(self.edge_thickness as int)
        &&& in_range(self.edge_padding as int)
        &&& in_range(self.edge_height as int)
        &&& in_range(self.camera_box_length as int)
        &&& in_range(self.camera_box_edge_width as int)
        &&& in_range(self.camera_box_edge_padding as int)
        &&& in_range(self.motor_wire_hole_radius as int)
        &&& in_range(self.camera_offset_from_top as int)
        &&& in_range(self.mounting_screw_outline_radius as int)
        &&& in_range(self.canopy_max_height as int)
        &&& in_range(self.screw_mount_height as int)
        &&& in_range(self.canopy_bottom_min_height as int)
        &&& in_range(self.screwhead_diameter as int)
        &&& in_range(self.side_plate_arc_width as int)
        &&& in_range(self.side_plate_arc_height as int)
        &&& in_range(self.side_plate_thickness as int)
        &&& in_range(self.side_plate_mount_length as int)
        &&& in_range(self.side_plate_front_screw_top_offset as int)
    }

    /// The default dimensions. The front section is as wide as the arms are
    /// at the hub, the lip is half as thick as the canopy, and the canopy's
    /// lowest point is level with the screw mounts.
    pub open spec fn defaults() -> TricopterBody {
        let inner_width = 500_000i64;
        let canopy_thickness = 30_000i64;
        let screw_mount_height = 70_000i64;
        TricopterBody {
            radius: 800_000,
            top_height: 50_000,
            height: 40_000,
            outer_width: 230_000,
            back_outer_width: 330_000,
            inner_width,
            center_width: 560_000,
            back_block_length_factor: 500,
            arm_width: 100_000,
            front_block_x: 300_000,
            front_section_width: inner_width,
            front_section_length: 600_000,
            front_section_corner_radius: 20_000,
            canopy_thickness,
            edge_thickness: quot(canopy_thickness as int, 2) as i64,
            edge_padding: 2_500,
            edge_height: 30_000,
            camera_box_length: 200_000,
            camera_box_edge_width: 10_000,
            camera_box_edge_padding: 5_000,
            motor_wire_hole_radius: 40_000,
            camera_offset_from_top: 100_000,
            mounting_screw_outline_radius: 30_000,
            canopy_max_height: 310_000,
            screw_mount_height,
            canopy_bottom_min_height: screw_mount_height,
            screwhead_diameter: 65_000,
            side_plate_arc_width: 360_000,
            side_plate_arc_height: 190_000,
            side_plate_thickness: 20_000,
            side_plate_mount_length: 150_000,
            side_plate_front_screw_top_offset: 70_000,
        }
    }

    /// The height of the bottom part: the plate and the blocks on it.
    pub open spec fn bottom_total_height(&self) -> int {
        self.arm_width + self.height
    }

    /// Distance from the hub at which the back mount block starts.
    pub open spec fn back_block_start(&self) -> int {
        scaled(self.radius as int, self.back_block_length_factor as int)
    }

    /// The outline of the three arms: the two front arms turned into place
    /// and the wider back arm along x. All three are as wide at the hub.
    pub open spec fn body_shape(&self) -> Shape {
        let side = body_section(
            self.inner_width as int,
            self.outer_width as int,
            self.radius as int,
        );
        let back = body_section(
            self.inner_width as int,
            self.back_outer_width as int,
            self.radius as int,
        );
        Shape::node(
            ElementView::Union,
            seq![
                turned_shape(ARM_SPACING as int, Axis::Z, side),
                turned_shape(2 * ARM_SPACING, Axis::Z, side),
                back,
            ],
        )
    }

    /// One half of the back mount block, beside the arm.
    pub open spec fn back_mount_block_half(&self) -> Shape {
        let start = self.back_block_start();
        let start_width = self.back_outer_width + scaled(
            self.inner_width - self.back_outer_width,
            self.back_block_length_factor as int,
        );
        let total_arm_width = self.arm_width + 2_500;
        polygon_shape(
            seq![
                pos2(start, quot(total_arm_width, 2)),
                pos2(start, quot(start_width, 2)),
                pos2(self.radius as int, quot(self.back_outer_width as int, 2)),
                pos2(self.radius as int, quot(total_arm_width, 2)),
            ],
        )
    }

    /// The outline of the block that holds the back arm: one half and its
    /// mirror image across the arm's centre line.
    pub open spec fn back_mount_block(&self) -> Shape {
        mirror_pair_shape(Axis::Y, self.back_mount_block_half())
    }

    /// The outline of the front section, with rounded corners.
    pub open spec fn front_section(&self) -> Shape {
        let corner_radius = self.front_section_corner_radius as int;
        let length = self.front_section_length - corner_radius;
        let width = self.front_section_width - corner_radius * 2;
        offset_shape(
            OffsetKindView::Radius(corner_radius),
            polygon_shape(
                seq![
                    pos2(0, quot(width, 2)),
                    pos2(0, -quot(width, 2)),
                    pos2(-length, -quot(width, 2)),
                    pos2(-length, quot(width, 2)),
                ],
            ),
        )
    }

    /// The outline of what the canopy covers: from the front section over
    /// the hub to the tip of the back arm.
    pub open spec fn mid_section_outline(&self) -> Shape {
        let front = self.front_section_length as int;
        polygon_path_shape(
            seq![
                pos2(-front, quot(self.front_section_width as int, 2)),
                pos2(-front, -quot(self.front_section_width as int, 2)),
                pos2(0, quot(self.center_width as int, 2)),
                pos2(0, -quot(self.center_width as int, 2)),
                pos2(self.radius as int, quot(self.back_outer_width as int, 2)),
                pos2(self.radius as int, -quot(self.back_outer_width as int, 2)),
            ],
            seq![0usize, 2, 4, 5, 3, 1],
        )
    }

    /// How far the outer face of the top plate's lip lies from the outline.
    pub open spec fn canopy_edge_outer_offset(&self) -> int {
        -self.canopy_thickness + self.edge_thickness - self.edge_padding
    }

    /// How far the inner face of the top plate's lip lies from the outline.
    pub open spec fn canopy_edge_inner_offset(&self) -> int {
        -(self.canopy_thickness as int)
    }

    /// The lip on the top plate that the canopy sits over: a wall between
    /// two offsets of the mid-section outline.
    pub open spec fn top_plate_canopy_edges(&self) -> Shape {
        wall_shape(
            self.mid_section_outline(),
            OffsetKindView::Radius(self.canopy_edge_outer_offset()),
            OffsetKindView::Radius(self.canopy_edge_inner_offset()),
            self.edge_height as int,
        )
    }

    /// The opening in the top plate above the camera box.
    pub open spec fn camera_box_top_cutout(&self) -> Shape {
        let x_end = -(self.front_section_length - self.canopy_thickness);
        let x_start = x_end + self.camera_box_length;
        let width = self.front_section_width - self.canopy_thickness * 2;
        polygon_shape(
            seq![
                pos2(x_start, quot(width, 2)),
                pos2(x_end, quot(width, 2)),
                pos2(x_end, -quot(width, 2)),
                pos2(x_start, -quot(width, 2)),
            ],
        )
    }

    /// The outline of the camera box on the bottom plate.
    pub open spec fn camera_box_outline(&self) -> Shape {
        let corner_radius = self.front_section_corner_radius as int;
        let x_start = -(self.front_section_length - self.camera_box_length - self.canopy_thickness
            * 2 + corner_radius);
        let x_end = -(self.front_section_length - corner_radius);
        let y_start = quot(self.front_section_width as int, 2) - corner_radius;
        let y_end = -y_start;
        offset_shape(
            OffsetKindView::Radius(corner_radius),
            polygon_shape(
                seq![
                    pos2(x_start, y_start),
                    pos2(x_end, y_start),
                    pos2(x_end, y_end),
                    pos2(x_start, y_end),
                ],
            ),
        )
    }

    /// The outline of the camera box's rim, which fits into the opening in
    /// the top plate.
    pub open spec fn camera_box_bottom_edge_outline(&self) -> Shape {
        offset_shape(
            OffsetKindView::Delta(-(self.canopy_thickness + self.camera_box_edge_padding)),
            self.camera_box_outline(),
        )
    }

    /// The outline of the camera box's hollow: the rim's outline moved
    /// inward by the rim's width.
    pub open spec fn camera_box_bottom_cutout_outline(&self) -> Shape {
        offset_shape(
            OffsetKindView::Delta(-(self.camera_box_edge_width as int)),
            self.camera_box_bottom_edge_outline(),
        )
    }

    /// A body with the default dimensions.
    pub fn new() -> (r: TricopterBody)
        ensures
            r == TricopterBody::defaults(),
            r.wf(),
    {
        let inner_width: i64 = 500_000;
        let canopy_thickness: i64 = 30_000;
        let screw_mount_height: i64 = 70_000;
        TricopterBody {
            radius: 800_000,
            top_height: 50_000,
            height: 40_000,
            outer_width: 230_000,
            back_outer_width: 330_000,
            inner_width,
            center_width: 560_000,
            back_block_length_factor: 500,
            arm_width: 100_000,
            front_block_x: 300_000,
            front_section_width: inner_width,
            front_section_length: 600_000,
            front_section_corner_radius: 20_000,
            canopy_thickness,
            edge_thickness: canopy_thickness / 2,
            edge_padding: 2_500,
            edge_height: 30_000,
            camera_box_length: 200_000,
            camera_box_edge_width: 10_000,
            camera_box_edge_padding: 5_000,
            motor_wire_hole_radius: 40_000,
            camera_offset_from_top: 100_000,
            mounting_screw_outline_radius: 30_000,
            canopy_max_height: 310_000,
            screw_mount_height,
            canopy_bottom_min_height: screw_mount_height,
            screwhead_diameter: 65_000,
            side_plate_arc_width: 360_000,
            side_plate_arc_height: 190_000,
            side_plate_thickness: 20_000,
            side_plate_mount_length: 150_000,
            side_plate_front_screw_top_offset: 70_000,
        }
    }

    /// The height of the bottom part: the plate and the blocks on it.
    pub fn get_bottom_total_height(&self) -> (r: i64)
        requires
            self.wf(),
        ensures
            r == self.bottom_total_height(),
    {
        self.arm_width + self.height
    }

    /// Builds the outline of the three arms.
    pub fn get_body_shape(&self) -> (r: Node)
        ensures
            r@ == self.body_shape(),
            r@.children.len() == 3,
    {
        let back_segment = get_body_section(self.inner_width, self.back_outer_width, self.radius);
        let side_segments = get_body_section(self.inner_width, self.outer_width, self.radius);
        let fan = PatternSpec::Fan { step: ARM_SPACING, first: 1, count: 2 };
        let front_arms = place(&fan, &side_segments);
        let r = front_arms.with_child(back_segment);
        assert(r@.children =~= self.body_shape().children);
        r
    }

    /// Builds the outline of the block that holds the back arm.
    pub fn get_back_mount_block(&self) -> (r: Node)
        requires
            self.wf(),
        ensures
            r@ == self.back_mount_block(),
    {
        let length_factor: i64 = self.back_block_length_factor;
        let start: i64 = scale(self.radius, length_factor);
        let start_width: i64 = self.back_outer_width + scale(
            self.inner_width - self.back_outer_width,
            length_factor,
        );
        let arm_padding: i64 = 2_500;
        let total_arm_width: i64 = self.arm_width + arm_padding;
        let points: Vec<Point2> = vec![
            point2(start, total_arm_width / 2),
            point2(start, start_width / 2),
            point2(self.radius, self.back_outer_width / 2),
            point2(self.radius, total_arm_width / 2),
        ];
        assert(positions(points@) =~= polygon_points(self.back_mount_block_half()));
        let shape = polygon(points);
        mirror_pair(Axis::Y, &shape)
    }

    /// Builds the outline of the front section.
    pub fn get_front_section(&self) -> (r: Node)
        requires
            self.wf(),
        ensures
            r@ == self.front_section(),
    {
        let corner_radius: i64 = self.front_section_corner_radius;
        let length: i64 = self.front_section_length - corner_radius;
        let width: i64 = self.front_section_width - corner_radius * 2;
        let low: i64 = -(width / 2);
        let far: i64 = -length;
        let points: Vec<Point2> = vec![
            point2(0, width / 2),
            point2(0, low),
            point2(far, low),
            point2(far, width / 2),
        ];
        assert(positions(points@) =~= polygon_points(self.front_section().children[0]));
        offset(OffsetKind::Radius(corner_radius), polygon(points))
    }

    /// Builds the outline of what the canopy covers.
    pub fn get_mid_section_outline(&self) -> (r: Node)
        requires
            self.wf(),
        ensures
            r@ == self.mid_section_outline(),
    {
        let front: i64 = -self.front_section_length;
        let front_low: i64 = -(self.front_section_width / 2);
        let center_low: i64 = -(self.center_width / 2);
        let back_low: i64 = -(self.back_outer_width / 2);
        let points: Vec<Point2> = vec![
            point2(front, self.front_section_width / 2),
            point2(front, front_low),
            point2(0, self.center_width / 2),
            point2(0, center_low),
            point2(self.radius, self.back_outer_width / 2),
            point2(self.radius, back_low),
        ];
        let path: Vec<usize> = vec![0, 2, 4, 5, 3, 1];
        assert(positions(points@) =~= polygon_points(self.mid_section_outline()));
        assert(path@ =~= polygon_path(self.mid_section_outline()));
        polygon_with_path(points, path)
    }

    /// Builds the lip on the top plate. Both faces of the lip are offsets
    /// of the one mid-section outline, and the distance between them is the
    /// lip's thickness less its padding.
    pub fn get_top_plate_canopy_edges(&self) -> (r: Node)
        requires
            self.wf(),
        ensures
            r@ == self.top_plate_canopy_edges(),
            wall_face_outline(r@, 0) == self.mid_section_outline(),
            wall_face_outline(r@, 1) == self.mid_section_outline(),
            wall_face_amount(r@, 0) - wall_face_amount(r@, 1) == self.edge_thickness
                - self.edge_padding,
    {
        let outer_radius_offset: i64 = -self.canopy_thickness + self.edge_thickness
            - self.edge_padding;
        let inner_radius_offset: i64 = -self.canopy_thickness;
        let outline = self.get_mid_section_outline();
        proof {
            lemma_wall_faces(
                outline@,
                OffsetKindView::Radius(outer_radius_offset as int),
                OffsetKindView::Radius(inner_radius_offset as int),
                self.edge_height as int,
            );
        }
        wall(
            &outline,
            OffsetKind::Radius(outer_radius_offset),
            OffsetKind::Radius(inner_radius_offset),
            self.edge_height,
        )
    }

    /// Builds the opening in the top plate above the camera box.
    pub fn get_camera_box_top_cutout(&self) -> (r: Node)
        requires
            self.wf(),
        ensures
            r@ == self.camera_box_top_cutout(),
    {
        let x_end: i64 = -(self.front_section_length - self.canopy_thickness);
        let x_start: i64 = x_end + self.camera_box_length;
        let width: i64 = self.front_section_width - self.canopy_thickness * 2;
        let low: i64 = -(width / 2);
        let points: Vec<Point2> = vec![
            point2(x_start, width / 2),
            point2(x_end, width / 2),
            point2(x_end, low),
            point2(x_start, low),
        ];
        assert(positions(points@) =~= polygon_points(self.camera_box_top_cutout()));
        polygon(points)
    }

    /// Builds the outline of the camera box on the bottom plate.
    pub fn get_camera_box_outline(&self) -> (r: Node)
        requires
            self.wf(),
        ensures
            r@ == self.camera_box_outline(),
    {
        let corner_radius: i64 = self.front_section_corner_radius;
        let x_start: i64 = -(self.front_section_length - self.camera_box_length
            - self.canopy_thickness * 2 + corner_radius);
        let x_end: i64 = -(self.front_section_length - corner_radius);
        let y_start: i64 = self.front_section_width / 2 - corner_radius;
        let y_end: i64 = -y_start;
        let points: Vec<Point2> = vec![
            point2(x_start, y_start),
            point2(x_end, y_start),
            point2(x_end, y_end),
            point2(x_start, y_end),
        ];
        assert(positions(points@) =~= polygon_points(self.camera_box_outline().children[0]));
        offset(OffsetKind::Radius(corner_radius), polygon(points))
    }

    /// Builds the outline of the camera box's rim.
    pub fn get_camera_box_bottom_edge_outline(&self) -> (r: Node)
        requires
            self.wf(),
        ensures
            r@ == self.camera_box_bottom_edge_outline(),
    {
        let inward: i64 = -(self.canopy_thickness + self.camera_box_edge_padding);
        offset(OffsetKind::Delta(inward), self.get_camera_box_outline())
    }

    /// Builds the outline of the camera box's hollow.
    pub fn get_camera_box_bottom_cutout_outline(&self) -> (r: Node)
        requires
            self.wf(),
        ensures
            r@ == self.camera_box_bottom_cutout_outline(),
    {
        let inward: i64 = -self.camera_box_edge_width;
        offset(OffsetKind::Delta(inward), self.get_camera_box_bottom_edge_outline())
    }

    /// Builds the box that keeps a part no wider than the printer's bed.
    pub fn get_side_bounds(&self) -> (r: Node)
        ensures
            r@ == print_envelope(),
    {
        envelope_box()
    }

    /// The outline of the arm that is the `i`-th segment of the body's
    /// outline, before it is turned into place.
    pub open spec fn arm_outline(&self, i: int) -> Shape {
        let segment = self.body_shape().children[i];
        if segment.element is Rotate {
            segment.children[0]
        } else {
            segment
        }
    }

    /// All three arms are as wide at the hub: each outline starts with the
    /// same two corners, half the inner width to either side of the centre.
    pub proof fn lemma_arms_meet_at_the_hub(&self, i: int)
        requires
            0 <= i < 3,
        ensures
            polygon_points(self.arm_outline(i))[0] == pos2(0, -quot(self.inner_width as int, 2)),
            polygon_points(self.arm_outline(i))[1] == pos2(0, quot(self.inner_width as int, 2)),
    {
    }

    /// The back mount block reaches as far to one side of the arm's centre
    /// line as to the other.
    pub proof fn lemma_back_mount_block_symmetric(
        &self,
        reading: spec_fn(Shape, Pos3) -> bool,
        p: Pos3,
    )
        ensures
            occupies(self.back_mount_block(), reading, p) == occupies(
                self.back_mount_block(),
                reading,
                reflect(Axis::Y, p),
            ),
    {
        lemma_mirror_pair_symmetric(Axis::Y, self.back_mount_block_half(), reading, p);
    }
}

} // verus!
