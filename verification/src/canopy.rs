//! The canopy: a shell cut from three silhouettes, with its lip, screw tabs
//! and openings.
//!
//! The shell has no surface of its own. Each of three flat silhouettes,
//! seen from above, from the side and from the front, is swept far through
//! space along its line of sight; the shell is what the three sweeps have in
//! common, with the leading edge rounded by two more.

use vstd::prelude::*;
use crate::body::{print_envelope, within_envelope, TricopterBody, SCREW_DIAMETER};
use crate::geometry::{
    centered_extruded, centered_extruded_shape, centered_square, centered_square_shape, cylinder,
    cylinder_shape, extruded, extruded_shape, moved, moved2d, moved2d_shape, moved_shape, offset,
    offset_shape, point2, point3, polygon, polygon_points, polygon_shape, pos2, pos3, positions,
    turned, turned_shape, Angle, AngleView, Axis, CircleSize, CircleSizeView, Element, ElementView,
    Node, OffsetKind, OffsetKindView, Point2, Pos3, Shape,
};
use crate::plates::clip_to_envelope;
use crate::solid::{clipped, lemma_intersection_within_child, occupies};
use crate::units::{in_range, quot};

verus! {

/// Length of the sweeps that cut the canopy's shell: far longer than the
/// frame.
pub const CANOPY_SWEEP: i64 = 5_000_000;

/// The shape of an outline moved outward by `amount`, its corners cut.
pub open spec fn chamfered_shape(amount: int, outline: Shape) -> Shape {
    Shape::wrap(ElementView::Offset(OffsetKindView::Delta(amount), true), outline)
}

/// An outline moved outward by `amount`, its corners cut.
pub fn chamfered(amount: i64, outline: Node) -> (r: Node)
    ensures
        r@ == chamfered_shape(amount as int, outline@),
{
    Node::wrap(Element::Offset(OffsetKind::Delta(amount), true), outline)
}

impl TricopterBody {
    /// The canopy's silhouette seen from the side, standing on
    /// `additional_height`.
    pub open spec fn canopy_xz_outline(&self, additional_height: int) -> Shape {
        let front = -(self.front_section_length as int);
        let top = self.canopy_max_height as int;
        polygon_shape(
            seq![
                pos2(front, additional_height),
                pos2(front, top - 100_000),
                pos2(front + 100_000, top),
                pos2(quot(self.radius * 2, 8), top),
                pos2(self.radius as int, self.canopy_bottom_min_height as int),
                pos2(self.radius as int, additional_height),
            ],
        )
    }

    /// Height of the apex of the canopy's silhouette seen from the front.
    pub open spec fn canopy_apex(&self) -> int {
        quot(quot(self.inner_width * 7, 8), 2) + self.canopy_max_height
    }

    /// The canopy's silhouette seen from the front: a triangle standing on
    /// `additional_height`.
    pub open spec fn canopy_yz_outline(&self, additional_height: int) -> Shape {
        let apex = self.canopy_apex();
        polygon_shape(
            seq![pos2(apex, additional_height), pos2(-apex, additional_height), pos2(0, apex)],
        )
    }

    /// The sweep of the silhouette seen from above.
    pub open spec fn canopy_sweep_xy(&self, clearance: int) -> Shape {
        centered_extruded_shape(
            CANOPY_SWEEP as int,
            chamfered_shape(clearance, self.mid_section_outline()),
        )
    }

    /// The sweep of the silhouette seen from the side.
    pub open spec fn canopy_sweep_xz(&self, clearance: int) -> Shape {
        turned_shape(
            90_000,
            Axis::X,
            centered_extruded_shape(
                CANOPY_SWEEP as int,
                chamfered_shape(clearance, self.canopy_xz_outline(clearance)),
            ),
        )
    }

    /// The sweep of the silhouette seen from the front.
    pub open spec fn canopy_sweep_yz(&self, clearance: int) -> Shape {
        turned_shape(
            90_000,
            Axis::Z,
            turned_shape(
                90_000,
                Axis::X,
                centered_extruded_shape(
                    CANOPY_SWEEP as int,
                    chamfered_shape(clearance, self.canopy_yz_outline(clearance)),
                ),
            ),
        )
    }

    /// The outline that rounds the canopy's leading edge.
    pub open spec fn canopy_roundoff_outline(&self) -> Shape {
        let front = -(self.front_section_length as int);
        polygon_shape(
            seq![
                pos2(2_000_000, self.outer_width as int),
                pos2(front + 100_000, self.back_outer_width as int),
                pos2(front, self.outer_width - 100_000),
                pos2(front, -self.outer_width + 100_000),
                pos2(front + 100_000, -(self.back_outer_width as int)),
                pos2(2_000_000, -(self.outer_width as int)),
            ],
        )
    }

    /// What rounds the canopy's leading edge: one sweep leaning back a
    /// little and one leaning back a lot.
    pub open spec fn canopy_front_roundoff(&self, clearance: int) -> Shape {
        let sweep = centered_extruded_shape(
            CANOPY_SWEEP as int,
            chamfered_shape(clearance, self.canopy_roundoff_outline()),
        );
        Shape::node(
            ElementView::Intersection,
            seq![
                moved_shape(0, 0, 70_000, turned_shape(30_000, Axis::Y, sweep)),
                moved_shape(0, 0, -90_000, turned_shape(60_000, Axis::Y, sweep)),
            ],
        )
    }

    /// The canopy's outer surface and all within it: what the three sweeps
    /// and the round-off have in common, every silhouette moved outward by
    /// the same `clearance`.
    pub open spec fn canopy_outside(&self, clearance: int) -> Shape {
        Shape::node(
            ElementView::Intersection,
            seq![
                self.canopy_sweep_xy(clearance),
                self.canopy_sweep_xz(clearance),
                self.canopy_sweep_yz(clearance),
                self.canopy_front_roundoff(clearance),
            ],
        )
    }

    /// An outline swept from the underside of the canopy's lip up to
    /// `extra_height` above the plane.
    pub open spec fn canopy_edge_extrusion(&self, object: Shape, extra_height: int) -> Shape {
        moved_shape(
            0,
            0,
            -(self.edge_height as int),
            extruded_shape(self.edge_height + extra_height, object),
        )
    }

    /// The outline of the groove in the canopy's lip that takes the lip of
    /// the top plate.
    pub open spec fn canopy_edge_cutout_outline(&self) -> Shape {
        offset_shape(
            OffsetKindView::Delta(-(self.edge_thickness - self.edge_padding)),
            self.mid_section_outline(),
        )
    }

    /// The canopy's screw tabs, as tall as `height`.
    pub open spec fn canopy_screw_tabs(&self, height: int) -> Shape {
        Shape::node(
            ElementView::Translate(pos3(0, 0, -(self.edge_height as int))),
            seq![
                extruded_shape(height, self.front_screw_tab_outline()),
                extruded_shape(height, self.back_screw_tab_outline()),
            ],
        )
    }

    /// The holes for the canopy's screws: shafts of `screw_length` and,
    /// above them, room for the heads up to the canopy's top.
    pub open spec fn canopy_screwholes(&self, screw_length: int) -> Shape {
        let head = CircleSizeView::Diameter(self.screwhead_diameter as int);
        let shaft = CircleSizeView::Diameter(SCREW_DIAMETER as int);
        Shape::node(
            ElementView::Union,
            seq![
                moved_shape(
                    0,
                    0,
                    -(self.edge_height as int),
                    Shape::node(
                        ElementView::LinearExtrude { height: screw_length, center: false },
                        seq![self.front_screwholes(shaft), self.back_screwhole_circles(shaft)],
                    ),
                ),
                moved_shape(
                    0,
                    0,
                    screw_length - self.edge_height,
                    Shape::node(
                        ElementView::LinearExtrude {
                            height: self.canopy_max_height as int,
                            center: false,
                        },
                        seq![self.front_screwholes(head), self.back_screwhole_circles(head)],
                    ),
                ),
            ],
        )
    }

    /// What must go from the front corners to round them: the corners of
    /// the front section's bounding rectangle that its rounding leaves out.
    pub open spec fn front_fillet(&self, height: int) -> Shape {
        let radius = self.front_section_corner_radius as int;
        let main_square = centered_square_shape(
            pos2(self.radius as int, self.front_section_width as int),
            (false, true),
        );
        let rounded_square = offset_shape(
            OffsetKindView::Radius(radius),
            offset_shape(OffsetKindView::Delta(-radius), main_square),
        );
        let corners = Shape::node(ElementView::Difference, seq![main_square, rounded_square]);
        let cutoff_square = moved2d_shape(
            quot(self.radius as int, 2),
            0,
            centered_square_shape(
                pos2(quot(self.radius as int, 2), self.front_section_width as int),
                (false, true),
            ),
        );
        centered_extruded_shape(
            height * 2,
            moved2d_shape(
                -(self.front_section_length as int),
                0,
                Shape::node(
                    ElementView::Difference,
                    seq![
                        Shape::node(ElementView::Intersection, seq![main_square, corners]),
                        cutoff_square,
                    ],
                ),
            ),
        )
    }

    /// The hole for the transmitter's antenna connector, square to the
    /// canopy's slanted back wall.
    pub open spec fn vtx_connector_hole(&self) -> Shape {
        let outer_length = self.canopy_thickness - 25_000 + 50_000;
        let cutout = Shape::node(
            ElementView::Union,
            seq![
                moved_shape(
                    0,
                    0,
                    -outer_length,
                    cylinder_shape(outer_length, CircleSizeView::Diameter(80_000)),
                ),
                cylinder_shape(125_000, CircleSizeView::Diameter(60_000)),
            ],
        );
        let along_the_wall = moved_shape(
            -quot(self.radius as int, 6),
            0,
            0,
            moved_shape(0, 0, -25_000, cutout),
        );
        moved_shape(
            self.radius as int,
            -quot(self.back_outer_width as int, 2),
            quot(self.canopy_max_height as int, 2),
            Shape::wrap(
                ElementView::Rotate(
                    AngleView::Slope {
                        rise: quot(self.inner_width - self.back_outer_width, 2),
                        run: self.radius as int,
                    },
                    Axis::Z,
                ),
                turned_shape(90_000, Axis::X, along_the_wall),
            ),
        )
    }

    /// The canopy: its shell, screw tabs and lip, hollowed by a shell three
    /// millimetres smaller, with the lens hole, the lip's groove and the
    /// screw holes cut out.
    pub open spec fn canopy_unclipped(&self) -> Shape {
        Shape::node(
            ElementView::Difference,
            seq![
                Shape::node(
                    ElementView::Union,
                    seq![
                        self.canopy_outside(10_000),
                        self.canopy_screw_tabs(self.screw_mount_height as int),
                        self.canopy_edge_extrusion(
                            offset_shape(
                                OffsetKindView::Radius(10_000),
                                self.mid_section_outline(),
                            ),
                            30_000,
                        ),
                    ],
                ),
                self.canopy_outside(-30_000),
                self.camera_lens_hole(self.edge_height as int),
                self.canopy_edge_extrusion(self.canopy_edge_cutout_outline(), 0),
                self.canopy_screwholes(self.screw_mount_height as int),
            ],
        )
    }

    /// The canopy as it is exported: built as above, and last
    /// of all clipped to the print envelope.
    pub open spec fn canopy(&self) -> Shape {
        clipped(self.canopy_unclipped(), print_envelope())
    }

    /// Builds the canopy's silhouette seen from the side.
    pub fn get_canopy_xz_outline(&self, additional_height: i64) -> (r: Node)
        requires
            self.wf(),
        ensures
            r@ == self.canopy_xz_outline(additional_height as int),
    {
        let bottom_offset: i64 = additional_height;
        let max_height: i64 = self.canopy_max_height;
        let front_offset: i64 = 100_000;
        let front: i64 = -self.front_section_length;
        let shoulder: i64 = max_height - front_offset;
        let points: Vec<Point2> = vec![
            point2(front, bottom_offset),
            point2(front, shoulder),
            point2(front + front_offset, max_height),
            point2(self.radius * 2 / 8, max_height),
            point2(self.radius, self.canopy_bottom_min_height),
            point2(self.radius, bottom_offset),
        ];
        assert(positions(points@) =~= polygon_points(
            self.canopy_xz_outline(additional_height as int),
        ));
        polygon(points)
    }

    /// Builds the canopy's silhouette seen from the front.
    pub fn get_canopy_yz_outline(&self, additional_height: i64) -> (r: Node)
        requires
            self.wf(),
        ensures
            r@ == self.canopy_yz_outline(additional_height as int),
    {
        let bottom_offset: i64 = additional_height;
        let top_width: i64 = self.inner_width * 7 / 8;
        let triangle_height_above_canopy: i64 = top_width / 2;
        let triangle_height: i64 = triangle_height_above_canopy + self.canopy_max_height;
        let left: i64 = -triangle_height;
        let points: Vec<Point2> = vec![
            point2(triangle_height, bottom_offset),
            point2(left, bottom_offset),
            point2(0, triangle_height),
        ];
        assert(positions(points@) =~= polygon_points(
            self.canopy_yz_outline(additional_height as int),
        ));
        polygon(points)
    }

    /// Builds the outline that rounds the canopy's leading edge.
    fn get_canopy_roundoff_outline(&self) -> (r: Node)
        requires
            self.wf(),
        ensures
            r@ == self.canopy_roundoff_outline(),
    {
        let roundoff_amount: i64 = 100_000;
        let front: i64 = -self.front_section_length;
        let low_outer: i64 = -self.outer_width;
        let low_back: i64 = -self.back_outer_width;
        let high_corner: i64 = self.outer_width - roundoff_amount;
        let points: Vec<Point2> = vec![
            point2(2_000_000, self.outer_width),
            point2(front + roundoff_amount, self.back_outer_width),
            point2(front, high_corner),
            point2(front, low_outer + roundoff_amount),
            point2(front + roundoff_amount, low_back),
            point2(2_000_000, low_outer),
        ];
        assert(positions(points@) =~= polygon_points(self.canopy_roundoff_outline()));
        polygon(points)
    }

    /// Builds the canopy's outer surface and all within it. Every silhouette
    /// is moved outward by the same `xz_yz_offset`.
    pub fn get_canopy_outside(&self, xz_yz_offset: i64) -> (r: Node)
        requires
            self.wf(),
        ensures
            r@ == self.canopy_outside(xz_yz_offset as int),
    {
        let xy_outline = chamfered(xz_yz_offset, self.get_mid_section_outline());
        let xz_outline = chamfered(xz_yz_offset, self.get_canopy_xz_outline(xz_yz_offset));
        let yz_outline = chamfered(xz_yz_offset, self.get_canopy_yz_outline(xz_yz_offset));

        let extruded_xy = centered_extruded(CANOPY_SWEEP, xy_outline);
        let extruded_xz = turned(90_000, Axis::X, centered_extruded(CANOPY_SWEEP, xz_outline));
        let extruded_yz = turned(
            90_000,
            Axis::Z,
            turned(90_000, Axis::X, centered_extruded(CANOPY_SWEEP, yz_outline)),
        );

        let sweep = centered_extruded(
            CANOPY_SWEEP,
            chamfered(xz_yz_offset, self.get_canopy_roundoff_outline()),
        );
        let shallow = moved(0, 0, 70_000, turned(30_000, Axis::Y, sweep.duplicate()));
        let steep = moved(0, 0, -90_000, turned(60_000, Axis::Y, sweep));
        let canopy_front_roundoff = Node::with2(Element::Intersection, shallow, steep);

        Node::with4(
            Element::Intersection,
            extruded_xy,
            extruded_xz,
            extruded_yz,
            canopy_front_roundoff,
        )
    }

    /// Sweeps an outline from the underside of the canopy's lip up to
    /// `extra_height` above the plane.
    pub fn extrude_canopy_edge(&self, object: Node, extra_height: i64) -> (r: Node)
        requires
            self.wf(),
            in_range(extra_height as int),
        ensures
            r@ == self.canopy_edge_extrusion(object@, extra_height as int),
    {
        let height: i64 = self.edge_height;
        moved(0, 0, -height, extruded(height + extra_height, object))
    }

    /// Builds the outline of the groove in the canopy's lip.
    pub fn canopy_edge_cutout(&self) -> (r: Node)
        requires
            self.wf(),
        ensures
            r@ == self.canopy_edge_cutout_outline(),
    {
        let inward: i64 = -(self.edge_thickness - self.edge_padding);
        offset(OffsetKind::Delta(inward), self.get_mid_section_outline())
    }

    /// Builds the canopy's screw tabs, as tall as `height`.
    pub fn get_canopy_screw_tabs(&self, height: i64) -> (r: Node)
        requires
            self.wf(),
        ensures
            r@ == self.canopy_screw_tabs(height as int),
    {
        let down: i64 = -self.edge_height;
        Node::with2(
            Element::Translate(point3(0, 0, down)),
            extruded(height, self.get_front_screw_tab_outline()),
            extruded(height, self.get_back_screw_tab_outline()),
        )
    }

    /// Builds the holes for the canopy's screws.
    pub fn get_canopy_screwholes(&self, screw_length: i64) -> (r: Node)
        requires
            self.wf(),
            in_range(screw_length as int),
        ensures
            r@ == self.canopy_screwholes(screw_length as int),
    {
        let head_holes = Node::with2(
            Element::LinearExtrude { height: self.canopy_max_height, center: false },
            self.get_front_screwholes(CircleSize::Diameter(self.screwhead_diameter)),
            self.circle_at_back_screwholes(CircleSize::Diameter(self.screwhead_diameter)),
        );
        let holes = Node::with2(
            Element::LinearExtrude { height: screw_length, center: false },
            self.get_front_screwholes(CircleSize::Diameter(SCREW_DIAMETER)),
            self.circle_at_back_screwholes(CircleSize::Diameter(SCREW_DIAMETER)),
        );
        let down: i64 = -self.edge_height;
        Node::with2(
            Element::Union,
            moved(0, 0, down, holes),
            moved(0, 0, screw_length - self.edge_height, head_holes),
        )
    }

    /// Builds what must go from the front corners to round them.
    pub fn get_front_fillet(&self, height: i64) -> (r: Node)
        requires
            self.wf(),
            in_range(height as int),
        ensures
            r@ == self.front_fillet(height as int),
    {
        let radius: i64 = self.front_section_corner_radius;
        let centering = (false, true);
        let main_size = point2(self.radius, self.front_section_width);
        let main_square = centered_square(main_size, centering);
        let small_square = offset(OffsetKind::Delta(-radius), main_square.duplicate());
        let rounded_square = offset(OffsetKind::Radius(radius), small_square);
        let corners = Node::with2(Element::Difference, main_square.duplicate(), rounded_square);
        let cutoff_square = moved2d(
            self.radius / 2,
            0,
            centered_square(point2(self.radius / 2, self.front_section_width), centering),
        );
        let outline = Node::with2(
            Element::Difference,
            Node::with2(Element::Intersection, main_square, corners),
            cutoff_square,
        );
        let front: i64 = -self.front_section_length;
        centered_extruded(height * 2, moved2d(front, 0, outline))
    }

    /// Builds the hole for the transmitter's antenna connector.
    pub fn get_vtx_connector_hole(&self) -> (r: Node)
        requires
            self.wf(),
        ensures
            r@ == self.vtx_connector_hole(),
    {
        let screw_section_diameter: i64 = 60_000;
        let screw_section_length: i64 = 25_000;
        let outer_diameter: i64 = 80_000;
        let outer_length: i64 = self.canopy_thickness - screw_section_length + 50_000;
        let z_offset: i64 = self.canopy_max_height / 2;
        let angle = Angle::Slope {
            rise: (self.inner_width - self.back_outer_width) / 2,
            run: self.radius,
        };
        let small_cylinder = cylinder(
            screw_section_length + 100_000,
            CircleSize::Diameter(screw_section_diameter),
        );
        let big_cylinder = cylinder(outer_length, CircleSize::Diameter(outer_diameter));
        let cutout = Node::with2(
            Element::Union,
            moved(0, 0, -outer_length, big_cylinder),
            small_cylinder,
        );
        let translated = moved(0, 0, -screw_section_length, cutout);
        let moved_along = moved(-(self.radius / 6), 0, 0, translated);
        let rotated = Node::wrap(
            Element::Rotate(angle, Axis::Z),
            turned(90_000, Axis::X, moved_along),
        );
        moved(self.radius, -(self.back_outer_width / 2), z_offset, rotated)
    }

    /// Builds the canopy, clipped to the print envelope as its last step.
    /// Nothing of it lies outside the envelope.
    pub fn get_canopy(&self) -> (r: Node)
        requires
            self.wf(),
        ensures
            r@ == self.canopy(),
            forall|reading: spec_fn(Shape, Pos3) -> bool, p: Pos3| #[trigger]
                occupies(r@, reading, p) ==> within_envelope(p),
    {
        let extra_offset: i64 = 10_000;
        let canopy_edge = offset(OffsetKind::Radius(extra_offset), self.get_mid_section_outline());
        let body = Node::with3(
            Element::Union,
            self.get_canopy_outside(extra_offset),
            self.get_canopy_screw_tabs(self.screw_mount_height),
            self.extrude_canopy_edge(canopy_edge, 30_000),
        );
        let camera_offset: i64 = self.edge_height;
        let part = Node::with5(
            Element::Difference,
            body,
            self.get_canopy_outside(-30_000),
            self.get_camera_lens_hole(camera_offset),
            self.extrude_canopy_edge(self.canopy_edge_cutout(), 0),
            self.get_canopy_screwholes(self.screw_mount_height),
        );
        clip_to_envelope(part)
    }

    /// Whatever the canopy's shell covers, each of the three sweeps covers:
    /// the shell reaches nowhere beyond any one silhouette.
    pub proof fn lemma_canopy_outside_within_sweeps(
        &self,
        clearance: int,
        reading: spec_fn(Shape, Pos3) -> bool,
        p: Pos3,
    )
        requires
            occupies(self.canopy_outside(clearance), reading, p),
        ensures
            occupies(self.canopy_sweep_xy(clearance), reading, p),
            occupies(self.canopy_sweep_xz(clearance), reading, p),
            occupies(self.canopy_sweep_yz(clearance), reading, p),
    {
        let shell = self.canopy_outside(clearance);
        lemma_intersection_within_child(shell, 0, reading, p);
        lemma_intersection_within_child(shell, 1, reading, p);
        lemma_intersection_within_child(shell, 2, reading, p);
    }
}

} // verus!
