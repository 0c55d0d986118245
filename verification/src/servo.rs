//! The mount that carries the tail servo on the back boom.

use vstd::prelude::*;
use crate::geometry::{
    centered_extruded, centered_extruded_shape, centered_square, centered_square_shape, extruded,
    extruded_shape, moved2d, moved2d_shape, point2, polygon, polygon_points, polygon_shape, pos2,
    positions, turned, turned_shape, Axis, Element, ElementView, Node, Point2, Pos3, Shape,
};
use crate::body::{print_envelope, within_envelope};
use crate::placement::mirror_pair;
use crate::plates::clip_to_envelope;
use crate::solid::{clipped, lemma_mirror_pair_symmetric, mirror_pair_shape, occupies, reflect};
use crate::units::{in_range, quot};

verus! {

/// The dimensions of the servo mount.
#[derive(Clone, Copy, Debug, PartialEq, Eq)]
pub struct ServoMount {
    /// Width of the servo's body.
    pub servo_width: i64,
    /// Depth of the servo's body, along the boom.
    pub servo_depth: i64,
    /// Height of the servo's body.
    pub servo_height: i64,
    /// Height at which the servo's mounting tabs sit.
    pub servo_tab_height: i64,
    /// Width of the square boom.
    pub boom_width: i64,
    /// Thickness of the mount's walls.
    pub side_thickness: i64,
    /// Room the propeller needs above the boom.
    pub prop_clearance: i64,
    /// How far the mount ends below the servo's top.
    pub top_offset: i64,
}

impl ServoMount {
    /// Whether every dimension lies within the magnitude the builders accept.
    pub open spec fn wf(&self) -> bool {
        &&& in_range(self.servo_width as int)
        &&& in_range(self.servo_depth as int)
        &&& in_range(self.servo_height as int)
        &&& in_range(self.servo_tab_height as int)
        &&& in_range(self.boom_width as int)
        &&& in_range(self.side_thickness as int)
        &&& in_range(self.prop_clearance as int)
        &&& in_range(self.top_offset as int)
    }

    /// The default dimensions.
    pub open spec fn defaults() -> ServoMount {
        ServoMount {
            servo_width: 122_500,
            servo_depth: 220_000,
            servo_height: 280_000,
            servo_tab_height: 46_000,
            boom_width: 110_000,
            side_thickness: 20_000,
            prop_clearance: 100_000,
            top_offset: 70_000,
        }
    }

    /// A mount with the default dimensions.
    pub fn new() -> (r: ServoMount)
        ensures
            r == ServoMount::defaults(),
            r.wf(),
    {
        ServoMount {
            servo_width: 122_500,
            servo_depth: 220_000,
            servo_height: 280_000,
            servo_tab_height: 46_000,
            boom_width: 110_000,
            side_thickness: 20_000,
            prop_clearance: 100_000,
            top_offset: 70_000,
        }
    }

    /// The outer outline of one half of the mount, right of its centre
    /// line: around the boom, out to the servo's side, and in over its top.
    pub open spec fn half_outer_outline(&self) -> Shape {
        let st = self.side_thickness as int;
        let boom_x = quot(self.boom_width as int, 2) + st;
        let servo_x = quot(self.servo_width as int, 2) + st;
        let servo_y_start = self.boom_width as int;
        let top = self.servo_height + self.boom_width - self.top_offset;
        let top_tab_start = self.servo_height + self.boom_width - st - self.top_offset;
        polygon_shape(
            seq![
                pos2(0, -st),
                pos2(boom_x, -st),
                pos2(boom_x, quot(self.boom_width as int, 2)),
                pos2(servo_x, servo_y_start),
                pos2(servo_x + 10_000, servo_y_start + self.servo_tab_height),
                pos2(servo_x, top_tab_start),
                pos2(servo_x + 50_000, top_tab_start),
                pos2(servo_x + 50_000, top),
                pos2(0, top),
            ],
        )
    }

    /// The outline of the block under the servo's mounting tab.
    pub open spec fn servo_mount_block_outline(&self) -> Shape {
        moved2d_shape(
            0,
            self.boom_width as int,
            polygon_shape(
                seq![
                    pos2(-62_000, -20_000),
                    pos2(62_000, -20_000),
                    pos2(73_000, 67_000),
                    pos2(-73_000, 67_000),
                ],
            ),
        )
    }

    /// The profile of one half of the mount: the outer outline without the
    /// boom, the servo and the block under its tab.
    pub open spec fn profile(&self) -> Shape {
        Shape::node(
            ElementView::Difference,
            seq![
                self.half_outer_outline(),
                centered_square_shape(
                    pos2(self.boom_width as int, self.boom_width as int),
                    (true, false),
                ),
                moved2d_shape(
                    0,
                    self.boom_width as int,
                    centered_square_shape(
                        pos2(self.servo_width as int, self.servo_height as int),
                        (true, false),
                    ),
                ),
                self.servo_mount_block_outline(),
            ],
        )
    }

    /// One half of the mount, as deep as the servo.
    pub open spec fn half(&self) -> Shape {
        extruded_shape(self.servo_depth as int, self.profile())
    }

    /// What is kept of the mount, seen from the side: all of it near the
    /// boom, less toward the top where the propeller passes.
    pub open spec fn kept_side_view(&self) -> Shape {
        let top = self.servo_height + self.boom_width;
        let clear = self.servo_depth - self.prop_clearance;
        turned_shape(
            -90_000,
            Axis::Y,
            centered_extruded_shape(
                1_000_000,
                polygon_shape(
                    seq![
                        pos2(-100_000, -100_000),
                        pos2(-100_000, top),
                        pos2(clear, top),
                        pos2(clear, self.servo_height as int),
                        pos2(self.servo_depth as int, self.boom_width as int),
                        pos2(self.servo_depth as int, -100_000),
                    ],
                ),
            ),
        )
    }

    /// Both halves of the mount, before the propeller's room is cut away.
    pub open spec fn both_halves(&self) -> Shape {
        mirror_pair_shape(Axis::X, self.half())
    }

    /// The mount: both halves, cut to what the side view keeps.
    pub open spec fn mount_unclipped(&self) -> Shape {
        Shape::node(ElementView::Intersection, seq![self.both_halves(), self.kept_side_view()])
    }

    /// The servo mount as it is exported: built as above, and last
    /// of all clipped to the print envelope.
    pub open spec fn mount(&self) -> Shape {
        clipped(self.mount_unclipped(), print_envelope())
    }

    /// Builds the mount, clipped to the print envelope as its last step.
    /// Nothing of it lies outside the envelope.
    pub fn full(&self) -> (r: Node)
        requires
            self.wf(),
        ensures
            r@ == self.mount(),
            forall|reading: spec_fn(Shape, Pos3) -> bool, p: Pos3| #[trigger]
                occupies(r@, reading, p) ==> within_envelope(p),
    {
        let shape = extruded(self.servo_depth, self.outline());
        let top: i64 = self.servo_height + self.boom_width;
        let clear: i64 = self.servo_depth - self.prop_clearance;
        let points: Vec<Point2> = vec![
            point2(-100_000, -100_000),
            point2(-100_000, top),
            point2(clear, top),
            point2(clear, self.servo_height),
            point2(self.servo_depth, self.boom_width),
            point2(self.servo_depth, -100_000),
        ];
        assert(positions(points@) =~= polygon_points(
            self.kept_side_view().children[0].children[0],
        ));
        let to_keep = turned(-90_000, Axis::Y, centered_extruded(1_000_000, polygon(points)));
        let part = Node::with2(Element::Intersection, mirror_pair(Axis::X, &shape), to_keep);
        clip_to_envelope(part)
    }

    /// Builds the profile of one half of the mount.
    pub fn outline(&self) -> (r: Node)
        requires
            self.wf(),
        ensures
            r@ == self.profile(),
    {
        let boom_x: i64 = self.boom_width / 2 + self.side_thickness;
        let servo_x: i64 = self.servo_width / 2 + self.side_thickness;
        let servo_y_start: i64 = self.boom_width;
        let top_tab_start: i64 = self.servo_height + self.boom_width - self.side_thickness;
        let tab_length: i64 = 50_000;
        let bottom: i64 = -self.side_thickness;
        let tab_top: i64 = servo_y_start + self.servo_tab_height;
        let tab_low: i64 = top_tab_start - self.top_offset;
        let top: i64 = self.servo_height + self.boom_width - self.top_offset;
        let half_outer_outline: Vec<Point2> = vec![
            point2(0, bottom),
            point2(boom_x, bottom),
            point2(boom_x, self.boom_width / 2),
            point2(servo_x, servo_y_start),
            point2(servo_x + 10_000, tab_top),
            point2(servo_x, tab_low),
            point2(servo_x + tab_length, tab_low),
            point2(servo_x + tab_length, top),
            point2(0, top),
        ];
        assert(positions(half_outer_outline@) =~= polygon_points(self.half_outer_outline()));

        let top_width: i64 = 146_000;
        let bottom_width: i64 = 124_000;
        let height: i64 = 87_000;
        let bottom_offset: i64 = 20_000;
        let block_left: i64 = -(bottom_width / 2);
        let block_low: i64 = -bottom_offset;
        let block_top_left: i64 = -(top_width / 2);
        let block_high: i64 = height - bottom_offset;
        let block_points: Vec<Point2> = vec![
            point2(block_left, block_low),
            point2(bottom_width / 2, block_low),
            point2(top_width / 2, block_high),
            point2(block_top_left, block_high),
        ];
        assert(positions(block_points@) =~= polygon_points(
            self.servo_mount_block_outline().children[0],
        ));
        let servo_mount_block_outline = moved2d(0, self.boom_width, polygon(block_points));

        let boom_outline = centered_square(point2(self.boom_width, self.boom_width), (true, false));
        let servo_outline = moved2d(
            0,
            self.boom_width,
            centered_square(point2(self.servo_width, self.servo_height), (true, false)),
        );
        Node::with4(
            Element::Difference,
            polygon(half_outer_outline),
            boom_outline,
            servo_outline,
            servo_mount_block_outline,
        )
    }

    /// Before the propeller's room is cut away, the mount reaches as far to
    /// one side of the boom's centre line as to the other.
    pub proof fn lemma_both_halves_symmetric(
        &self,
        reading: spec_fn(Shape, Pos3) -> bool,
        p: Pos3,
    )
        ensures
            occupies(self.both_halves(), reading, p) == occupies(
                self.both_halves(),
                reading,
                reflect(Axis::X, p),
            ),
    {
        lemma_mirror_pair_symmetric(Axis::X, self.half(), reading, p);
    }
}

} // verus!
