//! Assembly of the printable plates.
//!
//! A part is put together in a fixed order: everything added is joined
//! first, then everything removed is cut from it in one flat list, and last
//! the result is clipped to the print envelope. What is removed can be
//! listed in any order, and nothing of a part lies outside the envelope.

use vstd::prelude::*;
use crate::boards::{get_m3_screw, m3_screw, NazeBoard};
use crate::body::{
    envelope_box, lemma_print_envelope, print_envelope, within_envelope, TricopterBody,
};
use crate::geometry::{
    centered_cube, centered_cube_shape, extruded_shape, lemma_shapes_of, moved, moved_shape, point3,
    pos3, shapes_of, Element, ElementView, Node, Pos3, Shape,
};
use crate::solid::{clipped, lemma_clip_idempotent, lemma_clipped_covers, occupies};
use crate::units::quot;

verus! {

/// What is added, joined, without what is removed.
pub open spec fn cut_shape(adds: Seq<Shape>, removes: Seq<Shape>) -> Shape {
    Shape::node(ElementView::Difference, seq![Shape::node(ElementView::Union, adds)] + removes)
}

/// A part assembled from what is added and what is removed, clipped to an
/// envelope.
pub open spec fn assembled(adds: Seq<Shape>, removes: Seq<Shape>, envelope: Shape) -> Shape {
    clipped(cut_shape(adds, removes), envelope)
}

/// Whether some member of `shapes` covers `p`.
pub open spec fn any_covers(
    shapes: Seq<Shape>,
    reading: spec_fn(Shape, Pos3) -> bool,
    p: Pos3,
) -> bool {
    exists|i: int| 0 <= i < shapes.len() && occupies(#[trigger] shapes[i], reading, p)
}

/// `shapes_of` distributes over concatenation.
pub proof fn lemma_shapes_of_concat(front: Seq<Node>, back: Seq<Node>)
    ensures
        shapes_of(front + back) == shapes_of(front) + shapes_of(back),
{
    lemma_shapes_of(front);
    lemma_shapes_of(back);
    lemma_shapes_of(front + back);
    assert(shapes_of(front + back) =~= shapes_of(front) + shapes_of(back));
}

/// What is added without what is removed covers a point exactly when
/// something added covers it and nothing removed does.
pub proof fn lemma_cut_covers(
    adds: Seq<Shape>,
    removes: Seq<Shape>,
    reading: spec_fn(Shape, Pos3) -> bool,
    p: Pos3,
)
    ensures
        occupies(cut_shape(adds, removes), reading, p) == (any_covers(adds, reading, p)
            && !any_covers(removes, reading, p)),
{
    let joined = Shape::node(ElementView::Union, adds);
    let cut = cut_shape(adds, removes);
    assert(cut.children[0] == joined);
    assert(occupies(joined, reading, p) == any_covers(adds, reading, p)) by {
        assert(joined.children == adds);
        if occupies(joined, reading, p) {
            let i = choose|i: int|
                0 <= i < joined.children.len() && occupies(#[trigger] joined.children[i], reading, p);
            assert(occupies(adds[i], reading, p));
        }
        if any_covers(adds, reading, p) {
            let i = choose|i: int| 0 <= i < adds.len() && occupies(#[trigger] adds[i], reading, p);
            assert(occupies(joined.children[i], reading, p));
        }
    }
    if any_covers(removes, reading, p) {
        let i = choose|i: int| 0 <= i < removes.len() && occupies(#[trigger] removes[i], reading, p);
        assert(cut.children[i + 1] == removes[i]);
        assert(!occupies(cut, reading, p));
    } else {
        assert forall|j: int| 1 <= j < cut.children.len() implies !occupies(
            #[trigger] cut.children[j],
            reading,
            p,
        ) by {
            assert(cut.children[j] == removes[j - 1]);
        }
    }
}

/// An assembled part covers a point exactly when something added covers
/// it, nothing removed covers it, and it lies in the envelope.
pub proof fn lemma_assembled_covers(
    adds: Seq<Shape>,
    removes: Seq<Shape>,
    envelope: Shape,
    reading: spec_fn(Shape, Pos3) -> bool,
    p: Pos3,
)
    ensures
        occupies(assembled(adds, removes, envelope), reading, p) == (any_covers(adds, reading, p)
            && !any_covers(removes, reading, p) && occupies(envelope, reading, p)),
{
    lemma_cut_covers(adds, removes, reading, p);
    lemma_clipped_covers(cut_shape(adds, removes), envelope, reading, p);
}

/// Nothing of a part clipped to the print envelope lies outside it, and
/// clipping the part again changes nothing.
pub proof fn lemma_clipped_within_envelope(part: Shape)
    ensures
        forall|reading: spec_fn(Shape, Pos3) -> bool, p: Pos3| #[trigger]
            occupies(clipped(part, print_envelope()), reading, p) ==> within_envelope(p),
        forall|reading: spec_fn(Shape, Pos3) -> bool, p: Pos3|
            occupies(clipped(clipped(part, print_envelope()), print_envelope()), reading, p)
                == #[trigger] occupies(clipped(part, print_envelope()), reading, p),
{
    assert forall|reading: spec_fn(Shape, Pos3) -> bool, p: Pos3| #[trigger]
        occupies(clipped(part, print_envelope()), reading, p) implies within_envelope(p) by {
        lemma_clipped_covers(part, print_envelope(), reading, p);
        lemma_print_envelope(reading, p);
    }
    assert forall|reading: spec_fn(Shape, Pos3) -> bool, p: Pos3|
        occupies(clipped(clipped(part, print_envelope()), print_envelope()), reading, p)
            == #[trigger] occupies(clipped(part, print_envelope()), reading, p) by {
        lemma_clip_idempotent(part, print_envelope(), reading, p);
    }
}

/// Clipping an assembled part once more changes nothing, and the part
/// lies inside its envelope.
pub proof fn lemma_assembled_clipping_idempotent(
    adds: Seq<Shape>,
    removes: Seq<Shape>,
    envelope: Shape,
    reading: spec_fn(Shape, Pos3) -> bool,
    p: Pos3,
)
    ensures
        occupies(clipped(assembled(adds, removes, envelope), envelope), reading, p) == occupies(
            assembled(adds, removes, envelope),
            reading,
            p,
        ),
        occupies(assembled(adds, removes, envelope), reading, p) ==> occupies(
            envelope,
            reading,
            p,
        ),
{
    lemma_assembled_covers(adds, removes, envelope, reading, p);
    lemma_clipped_covers(assembled(adds, removes, envelope), envelope, reading, p);
}

/// The order in which removed features are listed does not matter: two
/// lists with the same members cut the same part.
pub proof fn lemma_removal_order_irrelevant(
    adds: Seq<Shape>,
    removes: Seq<Shape>,
    reordered: Seq<Shape>,
    envelope: Shape,
    reading: spec_fn(Shape, Pos3) -> bool,
    p: Pos3,
)
    requires
        forall|i: int| 0 <= i < removes.len() ==> reordered.contains(#[trigger] removes[i]),
        forall|j: int| 0 <= j < reordered.len() ==> removes.contains(#[trigger] reordered[j]),
    ensures
        occupies(assembled(adds, removes, envelope), reading, p) == occupies(
            assembled(adds, reordered, envelope),
            reading,
            p,
        ),
{
    lemma_assembled_covers(adds, removes, envelope, reading, p);
    lemma_assembled_covers(adds, reordered, envelope, reading, p);
    if any_covers(removes, reading, p) {
        let i = choose|i: int| 0 <= i < removes.len() && occupies(#[trigger] removes[i], reading, p);
        assert(reordered.contains(removes[i]));
        let j = choose|j: int| 0 <= j < reordered.len() && reordered[j] == removes[i];
        assert(occupies(reordered[j], reading, p));
    }
    if any_covers(reordered, reading, p) {
        let j = choose|j: int|
            0 <= j < reordered.len() && occupies(#[trigger] reordered[j], reading, p);
        assert(removes.contains(reordered[j]));
        let i = choose|i: int| 0 <= i < removes.len() && removes[i] == reordered[j];
        assert(occupies(removes[i], reading, p));
    }
}

/// Clips a part to an envelope. Nothing of the result lies outside the
/// envelope, and clipping it again changes nothing.
pub fn clip(part: Node, envelope: Node) -> (r: Node)
    ensures
        r@ == clipped(part@, envelope@),
{
    Node::with2(Element::Intersection, part, envelope)
}

/// Clips a part to the print envelope, as the last step of building it.
/// Nothing of the result lies outside the envelope.
pub fn clip_to_envelope(part: Node) -> (r: Node)
    ensures
        r@ == clipped(part@, print_envelope()),
        forall|reading: spec_fn(Shape, Pos3) -> bool, p: Pos3| #[trigger]
            occupies(r@, reading, p) ==> within_envelope(p),
{
    proof {
        lemma_clipped_within_envelope(part@);
    }
    clip(part, envelope_box())
}

/// Joins what is added and cuts away what is removed.
pub fn cut(adds: Vec<Node>, removes: Vec<Node>) -> (r: Node)
    ensures
        r@ == cut_shape(shapes_of(adds@), shapes_of(removes@)),
{
    let joined = Node::new(Element::Union, adds);
    let mut members: Vec<Node> = Vec::new();
    members.push(joined);
    let mut removes = removes;
    let ghost removed = removes@;
    members.append(&mut removes);
    proof {
        lemma_shapes_of_concat(seq![joined], removed);
        lemma_shapes_of(seq![joined]);
        assert(shapes_of(seq![joined]) =~= seq![joined@]);
        assert(members@ =~= seq![joined] + removed);
    }
    Node::new(Element::Difference, members)
}

/// Assembles a part: joins what is added, cuts away what is removed, and
/// clips the result to the envelope.
pub fn assemble(adds: Vec<Node>, removes: Vec<Node>, envelope: Node) -> (r: Node)
    ensures
        r@ == assembled(shapes_of(adds@), shapes_of(removes@), envelope@),
{
    clip(cut(adds, removes), envelope)
}

impl TricopterBody {
    /// What the bottom part is made of: the plate under the arms and the
    /// front section, the blocks and tabs on it, and the camera box's rim.
    pub open spec fn bottom_additions(&self) -> Seq<Shape> {
        seq![
            Shape::node(
                ElementView::LinearExtrude { height: self.height as int, center: false },
                seq![self.body_shape(), self.front_section()],
            ),
            Shape::node(
                ElementView::LinearExtrude { height: self.bottom_total_height(), center: false },
                seq![
                    self.back_mount_block(),
                    self.camera_box_outline(),
                    self.front_screw_tab_outline(),
                    self.back_screw_tab_outline(),
                ],
            ),
            extruded_shape(
                self.bottom_total_height() + self.height,
                self.camera_box_bottom_edge_outline(),
            ),
        ]
    }

    /// What is cut from the bottom part: screw holes, the camera box's
    /// hollow, the lens hole, strap slots, wire channels and cable tie slots.
    pub open spec fn bottom_removals(&self) -> Seq<Shape> {
        seq![
            self.front_arm_screw_holes(),
            self.back_screwholes(),
            moved_shape(
                0,
                0,
                self.height as int,
                extruded_shape(
                    self.bottom_total_height() + self.height,
                    self.camera_box_bottom_cutout_outline(),
                ),
            ),
            self.camera_lens_hole(self.camera_offset_from_top + self.bottom_total_height()),
            self.battery_strap_holes(),
            self.at_motor_wire_holes(self.back_block_cable_hole()),
            self.cable_tie_holes(),
        ]
    }

    /// The bottom part of the body.
    pub open spec fn body_bottom(&self) -> Shape {
        assembled(self.bottom_additions(), self.bottom_removals(), print_envelope())
    }

    /// What the top plate is made of: the plate itself and the lip for the
    /// canopy on it.
    pub open spec fn top_additions(&self) -> Seq<Shape> {
        seq![
            Shape::node(
                ElementView::LinearExtrude { height: self.height as int, center: false },
                seq![
                    self.body_shape(),
                    self.mid_section_outline(),
                    self.front_section(),
                    self.front_screw_tab_outline(),
                    self.back_screw_tab_outline(),
                ],
            ),
            moved_shape(0, 0, self.height as int, self.top_plate_canopy_edges()),
        ]
    }

    /// What is cut from the top plate: screw holes, wire holes, the lens
    /// hole, the flight controller's screws and the opening over the camera.
    pub open spec fn top_removals(&self) -> Seq<Shape> {
        seq![
            self.front_arm_screw_holes(),
            self.back_screwholes(),
            self.top_plate_motor_wire_hole(),
            self.battery_wire_hole(),
            self.camera_lens_hole(self.camera_offset_from_top as int),
            Shape::wrap(
                ElementView::Union,
                NazeBoard::defaults().at_holes(m3_screw(self.height as int)),
            ),
            extruded_shape(self.height as int, self.camera_box_top_cutout()),
        ]
    }

    /// The whole top plate, before it is split for printing.
    pub open spec fn body_top_whole(&self) -> Shape {
        cut_shape(self.top_additions(), self.top_removals())
    }

    /// The volume that parts the front of the top plate from its back, with
    /// a step so that the two halves overlap.
    pub open spec fn front_back_splitter(&self) -> Shape {
        self.at_motor_wire_holes(
            Shape::node(
                ElementView::Union,
                seq![
                    moved_shape(
                        0,
                        0,
                        quot(self.top_height as int, 2),
                        centered_cube_shape(
                            pos3(1_000_000, 1_000_000, 1_000_000),
                            (false, true, false),
                        ),
                    ),
                    moved_shape(
                        30_000,
                        0,
                        0,
                        centered_cube_shape(
                            pos3(1_000_000, 1_000_000, quot(self.top_height as int, 2)),
                            (false, true, false),
                        ),
                    ),
                ],
            ),
        )
    }

    /// One half of the top plate before it is clipped: with `filter_front`,
    /// what of the plate lies outside the splitter; without, what lies
    /// inside it.
    pub open spec fn body_top_half(&self, filter_front: bool) -> Shape {
        Shape::node(
            if filter_front {
                ElementView::Difference
            } else {
                ElementView::Intersection
            },
            seq![self.body_top_whole(), self.front_back_splitter()],
        )
    }

    /// One half of the top plate: the plate cut and split, and last of all
    /// clipped to the print envelope.
    pub open spec fn body_top(&self, filter_front: bool) -> Shape {
        clipped(self.body_top_half(filter_front), print_envelope())
    }

    /// Builds the bottom part of the body. Nothing of it lies outside the
    /// print envelope.
    pub fn get_body_bottom(&self) -> (r: Node)
        requires
            self.wf(),
        ensures
            r@ == self.body_bottom(),
            forall|reading: spec_fn(Shape, Pos3) -> bool, p: Pos3| #[trigger]
                occupies(r@, reading, p) ==> within_envelope(p),
    {
        let total: i64 = self.get_bottom_total_height();
        let low = Node::with2(
            Element::LinearExtrude { height: self.height, center: false },
            self.get_body_shape(),
            self.get_front_section(),
        );
        let high = Node::with4(
            Element::LinearExtrude { height: total, center: false },
            self.get_back_mount_block(),
            self.get_camera_box_outline(),
            self.get_front_screw_tab_outline(),
            self.get_back_screw_tab_outline(),
        );
        let edge = Node::wrap(
            Element::LinearExtrude { height: total + self.height, center: false },
            self.get_camera_box_bottom_edge_outline(),
        );
        let mut adds: Vec<Node> = Vec::new();
        adds.push(low);
        adds.push(high);
        adds.push(edge);

        let camera_box_cutout = moved(
            0,
            0,
            self.height,
            Node::wrap(
                Element::LinearExtrude { height: total + self.height, center: false },
                self.get_camera_box_bottom_cutout_outline(),
            ),
        );
        let camera_lens_hole = self.get_camera_lens_hole(self.camera_offset_from_top + total);
        let mut removes: Vec<Node> = Vec::new();
        removes.push(self.get_front_arm_screw_holes());
        removes.push(self.get_back_screwholes());
        removes.push(camera_box_cutout);
        removes.push(camera_lens_hole);
        removes.push(self.get_battery_strap_holes());
        removes.push(self.place_object_at_motor_wire_holes(self.get_back_block_cable_hole()));
        removes.push(self.get_cable_tie_holes());
        proof {
            lemma_shapes_of(adds@);
            lemma_shapes_of(removes@);
            assert(shapes_of(adds@) =~= self.bottom_additions());
            assert(shapes_of(removes@) =~= self.bottom_removals());
            self.lemma_body_bottom_within_envelope();
        }
        assemble(adds, removes, self.get_side_bounds())
    }

    /// Builds one half of the top plate: the plate is cut, then split, and
    /// last of all clipped to the print envelope. Nothing of it lies outside
    /// the envelope.
    pub fn get_body_top(&self, filter_front: bool) -> (r: Node)
        requires
            self.wf(),
        ensures
            r@ == self.body_top(filter_front),
            forall|reading: spec_fn(Shape, Pos3) -> bool, p: Pos3| #[trigger]
                occupies(r@, reading, p) ==> within_envelope(p),
    {
        let main_cube = centered_cube(
            point3(1_000_000, 1_000_000, 1_000_000),
            (false, true, false),
        );
        let lower_cube = moved(
            30_000,
            0,
            0,
            centered_cube(point3(1_000_000, 1_000_000, self.top_height / 2), (false, true, false)),
        );
        let front_back_splitter = self.place_object_at_motor_wire_holes(
            Node::with2(Element::Union, moved(0, 0, self.top_height / 2, main_cube), lower_cube),
        );

        let plate = Node::with5(
            Element::LinearExtrude { height: self.height, center: false },
            self.get_body_shape(),
            self.get_mid_section_outline(),
            self.get_front_section(),
            self.get_front_screw_tab_outline(),
            self.get_back_screw_tab_outline(),
        );
        let mut adds: Vec<Node> = Vec::new();
        adds.push(plate);
        adds.push(moved(0, 0, self.height, self.get_top_plate_canopy_edges()));

        let camera_box = Node::wrap(
            Element::LinearExtrude { height: self.height, center: false },
            self.get_camera_box_top_cutout(),
        );
        let screwholes = Node::wrap(
            Element::Union,
            NazeBoard::new().place_object_at_holes(get_m3_screw(self.height)),
        );
        let mut removes: Vec<Node> = Vec::new();
        removes.push(self.get_front_arm_screw_holes());
        removes.push(self.get_back_screwholes());
        removes.push(self.get_top_plate_motor_wire_hole());
        removes.push(self.get_battery_wire_hole());
        removes.push(self.get_camera_lens_hole(self.camera_offset_from_top));
        removes.push(screwholes);
        removes.push(camera_box);
        proof {
            lemma_shapes_of(adds@);
            lemma_shapes_of(removes@);
            assert(shapes_of(adds@) =~= self.top_additions());
            assert(shapes_of(removes@) =~= self.top_removals());
            self.lemma_body_top_within_envelope(filter_front);
        }
        let whole = cut(adds, removes);
        let half = if filter_front {
            Node::with2(Element::Difference, whole, front_back_splitter)
        } else {
            Node::with2(Element::Intersection, whole, front_back_splitter)
        };
        clip(half, self.get_side_bounds())
    }

    /// Nothing of the bottom part lies outside the print envelope.
    pub proof fn lemma_body_bottom_within_envelope(&self)
        ensures
            forall|reading: spec_fn(Shape, Pos3) -> bool, p: Pos3| #[trigger]
                occupies(self.body_bottom(), reading, p) ==> within_envelope(p),
    {
        assert forall|reading: spec_fn(Shape, Pos3) -> bool, p: Pos3| #[trigger]
            occupies(self.body_bottom(), reading, p) implies within_envelope(p) by {
            lemma_assembled_covers(
                self.bottom_additions(),
                self.bottom_removals(),
                print_envelope(),
                reading,
                p,
            );
            lemma_print_envelope(reading, p);
        }
    }

    /// Nothing of either half of the top plate lies outside the print
    /// envelope.
    pub proof fn lemma_body_top_within_envelope(&self, filter_front: bool)
        ensures
            forall|reading: spec_fn(Shape, Pos3) -> bool, p: Pos3| #[trigger]
                occupies(self.body_top(filter_front), reading, p) ==> within_envelope(p),
    {
        lemma_clipped_within_envelope(self.body_top_half(filter_front));
    }

    /// Each half of the top plate covers what splitting the clipped plate
    /// would cover: clipping last and clipping before the split give the
    /// same part.
    pub proof fn lemma_body_top_clip_commutes(
        &self,
        filter_front: bool,
        reading: spec_fn(Shape, Pos3) -> bool,
        p: Pos3,
    )
        ensures
            occupies(self.body_top(filter_front), reading, p) == occupies(
                Shape::node(
                    self.body_top_half(filter_front).element,
                    seq![
                        clipped(self.body_top_whole(), print_envelope()),
                        self.front_back_splitter(),
                    ],
                ),
                reading,
                p,
            ),
    {
        let half = self.body_top_half(filter_front);
        let early = Shape::node(
            half.element,
            seq![clipped(self.body_top_whole(), print_envelope()), self.front_back_splitter()],
        );
        lemma_clipped_covers(half, print_envelope(), reading, p);
        lemma_clipped_covers(self.body_top_whole(), print_envelope(), reading, p);
        assert(half.children[0] == self.body_top_whole());
        assert(half.children[1] == self.front_back_splitter());
        assert(early.children[0] == clipped(self.body_top_whole(), print_envelope()));
        assert(early.children[1] == self.front_back_splitter());
        if filter_front {
            assert(occupies(half, reading, p) == (occupies(self.body_top_whole(), reading, p)
                && !occupies(self.front_back_splitter(), reading, p)));
            assert(occupies(early, reading, p) == (occupies(early.children[0], reading, p)
                && !occupies(self.front_back_splitter(), reading, p)));
        } else {
            assert(occupies(half, reading, p) == (occupies(self.body_top_whole(), reading, p)
                && occupies(self.front_back_splitter(), reading, p))) by {
                if occupies(half, reading, p) {
                    assert(occupies(half.children[0], reading, p));
                    assert(occupies(half.children[1], reading, p));
                }
            }
            assert(occupies(early, reading, p) == (occupies(early.children[0], reading, p)
                && occupies(self.front_back_splitter(), reading, p))) by {
                if occupies(early, reading, p) {
                    assert(occupies(early.children[0], reading, p));
                    assert(occupies(early.children[1], reading, p));
                }
            }
        }
    }
}

} // verus!
