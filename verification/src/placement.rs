//! Placement patterns.
//!
//! A pattern says where copies of an object go: at listed offsets, at the
//! corners of a rectangle, on an angular fan, or on both sides of a plane.
//! [`place`] wraps each copy in the transform the pattern gives it and joins
//! the copies in one group. The transforms depend on the pattern alone, so a
//! boss and the hole through it, placed by one pattern, always coincide.

use vstd::prelude::*;
use crate::geometry::{
    lemma_shapes_of, Angle, AngleView, Axis, Element, ElementView, Node, Point2, Point3, Pos2, Pos3,
    Shape,
};
use crate::solid::mirror_pair_shape;
use crate::units::in_range;

verus! {

/// The transform a pattern gives to one copy.
#[derive(Clone, Copy, Debug, PartialEq, Eq)]
pub enum Placement {
    /// The copy stays where the object is.
    Keep,
    /// The copy is moved by a vector.
    Shift(Point3),
    /// The copy is moved within the plane.
    Shift2d(Point2),
    /// The copy is turned about an axis.
    Turn(Angle, Axis),
    /// The copy is reflected.
    Flip(Axis),
}

/// The view of a [`Placement`].
pub enum PlacementView {
    Keep,
    Shift(Pos3),
    Shift2d(Pos2),
    Turn(AngleView, Axis),
    Flip(Axis),
}

impl View for Placement {
    type V = PlacementView;

    open spec fn view(&self) -> PlacementView {
        match self {
            Placement::Keep => PlacementView::Keep,
            Placement::Shift(v) => PlacementView::Shift(v@),
            Placement::Shift2d(v) => PlacementView::Shift2d(v@),
            Placement::Turn(angle, axis) => PlacementView::Turn(angle@, *axis),
            Placement::Flip(axis) => PlacementView::Flip(*axis),
        }
    }
}

/// The views of a sequence of placements, in order.
pub open spec fn placement_views(placements: Seq<Placement>) -> Seq<PlacementView> {
    Seq::new(placements.len(), |i: int| placements[i]@)
}

/// A rule that places copies of an object.
#[derive(Debug, PartialEq, Eq)]
pub enum PatternSpec {
    /// One copy at each offset, in order.
    Offsets(Vec<Point3>),
    /// One copy at each offset within the plane, in order.
    Offsets2d(Vec<Point2>),
    /// One copy at each corner of the rectangle whose corners lie `half_x`
    /// and `half_y` from the origin.
    Grid { half_x: i64, half_y: i64 },
    /// `count` copies turned about z by `step` times `first`, `first + 1`, ...
    Fan { step: i64, first: u32, count: u32 },
    /// The object and its reflection.
    MirrorPair(Axis),
}

/// The view of a [`PatternSpec`].
pub enum PatternView {
    Offsets(Seq<Pos3>),
    Offsets2d(Seq<Pos2>),
    Grid { half_x: int, half_y: int },
    Fan { step: int, first: nat, count: nat },
    MirrorPair(Axis),
}

/// The views of a sequence of points in space, in order.
pub open spec fn positions3(points: Seq<Point3>) -> Seq<Pos3> {
    Seq::new(points.len(), |i: int| points[i]@)
}

/// The views of a sequence of points in the plane, in order.
pub open spec fn positions2(points: Seq<Point2>) -> Seq<Pos2> {
    Seq::new(points.len(), |i: int| points[i]@)
}

impl View for PatternSpec {
    type V = PatternView;

    open spec fn view(&self) -> PatternView {
        match self {
            PatternSpec::Offsets(offsets) => PatternView::Offsets(positions3(offsets@)),
            PatternSpec::Offsets2d(offsets) => PatternView::Offsets2d(positions2(offsets@)),
            PatternSpec::Grid { half_x, half_y } => PatternView::Grid {
                half_x: *half_x as int,
                half_y: *half_y as int,
            },
            PatternSpec::Fan { step, first, count } => PatternView::Fan {
                step: *step as int,
                first: *first as nat,
                count: *count as nat,
            },
            PatternSpec::MirrorPair(axis) => PatternView::MirrorPair(*axis),
        }
    }
}

impl PatternView {
    /// Whether the pattern's dimensions are ones [`place`] accepts.
    pub open spec fn wf(self) -> bool {
        match self {
            PatternView::Grid { half_x, half_y } => i64::MIN < half_x && i64::MIN < half_y,
            PatternView::Fan { step, first, count } => in_range(step),
            _ => true,
        }
    }

    /// The transforms the pattern gives to its copies, in order.
    pub open spec fn placements(self) -> Seq<PlacementView> {
        match self {
            PatternView::Offsets(offsets) => Seq::new(
                offsets.len(),
                |i: int| PlacementView::Shift(offsets[i]),
            ),
            PatternView::Offsets2d(offsets) => Seq::new(
                offsets.len(),
                |i: int| PlacementView::Shift2d(offsets[i]),
            ),
            PatternView::Grid { half_x, half_y } => seq![
                PlacementView::Shift(Pos3 { x: -half_x, y: -half_y, z: 0 }),
                PlacementView::Shift(Pos3 { x: -half_x, y: half_y, z: 0 }),
                PlacementView::Shift(Pos3 { x: half_x, y: -half_y, z: 0 }),
                PlacementView::Shift(Pos3 { x: half_x, y: half_y, z: 0 }),
            ],
            PatternView::Fan { step, first, count } => Seq::new(
                count,
                |i: int| PlacementView::Turn(AngleView::Fixed(step * (first + i)), Axis::Z),
            ),
            PatternView::MirrorPair(axis) => seq![PlacementView::Keep, PlacementView::Flip(axis)],
        }
    }
}

/// One copy of `object` under the transform `placement`.
pub open spec fn placed(placement: PlacementView, object: Shape) -> Shape {
    match placement {
        PlacementView::Keep => object,
        PlacementView::Shift(v) => Shape::wrap(ElementView::Translate(v), object),
        PlacementView::Shift2d(v) => Shape::wrap(ElementView::Translate2d(v), object),
        PlacementView::Turn(angle, axis) => Shape::wrap(ElementView::Rotate(angle, axis), object),
        PlacementView::Flip(axis) => Shape::wrap(ElementView::Mirror(axis), object),
    }
}

/// The copies of `object` under each of `placements`, in order.
pub open spec fn placed_copies(placements: Seq<PlacementView>, object: Shape) -> Seq<Shape> {
    Seq::new(placements.len(), |i: int| placed(placements[i], object))
}

/// The copies a pattern makes of `object`, as children of `element`.
pub open spec fn place_under_shape(element: ElementView, pattern: PatternView, object: Shape) -> Shape {
    Shape::node(element, placed_copies(pattern.placements(), object))
}

/// The group of the copies a pattern makes of `object`.
pub open spec fn place_shape(pattern: PatternView, object: Shape) -> Shape {
    place_under_shape(ElementView::Union, pattern, object)
}

/// Whether an element is one of the transforms a pattern wraps copies in.
pub open spec fn is_placing(element: ElementView) -> bool {
    element is Translate || element is Translate2d || element is Rotate || element is Mirror
}

/// The transform that a member of a group carries on the outside.
pub open spec fn placement_of(member: Shape) -> PlacementView {
    match member.element {
        ElementView::Translate(v) => PlacementView::Shift(v),
        ElementView::Translate2d(v) => PlacementView::Shift2d(v),
        ElementView::Rotate(angle, axis) => PlacementView::Turn(angle, axis),
        ElementView::Mirror(axis) => PlacementView::Flip(axis),
        _ => PlacementView::Keep,
    }
}

/// The transforms that the members of a group carry, in order.
pub open spec fn shape_placements(group: Shape) -> Seq<PlacementView> {
    Seq::new(group.children.len(), |i: int| placement_of(group.children[i]))
}

/// The transforms read back from a placed group are those of the pattern,
/// whatever the object. A pattern that keeps a copy in place puts the object
/// itself into the group, so there the object must not be a transform.
pub proof fn lemma_placements_read_back(pattern: PatternView, object: Shape)
    requires
        pattern is MirrorPair ==> !is_placing(object.element),
    ensures
        shape_placements(place_shape(pattern, object)) == pattern.placements(),
{
    let group = place_shape(pattern, object);
    let expected = pattern.placements();
    assert forall|i: int| 0 <= i < expected.len() implies placement_of(
        #[trigger] group.children[i],
    ) == expected[i] by {
        assert(group.children[i] == placed(expected[i], object));
    }
    assert(shape_placements(group) =~= expected);
}

/// Two objects placed by one pattern carry the same transforms, member for
/// member.
pub proof fn lemma_same_pattern_same_placements(pattern: PatternView, a: Shape, b: Shape)
    requires
        pattern is MirrorPair ==> !is_placing(a.element) && !is_placing(b.element),
    ensures
        shape_placements(place_shape(pattern, a)) == shape_placements(place_shape(pattern, b)),
        place_shape(pattern, a).children.len() == place_shape(pattern, b).children.len(),
{
    lemma_placements_read_back(pattern, a);
    lemma_placements_read_back(pattern, b);
}

/// A pattern without copies places nothing: the group is empty.
pub proof fn lemma_empty_pattern(pattern: PatternView, object: Shape)
    requires
        pattern.placements().len() == 0,
    ensures
        place_shape(pattern, object) == Shape::leaf(ElementView::Union),
{
    assert(placed_copies(pattern.placements(), object) =~= Seq::<Shape>::empty());
}

/// The mirror-pair pattern makes a shape and its mirror image.
pub proof fn lemma_mirror_pair_pattern(axis: Axis, object: Shape)
    ensures
        place_shape(PatternView::MirrorPair(axis), object) == mirror_pair_shape(axis, object),
{
    let pattern = PatternView::MirrorPair(axis);
    assert(placed_copies(pattern.placements(), object) =~= seq![
        object,
        Shape::wrap(ElementView::Mirror(axis), object),
    ]);
}

impl PatternSpec {
    /// The transforms the pattern gives to its copies, in order.
    pub fn placements(&self) -> (r: Vec<Placement>)
        requires
            self@.wf(),
        ensures
            placement_views(r@) == self@.placements(),
    {
        let mut list: Vec<Placement> = Vec::new();
        match self {
            PatternSpec::Offsets(offsets) => {
                let mut i: usize = 0;
                while i < offsets.len()
                    invariant
                        i <= offsets.len(),
                        list.len() == i,
                        forall|j: int| 0 <= j < i ==> list[j] == Placement::Shift(offsets[j]),
                    decreases offsets.len() - i,
                {
                    list.push(Placement::Shift(offsets[i]));
                    i = i + 1;
                }
                assert(placement_views(list@) =~= self@.placements());
            },
            PatternSpec::Offsets2d(offsets) => {
                let mut i: usize = 0;
                while i < offsets.len()
                    invariant
                        i <= offsets.len(),
                        list.len() == i,
                        forall|j: int| 0 <= j < i ==> list[j] == Placement::Shift2d(offsets[j]),
                    decreases offsets.len() - i,
                {
                    list.push(Placement::Shift2d(offsets[i]));
                    i = i + 1;
                }
                assert(placement_views(list@) =~= self@.placements());
            },
            PatternSpec::Grid { half_x, half_y } => {
                let hx: i64 = *half_x;
                let hy: i64 = *half_y;
                list.push(Placement::Shift(Point3 { x: -hx, y: -hy, z: 0 }));
                list.push(Placement::Shift(Point3 { x: -hx, y: hy, z: 0 }));
                list.push(Placement::Shift(Point3 { x: hx, y: -hy, z: 0 }));
                list.push(Placement::Shift(Point3 { x: hx, y: hy, z: 0 }));
                assert(placement_views(list@) =~= self@.placements());
            },
            PatternSpec::Fan { step, first, count } => {
                let step: i64 = *step;
                let first: u32 = *first;
                let count: u32 = *count;
                let mut i: u32 = 0;
                while i < count
                    invariant
                        i <= count,
                        list.len() == i,
                        in_range(step as int),
                        forall|j: int|
                            0 <= j < i ==> (#[trigger] list[j])@ == PlacementView::Turn(
                                AngleView::Fixed(step * (first + j)),
                                Axis::Z,
                            ),
                    decreases count - i,
                {
                    let index: i64 = first as i64 + i as i64;
                    assert(-900_000_000_000_000_000 <= step * index <= 900_000_000_000_000_000)
                        by (nonlinear_arith)
                        requires
                            -100_000_000 <= step <= 100_000_000,
                            0 <= index <= 9_000_000_000,
                    ;
                    let angle: i64 = step * index;
                    list.push(Placement::Turn(Angle::Fixed(angle), Axis::Z));
                    i = i + 1;
                }
                assert(placement_views(list@) =~= self@.placements());
            },
            PatternSpec::MirrorPair(axis) => {
                list.push(Placement::Keep);
                list.push(Placement::Flip(*axis));
                assert(placement_views(list@) =~= self@.placements());
            },
        }
        list
    }
}

/// One copy of `object` under the transform `placement`.
pub fn apply(placement: Placement, object: Node) -> (r: Node)
    ensures
        r@ == placed(placement@, object@),
{
    match placement {
        Placement::Keep => object,
        Placement::Shift(v) => Node::wrap(Element::Translate(v), object),
        Placement::Shift2d(v) => Node::wrap(Element::Translate2d(v), object),
        Placement::Turn(angle, axis) => Node::wrap(Element::Rotate(angle, axis), object),
        Placement::Flip(axis) => Node::wrap(Element::Mirror(axis), object),
    }
}

/// Places copies of `object` by `pattern` as the children of `element`.
pub fn place_under(element: Element, pattern: &PatternSpec, object: &Node) -> (r: Node)
    requires
        pattern@.wf(),
    ensures
        r@ == place_under_shape(element@, pattern@, object@),
{
    let placements = pattern.placements();
    let mut copies: Vec<Node> = Vec::new();
    let mut i: usize = 0;
    while i < placements.len()
        invariant
            i <= placements.len(),
            copies.len() == i,
            forall|j: int| 0 <= j < i ==> copies[j]@ == placed(placements[j]@, object@),
        decreases placements.len() - i,
    {
        let copy = apply(placements[i], object.duplicate());
        copies.push(copy);
        i = i + 1;
    }
    let r = Node::new(element, copies);
    proof {
        assert(r@.children =~= placed_copies(placement_views(placements@), object@));
    }
    r
}

/// Places copies of `object` by `pattern` and joins them in one group.
/// A pattern without copies gives an empty group.
pub fn place(pattern: &PatternSpec, object: &Node) -> (r: Node)
    requires
        pattern@.wf(),
    ensures
        r@ == place_shape(pattern@, object@),
        r@.element == ElementView::Union,
        r@.children.len() == pattern@.placements().len(),
{
    place_under(Element::Union, pattern, object)
}

/// The object and its mirror image, joined in one group.
pub fn mirror_pair(axis: Axis, object: &Node) -> (r: Node)
    ensures
        r@ == mirror_pair_shape(axis, object@),
{
    let r = place(&PatternSpec::MirrorPair(axis), object);
    proof {
        lemma_mirror_pair_pattern(axis, object@);
    }
    r
}

/// Reads back the transform that each member of a group carries.
pub fn placements_of(group: &Node) -> (r: Vec<Placement>)
    ensures
        placement_views(r@) == shape_placements(group@),
{
    let mut list: Vec<Placement> = Vec::new();
    let mut i: usize = 0;
    proof {
        lemma_shapes_of(group.children@);
    }
    while i < group.children.len()
        invariant
            i <= group.children.len(),
            list.len() == i,
            forall|j: int| 0 <= j < i ==> list[j]@ == placement_of(group.children[j]@),
        decreases group.children.len() - i,
    {
        let placement = match &group.children[i].element {
            Element::Translate(v) => Placement::Shift(*v),
            Element::Translate2d(v) => Placement::Shift2d(*v),
            Element::Rotate(angle, axis) => Placement::Turn(*angle, *axis),
            Element::Mirror(axis) => Placement::Flip(*axis),
            _ => Placement::Keep,
        };
        list.push(placement);
        i = i + 1;
    }
    assert(placement_views(list@) =~= shape_placements(group@));
    list
}

} // verus!
