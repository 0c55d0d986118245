//! What a tree covers.
//!
//! The library builds trees and leaves their evaluation to a renderer. Still,
//! some elements have a meaning that no renderer is free to change: a union
//! covers what any child covers, a mirror covers the reflection of what its
//! children cover, a box covers a box. [`occupies`] fixes that meaning on the
//! points of the lattice of whole units and takes everything else (discs,
//! polygons, hulls, offsets, extrusions, rotations) from a `reading`, which
//! stands for whatever the renderer makes of them. The laws below hold for
//! every reading.

use vstd::prelude::*;
use crate::geometry::{Axis, ElementView, Pos3, Shape};

verus! {

/// The reflection of `p` in the plane through the origin with normal `axis`.
pub open spec fn reflect(axis: Axis, p: Pos3) -> Pos3 {
    match axis {
        Axis::X => Pos3 { x: -p.x, y: p.y, z: p.z },
        Axis::Y => Pos3 { x: p.x, y: -p.y, z: p.z },
        Axis::Z => Pos3 { x: p.x, y: p.y, z: -p.z },
    }
}

/// The coordinate of `p` along `axis`.
pub open spec fn coordinate(axis: Axis, p: Pos3) -> int {
    match axis {
        Axis::X => p.x,
        Axis::Y => p.y,
        Axis::Z => p.z,
    }
}

/// Whether `shape` covers the lattice point `p`, given the renderer's
/// `reading` of the elements whose extent the library does not define.
pub open spec fn occupies(shape: Shape, reading: spec_fn(Shape, Pos3) -> bool, p: Pos3) -> bool
    decreases shape,
{
    match shape.element {
        ElementView::Union => exists|i: int|
            0 <= i < shape.children.len() && occupies(#[trigger] shape.children[i], reading, p),
        ElementView::Color(_) => exists|i: int|
            0 <= i < shape.children.len() && occupies(#[trigger] shape.children[i], reading, p),
        ElementView::Difference => {
            &&& shape.children.len() > 0
            &&& occupies(shape.children[0], reading, p)
            &&& forall|i: int|
                1 <= i < shape.children.len() ==> !occupies(
                    #[trigger] shape.children[i],
                    reading,
                    p,
                )
        },
        ElementView::Intersection => {
            &&& shape.children.len() > 0
            &&& forall|i: int|
                0 <= i < shape.children.len() ==> occupies(
                    #[trigger] shape.children[i],
                    reading,
                    p,
                )
        },
        ElementView::Translate(v) => exists|i: int|
            0 <= i < shape.children.len() && occupies(
                #[trigger] shape.children[i],
                reading,
                Pos3 { x: p.x - v.x, y: p.y - v.y, z: p.z - v.z },
            ),
        ElementView::Translate2d(v) => exists|i: int|
            0 <= i < shape.children.len() && occupies(
                #[trigger] shape.children[i],
                reading,
                Pos3 { x: p.x - v.x, y: p.y - v.y, z: p.z },
            ),
        ElementView::Mirror(axis) => exists|i: int|
            0 <= i < shape.children.len() && occupies(
                #[trigger] shape.children[i],
                reading,
                reflect(axis, p),
            ),
        ElementView::Cube(size) => {
            &&& 0 <= p.x <= size.x
            &&& 0 <= p.y <= size.y
            &&& 0 <= p.z <= size.z
        },
        _ => reading(shape, p),
    }
}

/// A shape together with its mirror image.
pub open spec fn mirror_pair_shape(axis: Axis, object: Shape) -> Shape {
    Shape::node(
        ElementView::Union,
        seq![object, Shape::wrap(ElementView::Mirror(axis), object)],
    )
}

/// A shape cut down to what lies inside `envelope`.
pub open spec fn clipped(part: Shape, envelope: Shape) -> Shape {
    Shape::node(ElementView::Intersection, seq![part, envelope])
}

/// Reflecting twice gives the point back, and reflecting negates the
/// coordinate along the axis.
pub proof fn lemma_reflect(axis: Axis, p: Pos3)
    ensures
        reflect(axis, reflect(axis, p)) == p,
        coordinate(axis, reflect(axis, p)) == -coordinate(axis, p),
{
}

/// A shape joined with its mirror image covers a point exactly when it
/// covers the point's reflection: its extent along the mirrored axis is
/// symmetric about zero.
pub proof fn lemma_mirror_pair_symmetric(
    axis: Axis,
    object: Shape,
    reading: spec_fn(Shape, Pos3) -> bool,
    p: Pos3,
)
    ensures
        occupies(mirror_pair_shape(axis, object), reading, p) == occupies(
            mirror_pair_shape(axis, object),
            reading,
            reflect(axis, p),
        ),
{
    lemma_reflect(axis, p);
    lemma_mirror_pair_covers(axis, object, reading, p);
    lemma_mirror_pair_covers(axis, object, reading, reflect(axis, p));
}

/// A shape joined with its mirror image covers what the shape covers and
/// what its reflection covers, and nothing else.
pub proof fn lemma_mirror_pair_covers(
    axis: Axis,
    object: Shape,
    reading: spec_fn(Shape, Pos3) -> bool,
    p: Pos3,
)
    ensures
        occupies(mirror_pair_shape(axis, object), reading, p) == (occupies(object, reading, p)
            || occupies(object, reading, reflect(axis, p))),
{
    let pair = mirror_pair_shape(axis, object);
    let image = Shape::wrap(ElementView::Mirror(axis), object);
    assert(pair.children[0] == object);
    assert(pair.children[1] == image);
    assert(image.children[0] == object);
    assert(occupies(image, reading, p) == occupies(object, reading, reflect(axis, p))) by {
        if occupies(object, reading, reflect(axis, p)) {
            assert(occupies(image.children[0], reading, reflect(axis, p)));
        }
    }
    if occupies(object, reading, p) {
        assert(occupies(pair.children[0], reading, p));
    }
    if occupies(image, reading, p) {
        assert(occupies(pair.children[1], reading, p));
    }
}

/// Whether `shape` covers some point whose coordinate along `axis` is `c`.
pub open spec fn reaches(
    shape: Shape,
    reading: spec_fn(Shape, Pos3) -> bool,
    axis: Axis,
    c: int,
) -> bool {
    exists|p: Pos3| coordinate(axis, p) == c && #[trigger] occupies(shape, reading, p)
}

/// A shape joined with its mirror image reaches as far to one side of the
/// mirror plane as to the other.
pub proof fn lemma_mirror_pair_extent_symmetric(
    axis: Axis,
    object: Shape,
    reading: spec_fn(Shape, Pos3) -> bool,
    c: int,
)
    ensures
        reaches(mirror_pair_shape(axis, object), reading, axis, c) == reaches(
            mirror_pair_shape(axis, object),
            reading,
            axis,
            -c,
        ),
{
    let pair = mirror_pair_shape(axis, object);
    if reaches(pair, reading, axis, c) {
        let p = choose|p: Pos3| coordinate(axis, p) == c && #[trigger] occupies(pair, reading, p);
        lemma_mirror_pair_symmetric(axis, object, reading, p);
        lemma_reflect(axis, p);
        assert(occupies(pair, reading, reflect(axis, p)));
    }
    if reaches(pair, reading, axis, -c) {
        let p = choose|p: Pos3| coordinate(axis, p) == -c && #[trigger] occupies(pair, reading, p);
        lemma_mirror_pair_symmetric(axis, object, reading, p);
        lemma_reflect(axis, p);
        assert(occupies(pair, reading, reflect(axis, p)));
    }
}

/// What an intersection covers, each of its children covers.
pub proof fn lemma_intersection_within_child(
    shape: Shape,
    i: int,
    reading: spec_fn(Shape, Pos3) -> bool,
    p: Pos3,
)
    requires
        shape.element == ElementView::Intersection,
        0 <= i < shape.children.len(),
        occupies(shape, reading, p),
    ensures
        occupies(shape.children[i], reading, p),
{
}

/// What a difference covers, its first child covers.
pub proof fn lemma_difference_within_first(
    shape: Shape,
    reading: spec_fn(Shape, Pos3) -> bool,
    p: Pos3,
)
    requires
        shape.element == ElementView::Difference,
        occupies(shape, reading, p),
    ensures
        shape.children.len() > 0,
        occupies(shape.children[0], reading, p),
{
}

/// What the intersection of some shapes covers, their union covers too.
pub proof fn lemma_intersection_within_union(
    children: Seq<Shape>,
    reading: spec_fn(Shape, Pos3) -> bool,
    p: Pos3,
)
    requires
        occupies(Shape::node(ElementView::Intersection, children), reading, p),
    ensures
        occupies(Shape::node(ElementView::Union, children), reading, p),
{
    let all = Shape::node(ElementView::Intersection, children);
    let any = Shape::node(ElementView::Union, children);
    assert(occupies(all.children[0], reading, p));
    assert(occupies(any.children[0], reading, p));
}

/// A clipped part covers exactly the points of the part that the envelope
/// covers.
pub proof fn lemma_clipped_covers(
    part: Shape,
    envelope: Shape,
    reading: spec_fn(Shape, Pos3) -> bool,
    p: Pos3,
)
    ensures
        occupies(clipped(part, envelope), reading, p) == (occupies(part, reading, p) && occupies(
            envelope,
            reading,
            p,
        )),
{
    let c = clipped(part, envelope);
    assert(c.children[0] == part);
    assert(c.children[1] == envelope);
    if occupies(c, reading, p) {
        assert(occupies(c.children[0], reading, p));
        assert(occupies(c.children[1], reading, p));
    }
}

/// Clipping a part that is already clipped changes nothing: the part covers
/// the same points as before, all of them inside the envelope.
pub proof fn lemma_clip_idempotent(
    part: Shape,
    envelope: Shape,
    reading: spec_fn(Shape, Pos3) -> bool,
    p: Pos3,
)
    ensures
        occupies(clipped(clipped(part, envelope), envelope), reading, p) == occupies(
            clipped(part, envelope),
            reading,
            p,
        ),
        occupies(clipped(part, envelope), reading, p) ==> occupies(envelope, reading, p),
{
    lemma_clipped_covers(part, envelope, reading, p);
    lemma_clipped_covers(clipped(part, envelope), envelope, reading, p);
}

} // verus!
