//! Walls of even thickness.
//!
//! A lip, a rim or a sleeve is never drawn as two outlines. It is what lies
//! between two offsets of one outline, so that its thickness is the
//! difference of the two offsets and stays so when the outline changes.

use vstd::prelude::*;
use crate::geometry::{
    extruded, extruded_shape, offset, offset_shape, Element, ElementView, Node, OffsetKind,
    OffsetKindView, Shape,
};

verus! {

/// A wall of even thickness: what lies between two offsets of one outline,
/// swept upward to `height`.
pub open spec fn wall_shape(
    outline: Shape,
    outer: OffsetKindView,
    inner: OffsetKindView,
    height: int,
) -> Shape {
    Shape::node(
        ElementView::Difference,
        seq![
            extruded_shape(height, offset_shape(outer, outline)),
            extruded_shape(height, offset_shape(inner, outline)),
        ],
    )
}

/// The outline that a face of a wall is an offset of.
pub open spec fn wall_face_outline(wall: Shape, face: int) -> Shape {
    wall.children[face].children[0].children[0]
}

/// How far a face of a wall lies outside the outline it is an offset of.
pub open spec fn wall_face_amount(wall: Shape, face: int) -> int {
    match wall.children[face].children[0].element {
        ElementView::Offset(kind, chamfer) => kind.amount(),
        _ => 0,
    }
}

/// Both faces of a wall are offsets of the same outline, and the distance
/// between them is the difference of the two offsets, whatever the outline.
pub proof fn lemma_wall_faces(
    outline: Shape,
    outer: OffsetKindView,
    inner: OffsetKindView,
    height: int,
)
    ensures
        wall_face_outline(wall_shape(outline, outer, inner, height), 0) == outline,
        wall_face_outline(wall_shape(outline, outer, inner, height), 1) == outline,
        wall_face_amount(wall_shape(outline, outer, inner, height), 0) - wall_face_amount(
            wall_shape(outline, outer, inner, height),
            1,
        ) == outer.amount() - inner.amount(),
{
}

/// Builds a wall between two offsets of one outline.
pub fn wall(outline: &Node, outer: OffsetKind, inner: OffsetKind, height: i64) -> (r: Node)
    ensures
        r@ == wall_shape(outline@, outer@, inner@, height as int),
{
    Node::with2(
        Element::Difference,
        extruded(height, offset(outer, outline.duplicate())),
        extruded(height, offset(inner, outline.duplicate())),
    )
}

} // verus!
