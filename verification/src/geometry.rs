//! The geometry tree: elements, nodes, and their mathematical views.
//!
//! A [`Node`] is one element with the nodes it applies to. Nodes own their
//! children and are never changed once built; a shape needed twice is
//! duplicated. Contracts speak of a node through its view, a [`Shape`], whose
//! dimensions are unbounded integers and whose children form a sequence.

use vstd::prelude::*;
use crate::units::quot;

verus! {

/// A point or extent in the plane, in tenths of a micrometre.
#[derive(Clone, Copy, Debug, PartialEq, Eq)]
pub struct Point2 {
    pub x: i64,
    pub y: i64,
}

/// A point or extent in space, in tenths of a micrometre.
#[derive(Clone, Copy, Debug, PartialEq, Eq)]
pub struct Point3 {
    pub x: i64,
    pub y: i64,
    pub z: i64,
}

/// The view of a [`Point2`].
pub struct Pos2 {
    pub x: int,
    pub y: int,
}

/// The view of a [`Point3`]; also a point of the lattice of whole units.
pub struct Pos3 {
    pub x: int,
    pub y: int,
    pub z: int,
}

impl View for Point2 {
    type V = Pos2;

    open spec fn view(&self) -> Pos2 {
        Pos2 { x: self.x as int, y: self.y as int }
    }
}

impl View for Point3 {
    type V = Pos3;

    open spec fn view(&self) -> Pos3 {
        Pos3 { x: self.x as int, y: self.y as int, z: self.z as int }
    }
}

/// One of the three coordinate axes.
#[derive(Clone, Copy, Debug, PartialEq, Eq, Structural)]
pub enum Axis {
    X,
    Y,
    Z,
}

/// A colour the renderer knows by name.
#[derive(Clone, Copy, Debug, PartialEq, Eq, Structural)]
pub enum Tint {
    Crimson,
    SaddleBrown,
}

/// The size of a round shape, by radius or by diameter.
#[derive(Clone, Copy, Debug, PartialEq, Eq)]
pub enum CircleSize {
    Radius(i64),
    Diameter(i64),
}

/// The view of a [`CircleSize`].
pub enum CircleSizeView {
    Radius(int),
    Diameter(int),
}

impl View for CircleSize {
    type V = CircleSizeView;

    open spec fn view(&self) -> CircleSizeView {
        match self {
            CircleSize::Radius(r) => CircleSizeView::Radius(*r as int),
            CircleSize::Diameter(d) => CircleSizeView::Diameter(*d as int),
        }
    }
}

/// How an outline is grown or shrunk: `Radius` rounds the corners, `Delta`
/// keeps them sharp. A negative amount shrinks.
#[derive(Clone, Copy, Debug, PartialEq, Eq)]
pub enum OffsetKind {
    Delta(i64),
    Radius(i64),
}

/// The view of an [`OffsetKind`].
pub enum OffsetKindView {
    Delta(int),
    Radius(int),
}

impl OffsetKindView {
    /// The signed distance by which the outline moves.
    pub open spec fn amount(self) -> int {
        match self {
            OffsetKindView::Delta(d) => d,
            OffsetKindView::Radius(r) => r,
        }
    }
}

impl View for OffsetKind {
    type V = OffsetKindView;

    open spec fn view(&self) -> OffsetKindView {
        match self {
            OffsetKind::Delta(d) => OffsetKindView::Delta(*d as int),
            OffsetKind::Radius(r) => OffsetKindView::Radius(*r as int),
        }
    }
}

/// An angle of rotation.
#[derive(Clone, Copy, Debug, PartialEq, Eq)]
pub enum Angle {
    /// Thousandths of a degree.
    Fixed(i64),
    /// The angle whose tangent is `rise / run`, in the quadrant of the point
    /// `(run, rise)`; the renderer evaluates it.
    Slope { rise: i64, run: i64 },
}

/// The view of an [`Angle`].
pub enum AngleView {
    Fixed(int),
    Slope { rise: int, run: int },
}

impl View for Angle {
    type V = AngleView;

    open spec fn view(&self) -> AngleView {
        match self {
            Angle::Fixed(a) => AngleView::Fixed(*a as int),
            Angle::Slope { rise, run } => AngleView::Slope { rise: *rise as int, run: *run as int },
        }
    }
}

/// What a node does: a primitive shape, a transform, a boolean combination,
/// an extrusion or an outline offset.
#[derive(Debug, PartialEq, Eq)]
pub enum Element {
    /// Moves its children by a vector.
    Translate(Point3),
    /// Moves flat children within the plane.
    Translate2d(Point2),
    /// Scales flat children; the factors are thousandths.
    Scale2d(Point2),
    /// Turns its children about an axis through the origin.
    Rotate(Angle, Axis),
    /// Reflects its children in the plane through the origin whose normal is the axis.
    Mirror(Axis),
    /// Sweeps a flat outline along z; `center` puts half of it below the plane.
    LinearExtrude { height: i64, center: bool },
    /// Sweeps a flat outline once around the z axis.
    RotateExtrude,
    /// Everything in any child.
    Union,
    /// The first child without what the others cover.
    Difference,
    /// What all children have in common.
    Intersection,
    /// The convex hull of the children.
    Hull,
    /// A box with one corner at the origin.
    Cube(Point3),
    /// A cylinder standing on the plane.
    Cylinder(i64, CircleSize),
    /// A ball about the origin.
    Sphere(CircleSize),
    /// A hexagonal prism, `width` across its flats.
    Nut { width: i64, height: i64 },
    /// A rectangle with one corner at the origin.
    Square(Point2),
    /// A disc about the origin.
    Circle(CircleSize),
    /// A polygon through `points`; a non-empty `path` gives the order in
    /// which the boundary visits them.
    Polygon { points: Vec<Point2>, path: Vec<usize> },
    /// Grows or shrinks a flat outline.
    Offset(OffsetKind, bool),
    /// Shows its children in a named colour.
    Color(Tint),
}

/// The view of an [`Element`].
pub enum ElementView {
    Translate(Pos3),
    Translate2d(Pos2),
    Scale2d(Pos2),
    Rotate(AngleView, Axis),
    Mirror(Axis),
    LinearExtrude { height: int, center: bool },
    RotateExtrude,
    Union,
    Difference,
    Intersection,
    Hull,
    Cube(Pos3),
    Cylinder(int, CircleSizeView),
    Sphere(CircleSizeView),
    Nut { width: int, height: int },
    Square(Pos2),
    Circle(CircleSizeView),
    Polygon { points: Seq<Pos2>, path: Seq<usize> },
    Offset(OffsetKindView, bool),
    Color(Tint),
}

/// The views of a sequence of points, in order.
pub open spec fn positions(points: Seq<Point2>) -> Seq<Pos2> {
    Seq::new(points.len(), |i: int| points[i]@)
}

impl View for Element {
    type V = ElementView;

    open spec fn view(&self) -> ElementView {
        match self {
            Element::Translate(v) => ElementView::Translate(v@),
            Element::Translate2d(v) => ElementView::Translate2d(v@),
            Element::Scale2d(v) => ElementView::Scale2d(v@),
            Element::Rotate(angle, axis) => ElementView::Rotate(angle@, *axis),
            Element::Mirror(axis) => ElementView::Mirror(*axis),
            Element::LinearExtrude { height, center } => ElementView::LinearExtrude {
                height: *height as int,
                center: *center,
            },
            Element::RotateExtrude => ElementView::RotateExtrude,
            Element::Union => ElementView::Union,
            Element::Difference => ElementView::Difference,
            Element::Intersection => ElementView::Intersection,
            Element::Hull => ElementView::Hull,
            Element::Cube(size) => ElementView::Cube(size@),
            Element::Cylinder(height, size) => ElementView::Cylinder(*height as int, size@),
            Element::Sphere(size) => ElementView::Sphere(size@),
            Element::Nut { width, height } => ElementView::Nut {
                width: *width as int,
                height: *height as int,
            },
            Element::Square(size) => ElementView::Square(size@),
            Element::Circle(size) => ElementView::Circle(size@),
            Element::Polygon { points, path } => ElementView::Polygon {
                points: positions(points@),
                path: path@,
            },
            Element::Offset(kind, chamfer) => ElementView::Offset(kind@, *chamfer),
            Element::Color(tint) => ElementView::Color(*tint),
        }
    }
}

impl Element {
    /// A copy of the element.
    pub fn duplicate(&self) -> (r: Element)
        ensures
            r@ == self@,
    {
        match self {
            Element::Translate(v) => Element::Translate(*v),
            Element::Translate2d(v) => Element::Translate2d(*v),
            Element::Scale2d(v) => Element::Scale2d(*v),
            Element::Rotate(angle, axis) => Element::Rotate(*angle, *axis),
            Element::Mirror(axis) => Element::Mirror(*axis),
            Element::LinearExtrude { height, center } => Element::LinearExtrude {
                height: *height,
                center: *center,
            },
            Element::RotateExtrude => Element::RotateExtrude,
            Element::Union => Element::Union,
            Element::Difference => Element::Difference,
            Element::Intersection => Element::Intersection,
            Element::Hull => Element::Hull,
            Element::Cube(size) => Element::Cube(*size),
            Element::Cylinder(height, size) => Element::Cylinder(*height, *size),
            Element::Sphere(size) => Element::Sphere(*size),
            Element::Nut { width, height } => Element::Nut { width: *width, height: *height },
            Element::Square(size) => Element::Square(*size),
            Element::Circle(size) => Element::Circle(*size),
            Element::Polygon { points, path } => Element::Polygon {
                points: points.clone(),
                path: path.clone(),
            },
            Element::Offset(kind, chamfer) => Element::Offset(*kind, *chamfer),
            Element::Color(tint) => Element::Color(*tint),
        }
    }
}

impl Clone for Element {
    fn clone(&self) -> (r: Element)
        ensures
            r@ == self@,
    {
        self.duplicate()
    }
}

/// One element and the nodes it applies to.
#[derive(Debug, PartialEq, Eq)]
pub struct Node {
    pub element: Element,
    pub children: Vec<Node>,
}

/// The view of a [`Node`]: the tree as a mathematical value.
pub struct Shape {
    pub element: ElementView,
    pub children: Seq<Shape>,
}

/// The views of a sequence of nodes, in order.
pub open spec fn shapes_of(nodes: Seq<Node>) -> Seq<Shape>
    decreases nodes,
{
    if nodes.len() == 0 {
        Seq::empty()
    } else {
        shapes_of(nodes.drop_last()).push(nodes.last()@)
    }
}

impl View for Node {
    type V = Shape;

    open spec fn view(&self) -> Shape
        decreases self,
    {
        Shape { element: self.element@, children: shapes_of(self.children@) }
    }
}

/// `shapes_of` keeps the length and views each node in place.
pub proof fn lemma_shapes_of(nodes: Seq<Node>)
    ensures
        shapes_of(nodes).len() == nodes.len(),
        forall|i: int| 0 <= i < nodes.len() ==> (#[trigger] shapes_of(nodes)[i]) == nodes[i]@,
    decreases nodes.len(),
{
    if nodes.len() > 0 {
        let front = nodes.drop_last();
        lemma_shapes_of(front);
        assert(shapes_of(nodes) == shapes_of(front).push(nodes.last()@));
        assert forall|i: int| 0 <= i < nodes.len() implies (#[trigger] shapes_of(nodes)[i])
            == nodes[i]@ by {
            if i < nodes.len() - 1 {
                assert(front[i] == nodes[i]);
                assert(shapes_of(front)[i] == front[i]@);
            }
        }
    }
}

/// `shapes_of` distributes over appending one node.
pub proof fn lemma_shapes_of_push(nodes: Seq<Node>, node: Node)
    ensures
        shapes_of(nodes.push(node)) == shapes_of(nodes).push(node@),
{
    assert(nodes.push(node).drop_last() =~= nodes);
}

/// The point of the plane with the given coordinates.
pub open spec fn pos2(x: int, y: int) -> Pos2 {
    Pos2 { x, y }
}

/// The point of space with the given coordinates.
pub open spec fn pos3(x: int, y: int, z: int) -> Pos3 {
    Pos3 { x, y, z }
}

impl Shape {
    /// A shape without children.
    pub open spec fn leaf(element: ElementView) -> Shape {
        Shape { element, children: Seq::empty() }
    }

    /// An element applied to one shape.
    pub open spec fn wrap(element: ElementView, child: Shape) -> Shape {
        Shape { element, children: seq![child] }
    }

    /// An element applied to a sequence of shapes.
    pub open spec fn node(element: ElementView, children: Seq<Shape>) -> Shape {
        Shape { element, children }
    }
}

impl Node {
    /// A node built from finished children.
    pub fn new(element: Element, children: Vec<Node>) -> (r: Node)
        ensures
            r@ == Shape::node(element@, shapes_of(children@)),
            r@.children.len() == children.len(),
            forall|i: int| 0 <= i < children.len() ==> (#[trigger] r@.children[i]) == children[i]@,
    {
        proof {
            lemma_shapes_of(children@);
        }
        Node { element, children }
    }

    /// A node without children.
    pub fn leaf(element: Element) -> (r: Node)
        ensures
            r@ == Shape::leaf(element@),
    {
        Node { element, children: Vec::new() }
    }

    /// An element applied to one node.
    pub fn wrap(element: Element, a: Node) -> (r: Node)
        ensures
            r@ == Shape::wrap(element@, a@),
    {
        let mut children: Vec<Node> = Vec::new();
        children.push(a);
        let r = Node::new(element, children);
        assert(r@.children =~= seq![a@]);
        r
    }

    /// An element applied to two nodes.
    pub fn with2(element: Element, a: Node, b: Node) -> (r: Node)
        ensures
            r@ == Shape::node(element@, seq![a@, b@]),
    {
        let mut children: Vec<Node> = Vec::new();
        children.push(a);
        children.push(b);
        let r = Node::new(element, children);
        assert(r@.children =~= seq![a@, b@]);
        r
    }

    /// An element applied to three nodes.
    pub fn with3(element: Element, a: Node, b: Node, c: Node) -> (r: Node)
        ensures
            r@ == Shape::node(element@, seq![a@, b@, c@]),
    {
        let mut children: Vec<Node> = Vec::new();
        children.push(a);
        children.push(b);
        children.push(c);
        let r = Node::new(element, children);
        assert(r@.children =~= seq![a@, b@, c@]);
        r
    }

    /// An element applied to four nodes.
    pub fn with4(element: Element, a: Node, b: Node, c: Node, d: Node) -> (r: Node)
        ensures
            r@ == Shape::node(element@, seq![a@, b@, c@, d@]),
    {
        let mut children: Vec<Node> = Vec::new();
        children.push(a);
        children.push(b);
        children.push(c);
        children.push(d);
        let r = Node::new(element, children);
        assert(r@.children =~= seq![a@, b@, c@, d@]);
        r
    }

    /// An element applied to five nodes.
    pub fn with5(element: Element, a: Node, b: Node, c: Node, d: Node, e: Node) -> (r: Node)
        ensures
            r@ == Shape::node(element@, seq![a@, b@, c@, d@, e@]),
    {
        let mut children: Vec<Node> = Vec::new();
        children.push(a);
        children.push(b);
        children.push(c);
        children.push(d);
        children.push(e);
        let r = Node::new(element, children);
        assert(r@.children =~= seq![a@, b@, c@, d@, e@]);
        r
    }

    /// An element applied to six nodes.
    pub fn with6(
        element: Element,
        a: Node,
        b: Node,
        c: Node,
        d: Node,
        e: Node,
        f: Node,
    ) -> (r: Node)
        ensures
            r@ == Shape::node(element@, seq![a@, b@, c@, d@, e@, f@]),
    {
        let mut children: Vec<Node> = Vec::new();
        children.push(a);
        children.push(b);
        children.push(c);
        children.push(d);
        children.push(e);
        children.push(f);
        let r = Node::new(element, children);
        assert(r@.children =~= seq![a@, b@, c@, d@, e@, f@]);
        r
    }

    /// The node with one more child at the end.
    pub fn with_child(self, child: Node) -> (r: Node)
        ensures
            r@ == Shape::node(self@.element, self@.children.push(child@)),
    {
        let Node { element, children } = self;
        let mut children = children;
        proof {
            lemma_shapes_of_push(children@, child);
        }
        children.push(child);
        Node::new(element, children)
    }

    /// A copy of the whole tree.
    pub fn duplicate(&self) -> (r: Node)
        ensures
            r@ == self@,
        decreases self,
    {
        let mut children: Vec<Node> = Vec::new();
        let mut i: usize = 0;
        while i < self.children.len()
            invariant
                i <= self.children.len(),
                children.len() == i,
                forall|j: int| 0 <= j < i ==> children[j]@ == self.children[j]@,
            decreases self.children.len() - i,
        {
            let child = self.children[i].duplicate();
            children.push(child);
            i = i + 1;
        }
        let element = self.element.duplicate();
        let r = Node::new(element, children);
        proof {
            lemma_shapes_of(self.children@);
            assert(r@.children =~= self@.children);
        }
        r
    }
}

impl Clone for Node {
    fn clone(&self) -> (r: Node)
        ensures
            r@ == self@,
    {
        self.duplicate()
    }
}

/// The shape of a polygon through the given points, in the given order.
pub open spec fn polygon_shape(points: Seq<Pos2>) -> Shape {
    Shape::leaf(ElementView::Polygon { points, path: Seq::empty() })
}

/// The points of a polygon, in order; none for any other shape.
pub open spec fn polygon_points(shape: Shape) -> Seq<Pos2> {
    match shape.element {
        ElementView::Polygon { points, path } => points,
        _ => Seq::empty(),
    }
}

/// The shape of a polygon whose boundary visits `points` in the order `path`.
pub open spec fn polygon_path_shape(points: Seq<Pos2>, path: Seq<usize>) -> Shape {
    Shape::leaf(ElementView::Polygon { points, path })
}

/// The order in which a polygon's boundary visits its points; empty for the
/// order in which they are listed, and for any other shape.
pub open spec fn polygon_path(shape: Shape) -> Seq<usize> {
    match shape.element {
        ElementView::Polygon { points, path } => path,
        _ => Seq::empty(),
    }
}

/// The shape of a cylinder standing on the plane.
pub open spec fn cylinder_shape(height: int, size: CircleSizeView) -> Shape {
    Shape::leaf(ElementView::Cylinder(height, size))
}

/// The shape of a disc about the origin.
pub open spec fn circle_shape(size: CircleSizeView) -> Shape {
    Shape::leaf(ElementView::Circle(size))
}

/// The shape of an outline grown or shrunk, with sharp or rounded corners.
pub open spec fn offset_shape(kind: OffsetKindView, outline: Shape) -> Shape {
    Shape::wrap(ElementView::Offset(kind, false), outline)
}

/// The shape of children moved by `(x, y, z)`.
pub open spec fn moved_shape(x: int, y: int, z: int, object: Shape) -> Shape {
    Shape::wrap(ElementView::Translate(pos3(x, y, z)), object)
}

/// The shape of a flat child moved by `(x, y)` within the plane.
pub open spec fn moved2d_shape(x: int, y: int, object: Shape) -> Shape {
    Shape::wrap(ElementView::Translate2d(pos2(x, y)), object)
}

/// The shape of a child turned by thousandths of a degree about an axis.
pub open spec fn turned_shape(angle: int, axis: Axis, object: Shape) -> Shape {
    Shape::wrap(ElementView::Rotate(AngleView::Fixed(angle), axis), object)
}

/// The shape of an outline swept upward from the plane to `height`.
pub open spec fn extruded_shape(height: int, outline: Shape) -> Shape {
    Shape::wrap(ElementView::LinearExtrude { height, center: false }, outline)
}

/// The shape of an outline swept to `height`, half of it below the plane.
pub open spec fn centered_extruded_shape(height: int, outline: Shape) -> Shape {
    Shape::wrap(ElementView::LinearExtrude { height, center: true }, outline)
}

/// An outline swept to `height`, half of it below the plane.
pub fn centered_extruded(height: i64, outline: Node) -> (r: Node)
    ensures
        r@ == centered_extruded_shape(height as int, outline@),
{
    Node::wrap(Element::LinearExtrude { height, center: true }, outline)
}

/// An outline swept upward from the plane to `height`.
pub fn extruded(height: i64, outline: Node) -> (r: Node)
    ensures
        r@ == extruded_shape(height as int, outline@),
{
    Node::wrap(Element::LinearExtrude { height, center: false }, outline)
}

/// A cylinder standing on the plane.
pub fn cylinder(height: i64, size: CircleSize) -> (r: Node)
    ensures
        r@ == cylinder_shape(height as int, size@),
{
    Node::leaf(Element::Cylinder(height, size))
}

/// A disc about the origin.
pub fn circle(size: CircleSize) -> (r: Node)
    ensures
        r@ == circle_shape(size@),
{
    Node::leaf(Element::Circle(size))
}

/// An outline grown or shrunk.
pub fn offset(kind: OffsetKind, outline: Node) -> (r: Node)
    ensures
        r@ == offset_shape(kind@, outline@),
{
    Node::wrap(Element::Offset(kind, false), outline)
}

/// A node moved by `(x, y, z)`.
pub fn moved(x: i64, y: i64, z: i64, object: Node) -> (r: Node)
    ensures
        r@ == moved_shape(x as int, y as int, z as int, object@),
{
    Node::wrap(Element::Translate(Point3 { x, y, z }), object)
}

/// A flat node moved by `(x, y)` within the plane.
pub fn moved2d(x: i64, y: i64, object: Node) -> (r: Node)
    ensures
        r@ == moved2d_shape(x as int, y as int, object@),
{
    Node::wrap(Element::Translate2d(Point2 { x, y }), object)
}

/// A node turned by thousandths of a degree about an axis.
pub fn turned(angle: i64, axis: Axis, object: Node) -> (r: Node)
    ensures
        r@ == turned_shape(angle as int, axis, object@),
{
    Node::wrap(Element::Rotate(Angle::Fixed(angle), axis), object)
}

/// A polygon whose boundary visits `points` in the order `path`.
pub fn polygon_with_path(points: Vec<Point2>, path: Vec<usize>) -> (r: Node)
    ensures
        r@ == polygon_path_shape(positions(points@), path@),
{
    Node::leaf(Element::Polygon { points, path })
}

/// The point of the plane with the given coordinates.
pub fn point2(x: i64, y: i64) -> (r: Point2)
    ensures
        r@ == pos2(x as int, y as int),
{
    Point2 { x, y }
}

/// The point of space with the given coordinates.
pub fn point3(x: i64, y: i64, z: i64) -> (r: Point3)
    ensures
        r@ == pos3(x as int, y as int, z as int),
{
    Point3 { x, y, z }
}

/// A polygon through the given points, in the given order.
pub fn polygon(points: Vec<Point2>) -> (r: Node)
    ensures
        r@ == polygon_shape(positions(points@)),
{
    Node::leaf(Element::Polygon { points, path: Vec::new() })
}

/// The offset that centres an extent of the given size about zero.
pub open spec fn centering_offset(size: int, centered: bool) -> int {
    if centered {
        -quot(size, 2)
    } else {
        0
    }
}

/// The shape of a box of the given size, centred about zero along each axis
/// whose flag is set and lying on the positive side of the others.
pub open spec fn centered_cube_shape(size: Pos3, centering: (bool, bool, bool)) -> Shape {
    Shape::wrap(
        ElementView::Translate(
            Pos3 {
                x: centering_offset(size.x, centering.0),
                y: centering_offset(size.y, centering.1),
                z: centering_offset(size.z, centering.2),
            },
        ),
        Shape::leaf(ElementView::Cube(size)),
    )
}

/// The shape of a rectangle of the given size, centred about zero along each
/// axis whose flag is set.
pub open spec fn centered_square_shape(size: Pos2, centering: (bool, bool)) -> Shape {
    Shape::wrap(
        ElementView::Translate2d(
            Pos2 {
                x: centering_offset(size.x, centering.0),
                y: centering_offset(size.y, centering.1),
            },
        ),
        Shape::leaf(ElementView::Square(size)),
    )
}

/// A box centred on the chosen axes.
pub fn centered_cube(size: Point3, centering: (bool, bool, bool)) -> (r: Node)
    ensures
        r@ == centered_cube_shape(size@, centering),
{
    let x: i64 = if centering.0 { -(size.x / 2) } else { 0 };
    let y: i64 = if centering.1 { -(size.y / 2) } else { 0 };
    let z: i64 = if centering.2 { -(size.z / 2) } else { 0 };
    Node::wrap(Element::Translate(Point3 { x, y, z }), Node::leaf(Element::Cube(size)))
}

/// A rectangle centred on the chosen axes.
pub fn centered_square(size: Point2, centering: (bool, bool)) -> (r: Node)
    ensures
        r@ == centered_square_shape(size@, centering),
{
    let x: i64 = if centering.0 { -(size.x / 2) } else { 0 };
    let y: i64 = if centering.1 { -(size.y / 2) } else { 0 };
    Node::wrap(Element::Translate2d(Point2 { x, y }), Node::leaf(Element::Square(size)))
}

} // verus!
