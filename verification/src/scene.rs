//! The scene handed to the renderer, and the log of past scenes.

use vstd::prelude::*;
use vstd::string::StringExecFns;
use crate::boards::{Esc, EscStack};
use crate::geometry::{
    lemma_shapes_of_push, moved, moved_shape, shapes_of, turned, turned_shape, Axis, Element,
    ElementView, Node, Shape, Tint,
};

verus! {

/// The parts of one run, in the order they were added, with the number of
/// facets the renderer gives to round shapes.
#[derive(Debug)]
pub struct Scene {
    objects: Vec<Node>,
    detail: i32,
}

/// The view of a [`Scene`].
pub struct SceneView {
    pub objects: Seq<Shape>,
    pub detail: int,
}

impl View for Scene {
    type V = SceneView;

    closed spec fn view(&self) -> SceneView {
        SceneView { objects: shapes_of(self.objects@), detail: self.detail as int }
    }
}

/// Height of the lowest speed controller of the trial stack.
pub const ESC_STACK_BASE: i64 = 250_000;

/// Distance from one speed controller of the trial stack to the next.
pub const ESC_STACK_PITCH: i64 = 60_000;

/// A speed controller as it lies in the stack, coloured for viewing.
pub open spec fn stacked_esc() -> Shape {
    Shape::wrap(
        ElementView::Color(Tint::Crimson),
        turned_shape(90_000, Axis::Z, Esc::defaults().pcb((true, true, false))),
    )
}

/// A layer of the stack as it lies in the stack, coloured for viewing.
pub open spec fn stacked_holder() -> Shape {
    Shape::wrap(
        ElementView::Color(Tint::SaddleBrown),
        turned_shape(90_000, Axis::Z, EscStack::defaults().mid_section()),
    )
}

/// The first `2 * count` objects of the trial stack: speed controllers,
/// each followed by the layer that holds it three millimetres higher.
pub open spec fn esc_stack_objects(count: nat) -> Seq<Shape> {
    Seq::new(
        2 * count,
        |k: int|
            if k % 2 == 0 {
                moved_shape(400_000, 0, ESC_STACK_BASE + (k / 2) * ESC_STACK_PITCH, stacked_esc())
            } else {
                moved_shape(
                    400_000,
                    0,
                    ESC_STACK_BASE + (k / 2) * ESC_STACK_PITCH + 30_000,
                    stacked_holder(),
                )
            },
    )
}

impl Scene {
    /// An empty scene; the renderer chooses the number of facets.
    pub fn new() -> (r: Scene)
        ensures
            r@.objects == Seq::<Shape>::empty(),
            r@.detail == 0,
    {
        Scene { objects: Vec::new(), detail: 0 }
    }

    /// Sets the number of facets for the whole scene.
    pub fn set_detail(&mut self, detail: i32)
        ensures
            final(self)@.detail == detail,
            final(self)@.objects == old(self)@.objects,
    {
        self.detail = detail;
    }

    /// Adds a part at the end. The parts already there stay as they are.
    pub fn add_object(&mut self, object: Node)
        ensures
            final(self)@.objects == old(self)@.objects.push(object@),
            final(self)@.detail == old(self)@.detail,
    {
        proof {
            lemma_shapes_of_push(self.objects@, object);
        }
        self.objects.push(object);
    }

    /// The parts, in the order they were added.
    pub fn objects(&self) -> (r: &Vec<Node>)
        ensures
            shapes_of(r@) == self@.objects,
    {
        &self.objects
    }

    /// The number of facets; zero leaves the choice to the renderer.
    pub fn detail(&self) -> (r: i32)
        ensures
            r == self@.detail,
    {
        self.detail
    }
}

/// Adds a trial stack of three speed controllers and their layers to the
/// scene, for viewing how they fit.
pub fn test_esc_stack(scene: &mut Scene)
    ensures
        final(scene)@.objects == old(scene)@.objects + esc_stack_objects(3),
        final(scene)@.detail == old(scene)@.detail,
{
    let esc_rotation: i64 = 90_000;
    let esc = Node::wrap(
        Element::Color(Tint::Crimson),
        turned(esc_rotation, Axis::Z, Esc::new().get_pcb((true, true, false))),
    );
    let holder = Node::wrap(
        Element::Color(Tint::SaddleBrown),
        turned(esc_rotation, Axis::Z, EscStack::new().get_mid_section()),
    );
    let x_pos: i64 = 400_000;
    let z_offset: i64 = ESC_STACK_PITCH;
    let z_pos: i64 = ESC_STACK_BASE;
    let mut i: i64 = 0;
    assert(old(scene)@.objects + esc_stack_objects(0) =~= old(scene)@.objects);
    while i < 3
        invariant
            0 <= i <= 3,
            x_pos == 400_000,
            z_offset == ESC_STACK_PITCH,
            z_pos == ESC_STACK_BASE,
            esc@ == stacked_esc(),
            holder@ == stacked_holder(),
            scene@.objects == old(scene)@.objects + esc_stack_objects(i as nat),
            scene@.detail == old(scene)@.detail,
        decreases 3 - i,
    {
        scene.add_object(moved(x_pos, 0, z_pos + i * z_offset, esc.duplicate()));
        scene.add_object(moved(x_pos, 0, z_pos + i * z_offset + 30_000, holder.duplicate()));
        assert(scene@.objects =~= old(scene)@.objects + esc_stack_objects((i + 1) as nat));
        i = i + 1;
    }
}

/// The line that opens every entry of the history log.
pub open spec fn history_divider() -> Seq<char> {
    "##__start_of_new_file__##\n"@
}

/// One entry of the history log: the divider line, then the scene's text.
pub fn history_entry(content: &str) -> (r: String)
    ensures
        r@ == history_divider() + content@,
{
    let mut entry = String::from_str("##__start_of_new_file__##\n");
    entry.append(content);
    entry
}

/// The history log after one more run: all it held before, then the new
/// entry. Nothing that was logged is lost or changed.
pub fn append_to_history(history: String, content: &str) -> (r: String)
    ensures
        r@ == history@ + history_divider() + content@,
        r@.subrange(0, history@.len() as int) == history@,
{
    let mut log = history;
    let ghost before = log@;
    log.append("##__start_of_new_file__##\n");
    log.append(content);
    assert(log@.subrange(0, before.len() as int) =~= before);
    log
}

} // verus!
