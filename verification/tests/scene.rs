use tricopter_frame::boards::{Esc, EscStack};
use tricopter_frame::geometry::{Angle, Axis, Element, Node, Point3, Tint};
use tricopter_frame::scene::{append_to_history, history_entry, test_esc_stack, Scene};

const DIVIDER: &str = "##__start_of_new_file__##\n";

fn cube(x: i64) -> Node {
    Node::leaf(Element::Cube(Point3 { x, y: 1, z: 1 }))
}

#[test]
fn new_scene_is_empty() {
    let scene = Scene::new();
    assert!(scene.objects().is_empty());
    assert_eq!(scene.detail(), 0);
}

#[test]
fn set_detail_keeps_the_objects() {
    let mut scene = Scene::new();
    scene.add_object(cube(1));
    scene.set_detail(20);
    assert_eq!(scene.detail(), 20);
    assert_eq!(scene.objects(), &vec![cube(1)]);
}

#[test]
fn add_object_appends_and_keeps_what_was_there() {
    let mut scene = Scene::new();
    scene.set_detail(7);
    scene.add_object(cube(1));
    scene.add_object(cube(2));
    scene.add_object(cube(1));
    assert_eq!(scene.objects(), &vec![cube(1), cube(2), cube(1)]);
    assert_eq!(scene.detail(), 7);
}

#[test]
fn esc_stack_adds_three_controllers_each_with_its_holder() {
    let mut scene = Scene::new();
    scene.set_detail(20);
    scene.add_object(cube(9));
    test_esc_stack(&mut scene);
    assert_eq!(scene.detail(), 20);
    let objects = scene.objects();
    assert_eq!(objects.len(), 7);
    assert_eq!(objects[0], cube(9));
    let turned = |child: Node| Node::wrap(Element::Rotate(Angle::Fixed(90_000), Axis::Z), child);
    let esc = Node::wrap(
        Element::Color(Tint::Crimson),
        turned(Esc::new().get_pcb((true, true, false))),
    );
    let holder = Node::wrap(
        Element::Color(Tint::SaddleBrown),
        turned(EscStack::new().get_mid_section()),
    );
    let heights = [250_000, 280_000, 310_000, 340_000, 370_000, 400_000];
    for (k, height) in heights.iter().enumerate() {
        let expected = if k % 2 == 0 { esc.clone() } else { holder.clone() };
        assert_eq!(
            objects[k + 1],
            Node::wrap(Element::Translate(Point3 { x: 400_000, y: 0, z: *height }), expected)
        );
    }
}

#[test]
fn history_entry_is_the_divider_and_then_the_text() {
    assert_eq!(history_entry("cube([1,1,1]);\n"), "##__start_of_new_file__##\ncube([1,1,1]);\n");
    assert_eq!(history_entry(""), DIVIDER);
}

#[test]
fn append_to_history_keeps_the_log_and_adds_an_entry() {
    let log = append_to_history(String::from("old\n"), "new\n");
    assert_eq!(log, "old\n##__start_of_new_file__##\nnew\n");
    assert!(log.starts_with("old\n"));
    assert_eq!(append_to_history(String::new(), "x"), history_entry("x"));
}

fn first_scene_text() -> String {
    let mut file = scad::ScadFile::new();
    file.set_detail(20);
    file.add_object(scad::ScadObject::new(scad::ScadElement::Union));
    file.get_code()
}

fn second_scene_text() -> String {
    let mut file = scad::ScadFile::new();
    file.set_detail(20);
    let mut cut = scad::ScadObject::new(scad::ScadElement::Difference);
    cut.add_child(scad::ScadObject::new(scad::ScadElement::Cube(scad::vec3(1., 2., 3.))));
    file.add_object(cut);
    file.get_code()
}

#[test]
fn history_log_append() {
    let first_text = first_scene_text();
    let second_text = second_scene_text();
    assert_eq!(first_text, "$fn=20;\nunion();\n");
    assert_eq!(second_text, "$fn=20;\ndifference()\n{\n\tcube([1,2,3]);\n}\n");
    let first = first_text.as_str();
    let second = second_text.as_str();
    let log = append_to_history(append_to_history(String::new(), first), second);

    let markers: Vec<usize> = log.match_indices(DIVIDER).map(|(at, _)| at).collect();
    assert_eq!(markers.len(), 2);
    assert!(markers[0] < markers[1]);

    let after_first = &log[markers[0] + DIVIDER.len()..markers[1]];
    let after_second = &log[markers[1] + DIVIDER.len()..];
    assert_eq!(after_first, first);
    assert_eq!(after_second, second);
    assert!(!after_second.contains(first));
    assert!(!after_second.contains("union()"));
}
