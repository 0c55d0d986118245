use scad::{
    CircleType, LinExtrudeParams, OffsetType, PolygonParameters, ScadElement, ScadFile, ScadObject,
};
use tricopter_frame::boards::{get_m3_screw, NazeBoard};
use tricopter_frame::body::{get_body_section, TricopterBody};
use tricopter_frame::fasteners::get_cable_tie_hole;
use tricopter_frame::geometry::{Angle, Axis, CircleSize, Element, Node, OffsetKind, Point2, Point3};
use tricopter_frame::scene::Scene;

fn millimetres(length: i64) -> f32 {
    length as f32 / 10_000.
}

fn vector3(p: &Point3) -> nalgebra::Vector3<f32> {
    nalgebra::Vector3::new(millimetres(p.x), millimetres(p.y), millimetres(p.z))
}

fn vector2(p: &Point2) -> nalgebra::Vector2<f32> {
    nalgebra::Vector2::new(millimetres(p.x), millimetres(p.y))
}

fn unit(axis: &Axis) -> nalgebra::Vector3<f32> {
    match axis {
        Axis::X => nalgebra::Vector3::new(1., 0., 0.),
        Axis::Y => nalgebra::Vector3::new(0., 1., 0.),
        Axis::Z => nalgebra::Vector3::new(0., 0., 1.),
    }
}

fn circle_type(size: &CircleSize) -> CircleType {
    match size {
        CircleSize::Radius(r) => CircleType::Radius(millimetres(*r)),
        CircleSize::Diameter(d) => CircleType::Diameter(millimetres(*d)),
    }
}

/// The renderer's object for a tree of the elements these tests draw.
fn rendered(node: &Node) -> ScadObject {
    let element = match &node.element {
        Element::Translate(v) => ScadElement::Translate(vector3(v)),
        Element::Translate2d(v) => ScadElement::Translate2d(vector2(v)),
        Element::Rotate(Angle::Fixed(angle), axis) => {
            ScadElement::Rotate(*angle as f32 / 1000., unit(axis))
        }
        Element::Mirror(axis) => ScadElement::Mirror(unit(axis)),
        Element::LinearExtrude { height, center } => ScadElement::LinearExtrude(LinExtrudeParams {
            height: millimetres(*height),
            center: *center,
            ..Default::default()
        }),
        Element::Union => ScadElement::Union,
        Element::Difference => ScadElement::Difference,
        Element::Intersection => ScadElement::Intersection,
        Element::Hull => ScadElement::Hull,
        Element::Cube(size) => ScadElement::Cube(vector3(size)),
        Element::Cylinder(height, size) => {
            ScadElement::Cylinder(millimetres(*height), circle_type(size))
        }
        Element::Polygon { points, path } => {
            let parameters = PolygonParameters::new(points.iter().map(vector2).collect());
            if path.is_empty() {
                ScadElement::Polygon(parameters)
            } else {
                ScadElement::Polygon(parameters.multi_vector_path(vec![path.clone()]))
            }
        }
        Element::Offset(OffsetKind::Delta(d), chamfer) => {
            ScadElement::Offset(OffsetType::Delta(millimetres(*d)), *chamfer)
        }
        Element::Offset(OffsetKind::Radius(r), chamfer) => {
            ScadElement::Offset(OffsetType::Radius(millimetres(*r)), *chamfer)
        }
        other => panic!("not drawn in these tests: {:?}", other),
    };
    let mut object = ScadObject::new(element);
    for child in &node.children {
        object.add_child(rendered(child));
    }
    object
}

#[test]
fn m3_screw_renders_in_millimetres() {
    assert_eq!(
        rendered(&get_m3_screw(40_000)).get_code(),
        "union()\n{\n\tcylinder(h=2,d=7);\n\tcylinder(h=6,d=3.5);\n}"
    );
}

#[test]
fn cable_tie_hole_renders_as_a_turned_pair_of_cuts() {
    assert_eq!(
        rendered(&get_cable_tie_hole(40_000, 90_000)).get_code(),
        "rotate(90,[0,0,1])\n{\n\ttranslate([2,0,0])\n\t{\n\t\tcube([3,4,4]);\n\t}\n\tmirror([1,0,0])\n\t{\n\t\ttranslate([2,0,0])\n\t\t{\n\t\t\tcube([3,4,4]);\n\t\t}\n\t}\n}"
    );
}

#[test]
fn board_holes_render_at_fractions_of_a_millimetre() {
    let holes = NazeBoard::new().get_holes(35_000);
    let text = rendered(&holes).get_code();
    assert_eq!(
        text,
        "union()\n{\n\
         \ttranslate([-15.25,-15.25,0])\n\t{\n\t\tcylinder(h=3.5,d=3);\n\t}\n\
         \ttranslate([-15.25,15.25,0])\n\t{\n\t\tcylinder(h=3.5,d=3);\n\t}\n\
         \ttranslate([15.25,-15.25,0])\n\t{\n\t\tcylinder(h=3.5,d=3);\n\t}\n\
         \ttranslate([15.25,15.25,0])\n\t{\n\t\tcylinder(h=3.5,d=3);\n\t}\n}"
    );
}

#[test]
fn body_section_renders_as_a_polygon() {
    assert_eq!(
        rendered(&get_body_section(500_000, 230_000, 800_000)).get_code(),
        "polygon(points=[[0,-25],[0,25],[80,11.5],[80,-11.5],],paths=undef,convexity=10);"
    );
}

#[test]
fn mid_section_outline_renders_with_its_path() {
    let outline = TricopterBody::new().get_mid_section_outline();
    assert_eq!(
        rendered(&outline).get_code(),
        "polygon(points=[[-60,25],[-60,-25],[0,28],[0,-28],[80,16.5],[80,-16.5],],\
         paths=[[0,2,4,5,3,1,],],convexity=10);"
    );
}

#[test]
fn top_plate_lip_renders_as_a_difference_of_two_offsets() {
    let lip = TricopterBody::new().get_top_plate_canopy_edges();
    let text = rendered(&lip).get_code();
    assert!(text.starts_with("difference()\n{\n\tlinear_extrude(height=3,center=false,convexity=10,twist=0,slices=1)\n\t{\n\t\toffset(r=-1.75,chamfer=false)\n"));
    assert!(text.contains("\t\toffset(r=-3,chamfer=false)\n"));
    assert_eq!(text.matches("polygon(").count(), 2);
}

#[test]
fn a_scene_renders_its_parts_in_order() {
    let mut scene = Scene::new();
    scene.set_detail(20);
    scene.add_object(get_m3_screw(10_000));
    scene.add_object(get_body_section(20_000, 20_000, 10_000));
    let mut file = ScadFile::new();
    file.set_detail(scene.detail());
    for object in scene.objects() {
        file.add_object(rendered(object));
    }
    assert_eq!(
        file.get_code(),
        "$fn=20;\n\
         union()\n{\n\tcylinder(h=2,d=7);\n\tcylinder(h=3,d=3.5);\n}\n\
         polygon(points=[[0,-1],[0,1],[1,1],[1,-1],],paths=undef,convexity=10);\n"
    );
}

#[test]
fn back_screw_holes_render_at_sixteenths_of_a_millimetre() {
    let holes = TricopterBody::new().place_object_at_back_screwholes(get_body_section(0, 0, 0));
    let text = rendered(&holes).get_code();
    assert!(text.contains("translate([0,10.0625])"));
    assert!(text.contains("translate([0,-10.0625])"));
    assert_eq!(text.matches("translate(").count(), 2);
}
