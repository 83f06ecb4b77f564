use scad_scene::{
    append_milli, axle, car, car_body, house, roof, triangular_prism, wheel, Node, Pt2, Scene, SceneError, Vec3,
};

fn v(x: i64, y: i64, z: i64) -> Vec3 {
    Vec3 { x, y, z }
}

fn milli(value: i64) -> String {
    let mut out = String::new();
    append_milli(&mut out, value);
    out
}

fn unit_cube() -> Node {
    Node::cube(v(1000, 1000, 1000), false).unwrap()
}

#[test]
fn number_text() {
    assert_eq!(milli(0), "0");
    assert_eq!(milli(60000), "60");
    assert_eq!(milli(4999), "4.999");
    assert_eq!(milli(2), "0.002");
    assert_eq!(milli(400), "0.4");
    assert_eq!(milli(1050), "1.05");
    assert_eq!(milli(30002), "30.002");
    assert_eq!(milli(-15000), "-15");
    assert_eq!(milli(-500), "-0.5");
    assert_eq!(milli(i64::MIN), "-9223372036854775.808");
    assert_eq!(milli(i64::MAX), "9223372036854775.807");
}

#[test]
fn append_keeps_prefix() {
    let mut out = String::from("x=");
    append_milli(&mut out, 12345);
    assert_eq!(out, "x=12.345");
}

#[test]
fn primitive_texts() {
    assert_eq!(
        Node::cube(v(1000, 2500, 3000), true).unwrap().to_scad(),
        "cube(size=[1, 2.5, 3], center=true);\n"
    );
    assert_eq!(
        Node::cylinder(3000, 8000, 4000, false).unwrap().to_scad(),
        "cylinder(h=3, r1=8, r2=4, center=false);\n"
    );
    assert_eq!(Node::sphere(1500).unwrap().to_scad(), "sphere(r=1.5);\n");
    let points = vec![Pt2 { x: 0, y: 0 }, Pt2 { x: 3000, y: 0 }, Pt2 { x: 3000, y: -4000 }];
    assert_eq!(
        Node::polygon(points).unwrap().to_scad(),
        "polygon(points=[[0, 0],[3, 0],[3, -4]], paths=undef, convexity=1);\n"
    );
}

#[test]
fn transform_texts() {
    assert_eq!(
        Node::translate(v(1000, -2000, 500), unit_cube()).to_scad(),
        "translate(v=[1, -2, 0.5]) {\ncube(size=[1, 1, 1], center=false);\n}\n"
    );
    assert_eq!(
        Node::rotate(v(90000, 0, 45000), unit_cube()).to_scad(),
        "rotate(a=[90, 0, 45]) {\ncube(size=[1, 1, 1], center=false);\n}\n"
    );
    assert_eq!(
        Node::scale(v(2000, 1000, 1000), unit_cube()).to_scad(),
        "scale(v=[2, 1, 1]) {\ncube(size=[1, 1, 1], center=false);\n}\n"
    );
    assert_eq!(
        Node::mirror(v(0, 1000, 0), unit_cube()).to_scad(),
        "mirror(v=[0, 1, 0]) {\ncube(size=[1, 1, 1], center=false);\n}\n"
    );
    assert_eq!(
        Node::color("#ff0000", unit_cube()).unwrap().to_scad(),
        "color(\"#ff0000\") {\ncube(size=[1, 1, 1], center=false);\n}\n"
    );
    let square = Node::polygon(vec![
        Pt2 { x: 0, y: 0 },
        Pt2 { x: 1000, y: 0 },
        Pt2 { x: 1000, y: 1000 },
        Pt2 { x: 0, y: 1000 },
    ])
    .unwrap();
    assert_eq!(
        Node::linear_extrude(2000, square).unwrap().to_scad(),
        "linear_extrude(height=2, center=false, convexity=1, twist=0, scale=[1, 1]) {\n\
         polygon(points=[[0, 0],[1, 0],[1, 1],[0, 1]], paths=undef, convexity=1);\n}\n"
    );
}

#[test]
fn invalid_parameters() {
    assert_eq!(Node::cube(v(1000, -1, 1000), true).unwrap_err(), SceneError::InvalidParameter);
    assert_eq!(Node::cylinder(-1, 1000, 1000, true).unwrap_err(), SceneError::InvalidParameter);
    assert_eq!(Node::cylinder(1000, 1000, -1, true).unwrap_err(), SceneError::InvalidParameter);
    assert_eq!(Node::sphere(-2000).unwrap_err(), SceneError::InvalidParameter);
    let two = vec![Pt2 { x: 0, y: 0 }, Pt2 { x: 1000, y: 0 }];
    assert_eq!(Node::polygon(two).unwrap_err(), SceneError::InvalidParameter);
    assert_eq!(Node::linear_extrude(-1, unit_cube()).unwrap_err(), SceneError::InvalidParameter);
    assert_eq!(Node::color("", unit_cube()).unwrap_err(), SceneError::InvalidParameter);
    assert_eq!(Node::color("dark red", unit_cube()).unwrap_err(), SceneError::InvalidParameter);
    assert_eq!(Node::color("r\"ed", unit_cube()).unwrap_err(), SceneError::InvalidParameter);
    assert_eq!(Scene::new(unit_cube(), 0, 400).unwrap_err(), SceneError::InvalidParameter);
    assert_eq!(Scene::new(unit_cube(), 1000, -400).unwrap_err(), SceneError::InvalidParameter);
    assert_eq!(triangular_prism(3000, 3000, 4000, -1).unwrap_err(), SceneError::InvalidParameter);
    assert_eq!(roof(-8000).unwrap_err(), SceneError::InvalidParameter);
    assert_eq!(house(-16000).unwrap_err(), SceneError::InvalidParameter);
}

#[test]
fn zero_sizes_are_accepted() {
    assert!(Node::cube(v(0, 0, 0), false).is_ok());
    assert!(Node::sphere(0).is_ok());
    assert!(Scene::new(unit_cube(), 1, 1).is_ok());
}

#[test]
fn centered_cuboid_scene() {
    let cube = Node::cube(v(25000, 35000, 55000), true).unwrap();
    let scene = Scene::new(cube, 1000, 400).unwrap();
    assert_eq!(scene.to_scad(), "$fa=1; $fs=0.4;\ncube(size=[25, 35, 55], center=true);\n");
}

#[test]
fn serializing_twice_is_identical() {
    let a = Scene::new(Node::cylinder(10000, 2500, 2500, true).unwrap(), 1000, 400).unwrap();
    let b = Scene::new(Node::cylinder(10000, 2500, 2500, true).unwrap(), 1000, 400).unwrap();
    assert_eq!(a.to_scad(), a.to_scad());
    assert_eq!(a.to_scad(), b.to_scad());
}

#[test]
fn union_swaps_only_the_order_of_its_text() {
    let ab = Node::union_of(unit_cube(), Node::sphere(2000).unwrap()).to_scad();
    let ba = Node::union_of(Node::sphere(2000).unwrap(), unit_cube()).to_scad();
    assert_eq!(ab, "union() {\ncube(size=[1, 1, 1], center=false);\nsphere(r=2);\n}\n");
    assert_eq!(ba, "union() {\nsphere(r=2);\ncube(size=[1, 1, 1], center=false);\n}\n");
    let mut lines_ab: Vec<&str> = ab.lines().collect();
    let mut lines_ba: Vec<&str> = ba.lines().collect();
    lines_ab.sort();
    lines_ba.sort();
    assert_eq!(lines_ab, lines_ba);
}

#[test]
fn difference_and_intersection_keep_operand_order() {
    let ab = Node::difference_of(unit_cube(), Node::sphere(2000).unwrap()).to_scad();
    let ba = Node::difference_of(Node::sphere(2000).unwrap(), unit_cube()).to_scad();
    assert_eq!(ab, "difference() {\ncube(size=[1, 1, 1], center=false);\nsphere(r=2);\n}\n");
    assert_eq!(ba, "difference() {\nsphere(r=2);\ncube(size=[1, 1, 1], center=false);\n}\n");
    assert_ne!(ab, ba);
    let i = Node::intersection_of(Node::sphere(2000).unwrap(), unit_cube()).to_scad();
    assert_eq!(i, "intersection() {\nsphere(r=2);\ncube(size=[1, 1, 1], center=false);\n}\n");
}

#[test]
fn translate_by_zero_wraps_the_same_child() {
    let plain = unit_cube().to_scad();
    let moved = Node::translate(v(0, 0, 0), unit_cube()).to_scad();
    assert_eq!(moved, format!("translate(v=[0, 0, 0]) {{\n{}}}\n", plain));
}

#[test]
fn three_primitives_in_one_scene() {
    let a = Node::cube(v(1000, 1000, 1000), true).unwrap();
    let b = Node::sphere(2000).unwrap();
    let c = Node::cylinder(1000, 500, 500, false).unwrap();
    let (ta, tb, tc) = (a.to_scad(), b.to_scad(), c.to_scad());
    let root = Node::union_of(Node::union_of(a, b), c);
    let text = Scene::new(root, 2000, 250).unwrap().to_scad();
    assert!(text.contains(&ta));
    assert!(text.contains(&tb));
    assert!(text.contains(&tc));
    let headers: Vec<&str> = text.lines().filter(|l| l.starts_with('$')).collect();
    assert_eq!(headers, vec!["$fa=2; $fs=0.25;"]);
    assert!(text.starts_with("$fa=2; $fs=0.25;\nunion() {\nunion() {\n"));
}

#[test]
fn wheel_text() {
    assert_eq!(wheel().to_scad(), "rotate(a=[90, 0, 0]) {\ncylinder(h=3, r1=8, r2=8, center=false);\n}\n");
}

#[test]
fn car_body_text() {
    assert_eq!(
        car_body().to_scad(),
        "union() {\nunion() {\ncube(size=[60, 20, 10], center=true);\n\
         translate(v=[0, 0, 10]) {\ncube(size=[30, 20, 10], center=true);\n}\n}\n\
         translate(v=[0, 0, 4.999]) {\ncube(size=[30, 20, 0.002], center=true);\n}\n}\n"
    );
}

#[test]
fn axle_text() {
    let w = wheel().to_scad();
    let expected = format!(
        "union() {{\nunion() {{\ntranslate(v=[0, -15, 0]) {{\n{w}}}\ntranslate(v=[0, 18, 0]) {{\n{w}}}\n}}\n\
         rotate(a=[90, 0, 0]) {{\ncylinder(h=30.002, r1=3, r2=3, center=true);\n}}\n}}\n"
    );
    assert_eq!(axle().to_scad(), expected);
}

#[test]
fn prism_text() {
    assert_eq!(
        triangular_prism(3000, 3000, 4000, 16000).unwrap().to_scad(),
        "translate(v=[-8, 0, 0]) {\nrotate(a=[90, 90, 90]) {\n\
         linear_extrude(height=16, center=false, convexity=1, twist=0, scale=[1, 1]) {\n\
         polygon(points=[[0, 0],[3, 0],[3, 4]], paths=undef, convexity=1);\n}\n}\n}\n"
    );
}

// The same scenes built directly as scad_tree trees, from the same numbers.

fn leaf(op: scad_tree::ScadOp) -> scad_tree::Scad {
    scad_tree::Scad { op, children: Vec::new() }
}

fn wrap(op: scad_tree::ScadOp, child: scad_tree::Scad) -> scad_tree::Scad {
    scad_tree::Scad { op, children: vec![child] }
}

fn t_cube(x: f64, y: f64, z: f64, center: bool) -> scad_tree::Scad {
    leaf(scad_tree::ScadOp::Cube { size: scad_tree::Pt3::new(x, y, z), center })
}

fn t_cylinder(height: f64, r1: f64, r2: f64, center: bool) -> scad_tree::Scad {
    leaf(scad_tree::ScadOp::Cylinder { height, radius1: r1, radius2: r2, center, fa: None, fs: None, fn_: None })
}

fn t_translate(x: f64, y: f64, z: f64, child: scad_tree::Scad) -> scad_tree::Scad {
    wrap(scad_tree::ScadOp::Translate { v: scad_tree::Pt3::new(x, y, z) }, child)
}

fn t_rotate(x: f64, y: f64, z: f64, child: scad_tree::Scad) -> scad_tree::Scad {
    wrap(scad_tree::ScadOp::Rotate { a: None, a_is_scalar: false, v: scad_tree::Pt3::new(x, y, z) }, child)
}

fn t_color(name: &str, child: scad_tree::Scad) -> scad_tree::Scad {
    wrap(scad_tree::ScadOp::Color { rgba: None, color: None, hex: Some(name.to_string()), alpha: None }, child)
}

fn t_wheel() -> scad_tree::Scad {
    t_rotate(90., 0., 0., t_cylinder(3., 8., 8., false))
}

fn t_axle() -> scad_tree::Scad {
    let dist = 15.;
    let left = t_translate(0., -15., 0., t_wheel());
    let right = t_translate(0., 18., 0., t_wheel());
    let rod = t_rotate(90., 0., 0., t_cylinder(dist * 2. + 0.002, 3., 3., true));
    left + right + rod
}

fn t_car() -> scad_tree::Scad {
    let body = t_cube(60., 20., 10., true)
        + t_translate(0., 0., 10., t_cube(30., 20., 10., true))
        + t_translate(0., 0., 5. - 0.001, t_cube(30., 20., 0.002, true));
    body + t_translate(20., 0., -2., t_axle()) + t_translate(-20., 0., -2., t_axle())
}

fn t_prism(b: f64, d: f64, h: f64, h_z: f64) -> scad_tree::Scad {
    let mut points = scad_tree::Pt2s::new();
    for point in [scad_tree::Pt2::new(0., 0.), scad_tree::Pt2::new(b, 0.), scad_tree::Pt2::new(d, h)] {
        points.push(point)
    }
    let face = leaf(scad_tree::ScadOp::Polygon { points, paths: None, convexity: 1 });
    let face = wrap(
        scad_tree::ScadOp::LinearExtrude {
            height: h_z,
            center: false,
            convexity: 1,
            twist: 0.0,
            scale: scad_tree::Pt2::new(1.0, 1.0),
            slices: None,
            fn_: None,
        },
        face,
    );
    t_translate(-h_z / 2., 0., 0., t_rotate(90., 90., 90., face))
}

fn t_house(l: f64) -> scad_tree::Scad {
    let h = l / 8. + 1.999;
    let a = t_color("red", t_translate(0., 0., h, t_prism(3., 3., l / 4., l)));
    let b = t_color("blue", t_translate(0., 0., h, t_prism(3., 3., l / 4., l)));
    let b = wrap(scad_tree::ScadOp::Mirror { v: scad_tree::Pt3::new(0., 1., 0.) }, b);
    let chimney = t_translate(5., 1., 1., t_cube(0.5, 0.5, 3., false));
    t_cube(l, l / 2., l / 8., true) + (a + b) + chimney
}

#[test]
fn car_matches_scad_tree() {
    assert_eq!(car().to_scad(), format!("{}", t_car()));
}

#[test]
fn house_matches_scad_tree() {
    assert_eq!(house(16000).unwrap().to_scad(), format!("{}", t_house(16.)));
}

#[test]
fn house_parts() {
    let text = house(16000).unwrap().to_scad();
    assert!(text.starts_with("union() {\nunion() {\ncube(size=[16, 8, 2], center=true);\nunion() {\ncolor(\"red\") {\n"));
    assert!(text.contains("mirror(v=[0, 1, 0]) {\ncolor(\"blue\") {\ntranslate(v=[0, 0, 3.999]) {\n"));
    assert!(text.ends_with("translate(v=[5, 1, 1]) {\ncube(size=[0.5, 0.5, 3], center=false);\n}\n}\n"));
}

#[test]
fn segments_in_header() {
    let scene = Scene::new(Node::sphere(5000).unwrap(), 1000, 400).unwrap().with_segments(32);
    assert_eq!(scene.segments, Some(32));
    assert_eq!(scene.to_scad(), "$fa=1; $fs=0.4; $fn=32;\nsphere(r=5);\n");
    let zero = Scene::new(Node::sphere(5000).unwrap(), 12000, 2000).unwrap().with_segments(0);
    assert_eq!(zero.to_scad(), "$fa=12; $fs=2; $fn=0;\nsphere(r=5);\n");
}
