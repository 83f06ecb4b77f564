use vstd::prelude::*;
use crate::node::{Node, Pt2, SceneError, Vec3};

verus! {

/// The vector with the given coordinates, in thousandths.
pub open spec fn v3(x: int, y: int, z: int) -> Vec3 {
    Vec3 { x: x as i64, y: y as i64, z: z as i64 }
}

/// The union of `a` and `b`, in that order.
pub open spec fn union2(a: Node, b: Node) -> Node {
    Node::Union { left: Box::new(a), right: Box::new(b) }
}

/// `n` translated by `(x, y, z)`.
pub open spec fn moved(x: int, y: int, z: int, n: Node) -> Node {
    Node::Translate { v: v3(x, y, z), child: Box::new(n) }
}

/// The body of the car: a long slab, a shorter cabin on top, and a thin
/// connector across the seam so that the two fuse.
pub open spec fn car_body_model() -> Node {
    union2(
        union2(
            Node::Cube { size: v3(60000, 20000, 10000), center: true },
            moved(0, 0, 10000, Node::Cube { size: v3(30000, 20000, 10000), center: true }),
        ),
        moved(0, 0, 4999, Node::Cube { size: v3(30000, 20000, 2), center: true }),
    )
}

/// A wheel: a disc of radius 8 and thickness 3, turned to stand upright.
pub open spec fn wheel_model() -> Node {
    Node::Rotate {
        a: v3(90000, 0, 0),
        child: Box::new(Node::Cylinder { height: 3000, r1: 8000, r2: 8000, center: false }),
    }
}

/// Two wheels joined by a centered rod of radius 3 across the car.
pub open spec fn axle_model() -> Node {
    union2(
        union2(moved(0, -15000, 0, wheel_model()), moved(0, 18000, 0, wheel_model())),
        Node::Rotate {
            a: v3(90000, 0, 0),
            child: Box::new(Node::Cylinder { height: 30002, r1: 3000, r2: 3000, center: true }),
        },
    )
}

/// The car: its body with a front and a back axle.
pub open spec fn car_model() -> Node {
    union2(union2(car_body_model(), moved(20000, 0, -2000, axle_model())), moved(-20000, 0, -2000, axle_model()))
}

/// `n` is a prism of length `hz` along the x axis, centered on the origin in
/// x, whose cross-section is the triangle `(0, 0)`, `(b, 0)`, `(d, h)`.
pub open spec fn is_prism(n: Node, b: int, d: int, h: int, hz: int) -> bool {
    &&& n matches Node::Translate { v, child: t }
    &&& v == v3(-(hz / 2), 0, 0)
    &&& *t matches Node::Rotate { a, child: e }
    &&& a == v3(90000, 90000, 90000)
    &&& *e matches Node::LinearExtrude { height, child: p }
    &&& height as int == hz
    &&& *p matches Node::Polygon { points }
    &&& points@ == seq![Pt2 { x: 0, y: 0 }, Pt2 { x: b as i64, y: 0 }, Pt2 { x: d as i64, y: h as i64 }]
}

/// `n` is one half of the roof: the prism of a house of length `l`, raised
/// above its body and painted `color`.
pub open spec fn is_roof_half(n: Node, l: i64, color: Seq<char>) -> bool {
    &&& n matches Node::Color { name, child: t }
    &&& name@ == color
    &&& *t matches Node::Translate { v, child: p }
    &&& v == v3(0, 0, l / 8 + 1999)
    &&& is_prism(*p, 3000, 3000, l / 4, l as int)
}

/// `n` is the roof of a house of length `l`: a red half, and a blue half
/// mirrored across the xz plane.
pub open spec fn is_roof(n: Node, l: i64) -> bool {
    &&& n matches Node::Union { left: a, right: m }
    &&& is_roof_half(*a, l, "red"@)
    &&& *m matches Node::Mirror { v, child: b }
    &&& v == v3(0, 1000, 0)
    &&& is_roof_half(*b, l, "blue"@)
}

/// `n` is a house of length `l`: a centered body, its roof, and a chimney.
pub open spec fn is_house(n: Node, l: i64) -> bool {
    &&& n matches Node::Union { left: u, right: c }
    &&& *u matches Node::Union { left: body, right: roof }
    &&& *body == Node::Cube { size: v3(l as int, l / 2, l / 8), center: true }
    &&& is_roof(*roof, l)
    &&& *c == moved(5000, 1000, 1000, Node::Cube { size: v3(500, 500, 3000), center: false })
}

fn cube_of(x: i64, y: i64, z: i64, center: bool) -> (r: Node)
    requires
        x >= 0 && y >= 0 && z >= 0,
    ensures
        r == (Node::Cube { size: Vec3 { x, y, z }, center }),
{
    Node::cube(Vec3 { x, y, z }, center).unwrap()
}

fn move_by(x: i64, y: i64, z: i64, n: Node) -> (r: Node)
    ensures
        r == moved(x as int, y as int, z as int, n),
{
    Node::translate(Vec3 { x, y, z }, n)
}

/// The body of the car, without its axles.
pub fn car_body() -> (r: Node)
    ensures
        r == car_body_model(),
{
    let cube_a = cube_of(60000, 20000, 10000, true);
    let cube_b = move_by(0, 0, 10000, cube_of(30000, 20000, 10000, true));
    let connector = move_by(0, 0, 5000 - 1, cube_of(30000, 20000, 2, true));
    Node::union_of(Node::union_of(cube_a, cube_b), connector)
}

/// One upright wheel, at the origin.
pub fn wheel() -> (r: Node)
    ensures
        r == wheel_model(),
{
    let cylinder = Node::cylinder(3000, 8000, 8000, false).unwrap();
    Node::rotate(Vec3 { x: 90000, y: 0, z: 0 }, cylinder)
}

/// Two wheels on a rod.
pub fn axle() -> (r: Node)
    ensures
        r == axle_model(),
{
    let dist: i64 = 15000;
    let left = move_by(0, -15000, 0, wheel());
    let right = move_by(0, 18000, 0, wheel());
    let rod = Node::cylinder(dist * 2 + 2, 3000, 3000, true).unwrap();
    let rod = Node::rotate(Vec3 { x: 90000, y: 0, z: 0 }, rod);
    Node::union_of(Node::union_of(left, right), rod)
}

/// The whole car.
pub fn car() -> (r: Node)
    ensures
        r == car_model(),
{
    let body = car_body();
    let front_axle = move_by(20000, 0, -2000, axle());
    let back_axle = move_by(-20000, 0, -2000, axle());
    Node::union_of(Node::union_of(body, front_axle), back_axle)
}

/// A prism whose cross-section is the triangle `(0, 0)`, `(b, 0)`, `(d, h)`,
/// extruded by `h_z` and laid along the x axis, centered in x. Half of an odd
/// `h_z` is rounded toward zero, to the thousandth.
pub fn triangular_prism(b: i64, d: i64, h: i64, h_z: i64) -> (r: Result<Node, SceneError>)
    ensures
        h_z >= 0 ==> r is Ok && is_prism(r->Ok_0, b as int, d as int, h as int, h_z as int),
        h_z < 0 ==> r == Err::<Node, SceneError>(SceneError::InvalidParameter),
{
    let mut points: Vec<Pt2> = Vec::new();
    points.push(Pt2 { x: 0, y: 0 });
    points.push(Pt2 { x: b, y: 0 });
    points.push(Pt2 { x: d, y: h });
    assert(points@ =~= seq![Pt2 { x: 0, y: 0 }, Pt2 { x: b, y: 0 }, Pt2 { x: d, y: h }]);
    let face = Node::polygon(points)?;
    let face = Node::linear_extrude(h_z, face)?;
    let face = Node::rotate(Vec3 { x: 90000, y: 90000, z: 90000 }, face);
    Ok(move_by(-(h_z / 2), 0, 0, face))
}

/// The two-colored roof of a house of length `l`.
pub fn roof(l: i64) -> (r: Result<Node, SceneError>)
    ensures
        l >= 0 ==> r is Ok && is_roof(r->Ok_0, l),
        l < 0 ==> r == Err::<Node, SceneError>(SceneError::InvalidParameter),
{
    let h = l / 8 + 1999;
    let a = triangular_prism(3000, 3000, l / 4, l)?;
    let a = move_by(0, 0, h, a);
    let a = Node::color("red", a);
    proof {
        reveal_strlit("red");
    }
    let a = a.unwrap();
    let b = triangular_prism(3000, 3000, l / 4, l)?;
    let b = move_by(0, 0, h, b);
    let b = Node::color("blue", b);
    proof {
        reveal_strlit("blue");
    }
    let b = b.unwrap();
    let b = Node::mirror(Vec3 { x: 0, y: 1000, z: 0 }, b);
    Ok(Node::union_of(a, b))
}

/// A house of length `l`: a body `l` by `l / 2` by `l / 8`, its roof, and a
/// chimney.
pub fn house(l: i64) -> (r: Result<Node, SceneError>)
    ensures
        l >= 0 ==> r is Ok && is_house(r->Ok_0, l),
        l < 0 ==> r == Err::<Node, SceneError>(SceneError::InvalidParameter),
{
    let body = Node::cube(Vec3 { x: l, y: l / 2, z: l / 8 }, true)?;
    let roof = roof(l)?;
    let chimney = move_by(5000, 1000, 1000, cube_of(500, 500, 3000, false));
    Ok(Node::union_of(Node::union_of(body, roof), chimney))
}

} // verus!
