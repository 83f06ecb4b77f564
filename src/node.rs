use vstd::prelude::*;
use vstd::string::*;
use crate::num::{append_milli, milli_text};

verus! {

/// A point or a vector in space, each coordinate in thousandths.
#[derive(Clone, Copy, Debug, PartialEq, Eq, Structural)]
pub struct Vec3 {
    pub x: i64,
    pub y: i64,
    pub z: i64,
}

/// A point in the plane, each coordinate in thousandths.
#[derive(Clone, Copy, Debug, PartialEq, Eq, Structural)]
pub struct Pt2 {
    pub x: i64,
    pub y: i64,
}

/// What can go wrong while a scene is built or written.
#[derive(Clone, Copy, Debug, PartialEq, Eq, Structural)]
pub enum SceneError {
    /// A dimension, a count or a name that describes no shape.
    InvalidParameter,
    /// The output could not be created or written.
    WriteError,
}

/// An element of a scene tree: a primitive, a transform of one child, or a
/// boolean operation on two ordered children.
#[derive(Debug)]
pub enum Node {
    /// A box; `center` puts its center, not a corner, at the origin.
    Cube { size: Vec3, center: bool },
    /// A cylinder or cone along z, radius `r1` at the bottom, `r2` at the top.
    Cylinder { height: i64, r1: i64, r2: i64, center: bool },
    /// A sphere centered on the origin.
    Sphere { radius: i64 },
    /// A flat polygon through the points, in order.
    Polygon { points: Vec<Pt2> },
    /// The flat child swept up along z by `height`.
    LinearExtrude { height: i64, child: Box<Node> },
    /// The child moved by `v`.
    Translate { v: Vec3, child: Box<Node> },
    /// The child turned about x, y, then z by the degrees of `a`.
    Rotate { a: Vec3, child: Box<Node> },
    /// The child scaled by the factors of `v`.
    Scale { v: Vec3, child: Box<Node> },
    /// The child reflected in the plane through the origin with normal `v`.
    Mirror { v: Vec3, child: Box<Node> },
    /// The child painted in the named color.
    Color { name: String, child: Box<Node> },
    /// Everything in either child.
    Union { left: Box<Node>, right: Box<Node> },
    /// `base` with `cut` taken away.
    Difference { base: Box<Node>, cut: Box<Node> },
    /// What both children share.
    Intersection { left: Box<Node>, right: Box<Node> },
}

pub open spec fn bool_text(b: bool) -> Seq<char> {
    if b {
        "true"@
    } else {
        "false"@
    }
}

/// `[x, y, z]`
pub open spec fn vec3_text(v: Vec3) -> Seq<char> {
    "["@ + milli_text(v.x as int) + ", "@ + milli_text(v.y as int) + ", "@ + milli_text(v.z as int) + "]"@
}

/// `[x, y]`
pub open spec fn pt2_text(p: Pt2) -> Seq<char> {
    "["@ + milli_text(p.x as int) + ", "@ + milli_text(p.y as int) + "]"@
}

/// The points' texts joined by commas, without spaces.
pub open spec fn points_body(ps: Seq<Pt2>) -> Seq<char>
    decreases ps.len(),
{
    if ps.len() == 0 {
        Seq::empty()
    } else if ps.len() == 1 {
        pt2_text(ps[0])
    } else {
        points_body(ps.drop_last()) + ","@ + pt2_text(ps.last())
    }
}

/// An opening line, the body, then the closing brace on a line of its own.
pub open spec fn block(open: Seq<char>, body: Seq<char>) -> Seq<char> {
    open + body + "}\n"@
}

/// Whether a node is a primitive, with no children.
pub open spec fn is_leaf(n: Node) -> bool {
    n is Cube || n is Cylinder || n is Sphere || n is Polygon
}

/// The statement of a primitive, on a line of its own.
pub open spec fn leaf_text(n: Node) -> Seq<char> {
    match n {
        Node::Cube { size, center } => "cube(size="@ + vec3_text(size) + ", center="@ + bool_text(center)
            + ");\n"@,
        Node::Cylinder { height, r1, r2, center } => "cylinder(h="@ + milli_text(height as int) + ", r1="@
            + milli_text(r1 as int) + ", r2="@ + milli_text(r2 as int) + ", center="@ + bool_text(center)
            + ");\n"@,
        Node::Sphere { radius } => "sphere(r="@ + milli_text(radius as int) + ");\n"@,
        Node::Polygon { points } => "polygon(points=["@ + points_body(points@)
            + "], paths=undef, convexity=1);\n"@,
        _ => Seq::empty(),
    }
}

/// The opening line of a transform or a boolean operation.
pub open spec fn open_text(n: Node) -> Seq<char> {
    match n {
        Node::LinearExtrude { height, .. } => "linear_extrude(height="@ + milli_text(height as int)
            + ", center=false, convexity=1, twist=0, scale=[1, 1]) {\n"@,
        Node::Translate { v, .. } => "translate(v="@ + vec3_text(v) + ") {\n"@,
        Node::Rotate { a, .. } => "rotate(a="@ + vec3_text(a) + ") {\n"@,
        Node::Scale { v, .. } => "scale(v="@ + vec3_text(v) + ") {\n"@,
        Node::Mirror { v, .. } => "mirror(v="@ + vec3_text(v) + ") {\n"@,
        Node::Color { name, .. } => "color(\""@ + name@ + "\") {\n"@,
        Node::Union { .. } => "union() {\n"@,
        Node::Difference { .. } => "difference() {\n"@,
        Node::Intersection { .. } => "intersection() {\n"@,
        _ => Seq::empty(),
    }
}

/// The OpenSCAD text of a node: one statement per primitive, and a braced
/// block per transform or boolean operation holding its children in order.
pub open spec fn node_text(n: Node) -> Seq<char>
    decreases n,
{
    match n {
        Node::LinearExtrude { child, .. } => block(open_text(n), node_text(*child)),
        Node::Translate { child, .. } => block(open_text(n), node_text(*child)),
        Node::Rotate { child, .. } => block(open_text(n), node_text(*child)),
        Node::Scale { child, .. } => block(open_text(n), node_text(*child)),
        Node::Mirror { child, .. } => block(open_text(n), node_text(*child)),
        Node::Color { child, .. } => block(open_text(n), node_text(*child)),
        Node::Union { left, right } => block(open_text(n), node_text(*left) + node_text(*right)),
        Node::Difference { base, cut } => block(open_text(n), node_text(*base) + node_text(*cut)),
        Node::Intersection { left, right } => block(open_text(n), node_text(*left) + node_text(*right)),
        _ => leaf_text(n),
    }
}

pub open spec fn non_negative(v: Vec3) -> bool {
    v.x >= 0 && v.y >= 0 && v.z >= 0
}

/// A character that a color name may hold: an ASCII letter or digit, or `#`
/// for the hexadecimal form.
pub open spec fn is_color_char(c: char) -> bool {
    ('a' <= c && c <= 'z') || ('A' <= c && c <= 'Z') || ('0' <= c && c <= '9') || c == '#'
}

pub open spec fn is_color_name(s: Seq<char>) -> bool {
    s.len() > 0 && forall|i: int| 0 <= i < s.len() ==> is_color_char(#[trigger] s[i])
}

fn append_bool(out: &mut String, b: bool)
    ensures
        final(out)@ == old(out)@ + bool_text(b),
{
    if b {
        out.append("true");
    } else {
        out.append("false");
    }
}

fn append_vec3(out: &mut String, v: Vec3)
    ensures
        final(out)@ == old(out)@ + vec3_text(v),
{
    out.append("[");
    append_milli(out, v.x);
    out.append(", ");
    append_milli(out, v.y);
    out.append(", ");
    append_milli(out, v.z);
    out.append("]");
    assert(final(out)@ =~= old(out)@ + vec3_text(v));
}

fn append_pt2(out: &mut String, p: Pt2)
    ensures
        final(out)@ == old(out)@ + pt2_text(p),
{
    out.append("[");
    append_milli(out, p.x);
    out.append(", ");
    append_milli(out, p.y);
    out.append("]");
    assert(final(out)@ =~= old(out)@ + pt2_text(p));
}

fn append_points(out: &mut String, ps: &Vec<Pt2>)
    ensures
        final(out)@ == old(out)@ + points_body(ps@),
{
    let ghost start = out@;
    let mut i: usize = 0;
    while i < ps.len()
        invariant
            i <= ps.len(),
            out@ == start + points_body(ps@.subrange(0, i as int)),
        decreases ps.len() - i,
    {
        let ghost before = out@;
        if i > 0 {
            out.append(",");
        }
        append_pt2(out, ps[i]);
        proof {
            let next = ps@.subrange(0, i + 1);
            assert(next.drop_last() =~= ps@.subrange(0, i as int));
            if i == 0 {
                assert(points_body(next) == pt2_text(ps@[0]));
                assert(points_body(ps@.subrange(0, 0)) == Seq::<char>::empty());
                assert(out@ =~= start + points_body(next));
            } else {
                assert(out@ =~= start + points_body(next));
            }
        }
        i = i + 1;
    }
    assert(ps@.subrange(0, ps.len() as int) =~= ps@);
}

proof fn lemma_block_after(start: Seq<char>, open: Seq<char>, body: Seq<char>, out: Seq<char>)
    requires
        out == start + open + body + "}\n"@,
    ensures
        out == start + block(open, body),
{
    assert(out =~= start + block(open, body));
}

proof fn lemma_block2_after(start: Seq<char>, open: Seq<char>, first: Seq<char>, second: Seq<char>, out: Seq<char>)
    requires
        out == start + open + first + second + "}\n"@,
    ensures
        out == start + block(open, first + second),
{
    assert(out =~= start + block(open, first + second));
}

impl Node {
    fn write_leaf(&self, out: &mut String)
        requires
            is_leaf(*self),
        ensures
            final(out)@ == old(out)@ + leaf_text(*self),
    {
        let ghost start = out@;
        match self {
            Node::Cube { size, center } => {
                out.append("cube(size=");
                append_vec3(out, *size);
                out.append(", center=");
                append_bool(out, *center);
                out.append(");\n");
            },
            Node::Cylinder { height, r1, r2, center } => {
                out.append("cylinder(h=");
                append_milli(out, *height);
                out.append(", r1=");
                append_milli(out, *r1);
                out.append(", r2=");
                append_milli(out, *r2);
                out.append(", center=");
                append_bool(out, *center);
                out.append(");\n");
            },
            Node::Sphere { radius } => {
                out.append("sphere(r=");
                append_milli(out, *radius);
                out.append(");\n");
            },
            Node::Polygon { points } => {
                out.append("polygon(points=[");
                append_points(out, points);
                out.append("], paths=undef, convexity=1);\n");
            },
            _ => {},
        }
        assert(out@ =~= start + leaf_text(*self));
    }

    fn write_open(&self, out: &mut String)
        requires
            !is_leaf(*self),
        ensures
            final(out)@ == old(out)@ + open_text(*self),
    {
        let ghost start = out@;
        match self {
            Node::LinearExtrude { height, .. } => {
                out.append("linear_extrude(height=");
                append_milli(out, *height);
                out.append(", center=false, convexity=1, twist=0, scale=[1, 1]) {\n");
            },
            Node::Translate { v, .. } => {
                out.append("translate(v=");
                append_vec3(out, *v);
                out.append(") {\n");
            },
            Node::Rotate { a, .. } => {
                out.append("rotate(a=");
                append_vec3(out, *a);
                out.append(") {\n");
            },
            Node::Scale { v, .. } => {
                out.append("scale(v=");
                append_vec3(out, *v);
                out.append(") {\n");
            },
            Node::Mirror { v, .. } => {
                out.append("mirror(v=");
                append_vec3(out, *v);
                out.append(") {\n");
            },
            Node::Color { name, .. } => {
                out.append("color(\"");
                out.append(name.as_str());
                out.append("\") {\n");
            },
            Node::Union { .. } => {
                out.append("union() {\n");
            },
            Node::Difference { .. } => {
                out.append("difference() {\n");
            },
            Node::Intersection { .. } => {
                out.append("intersection() {\n");
            },
            _ => {},
        }
        assert(out@ =~= start + open_text(*self));
    }

    /// Appends the OpenSCAD text of this node to `out`.
    pub fn write_scad(&self, out: &mut String)
        ensures
            final(out)@ == old(out)@ + node_text(*self),
        decreases self,
    {
        let ghost start = out@;
        match self {
            Node::LinearExtrude { child, .. } => {
                self.write_open(out);
                child.write_scad(out);
                out.append("}\n");
                proof {
                    lemma_block_after(start, open_text(*self), node_text(**child), out@);
                }
            },
            Node::Translate { child, .. } => {
                self.write_open(out);
                child.write_scad(out);
                out.append("}\n");
                proof {
                    lemma_block_after(start, open_text(*self), node_text(**child), out@);
                }
            },
            Node::Rotate { child, .. } => {
                self.write_open(out);
                child.write_scad(out);
                out.append("}\n");
                proof {
                    lemma_block_after(start, open_text(*self), node_text(**child), out@);
                }
            },
            Node::Scale { child, .. } => {
                self.write_open(out);
                child.write_scad(out);
                out.append("}\n");
                proof {
                    lemma_block_after(start, open_text(*self), node_text(**child), out@);
                }
            },
            Node::Mirror { child, .. } => {
                self.write_open(out);
                child.write_scad(out);
                out.append("}\n");
                proof {
                    lemma_block_after(start, open_text(*self), node_text(**child), out@);
                }
            },
            Node::Color { child, .. } => {
                self.write_open(out);
                child.write_scad(out);
                out.append("}\n");
                proof {
                    lemma_block_after(start, open_text(*self), node_text(**child), out@);
                }
            },
            Node::Union { left, right } => {
                self.write_open(out);
                left.write_scad(out);
                right.write_scad(out);
                out.append("}\n");
                proof {
                    lemma_block2_after(start, open_text(*self), node_text(**left), node_text(**right), out@);
                }
            },
            Node::Difference { base, cut } => {
                self.write_open(out);
                base.write_scad(out);
                cut.write_scad(out);
                out.append("}\n");
                proof {
                    lemma_block2_after(start, open_text(*self), node_text(**base), node_text(**cut), out@);
                }
            },
            Node::Intersection { left, right } => {
                self.write_open(out);
                left.write_scad(out);
                right.write_scad(out);
                out.append("}\n");
                proof {
                    lemma_block2_after(start, open_text(*self), node_text(**left), node_text(**right), out@);
                }
            },
            _ => {
                self.write_leaf(out);
            },
        }
    }

    /// The OpenSCAD text of this node alone.
    pub fn to_scad(&self) -> (r: String)
        ensures
            r@ == node_text(*self),
    {
        let mut out = String::new();
        self.write_scad(&mut out);
        assert(out@ =~= node_text(*self));
        out
    }
}

fn is_color_name_str(name: &str) -> (r: bool)
    ensures
        r == is_color_name(name@),
{
    let n = name.unicode_len();
    if n == 0 {
        return false;
    }
    let mut i: usize = 0;
    while i < n
        invariant
            n == name@.len(),
            i <= n,
            forall|j: int| 0 <= j < i ==> is_color_char(#[trigger] name@[j]),
        decreases n - i,
    {
        let c = name.get_char(i);
        if !(('a' <= c && c <= 'z') || ('A' <= c && c <= 'Z') || ('0' <= c && c <= '9') || c == '#') {
            return false;
        }
        i = i + 1;
    }
    true
}

impl Node {
    /// A box with the given edge lengths, with one corner at the origin, or
    /// centered on it.
    pub fn cube(size: Vec3, center: bool) -> (r: Result<Node, SceneError>)
        ensures
            non_negative(size) ==> r == Ok::<Node, SceneError>(Node::Cube { size, center }),
            !non_negative(size) ==> r == Err::<Node, SceneError>(SceneError::InvalidParameter),
    {
        if size.x < 0 || size.y < 0 || size.z < 0 {
            Err(SceneError::InvalidParameter)
        } else {
            Ok(Node::Cube { size, center })
        }
    }

    /// A cylinder or cone along the z axis, of radius `r1` at the bottom and
    /// `r2` at the top.
    pub fn cylinder(height: i64, r1: i64, r2: i64, center: bool) -> (r: Result<Node, SceneError>)
        ensures
            height >= 0 && r1 >= 0 && r2 >= 0 ==> r == Ok::<Node, SceneError>(
                Node::Cylinder { height, r1, r2, center },
            ),
            !(height >= 0 && r1 >= 0 && r2 >= 0) ==> r == Err::<Node, SceneError>(SceneError::InvalidParameter),
    {
        if height < 0 || r1 < 0 || r2 < 0 {
            Err(SceneError::InvalidParameter)
        } else {
            Ok(Node::Cylinder { height, r1, r2, center })
        }
    }

    /// A sphere centered on the origin.
    pub fn sphere(radius: i64) -> (r: Result<Node, SceneError>)
        ensures
            radius >= 0 ==> r == Ok::<Node, SceneError>(Node::Sphere { radius }),
            radius < 0 ==> r == Err::<Node, SceneError>(SceneError::InvalidParameter),
    {
        if radius < 0 {
            Err(SceneError::InvalidParameter)
        } else {
            Ok(Node::Sphere { radius })
        }
    }

    /// A flat polygon through the given points, in order; it needs three at
    /// least.
    pub fn polygon(points: Vec<Pt2>) -> (r: Result<Node, SceneError>)
        ensures
            points@.len() >= 3 ==> r == Ok::<Node, SceneError>(Node::Polygon { points }),
            points@.len() < 3 ==> r == Err::<Node, SceneError>(SceneError::InvalidParameter),
    {
        if points.len() < 3 {
            Err(SceneError::InvalidParameter)
        } else {
            Ok(Node::Polygon { points })
        }
    }

    /// Sweeps a flat child straight up along the z axis.
    pub fn linear_extrude(height: i64, child: Node) -> (r: Result<Node, SceneError>)
        ensures
            height >= 0 ==> r == Ok::<Node, SceneError>(Node::LinearExtrude { height, child: Box::new(child) }),
            height < 0 ==> r == Err::<Node, SceneError>(SceneError::InvalidParameter),
    {
        if height < 0 {
            Err(SceneError::InvalidParameter)
        } else {
            Ok(Node::LinearExtrude { height, child: Box::new(child) })
        }
    }

    /// Moves the child by `v`.
    pub fn translate(v: Vec3, child: Node) -> (r: Node)
        ensures
            r == (Node::Translate { v, child: Box::new(child) }),
    {
        Node::Translate { v, child: Box::new(child) }
    }

    /// Turns the child about the x, then the y, then the z axis, by the
    /// angles of `a` in degrees.
    pub fn rotate(a: Vec3, child: Node) -> (r: Node)
        ensures
            r == (Node::Rotate { a, child: Box::new(child) }),
    {
        Node::Rotate { a, child: Box::new(child) }
    }

    /// Scales the child by the factors of `v` along each axis.
    pub fn scale(v: Vec3, child: Node) -> (r: Node)
        ensures
            r == (Node::Scale { v, child: Box::new(child) }),
    {
        Node::Scale { v, child: Box::new(child) }
    }

    /// Reflects the child in the plane through the origin with normal `v`.
    pub fn mirror(v: Vec3, child: Node) -> (r: Node)
        ensures
            r == (Node::Mirror { v, child: Box::new(child) }),
    {
        Node::Mirror { v, child: Box::new(child) }
    }

    /// Paints the child in a named color (`red`) or a hexadecimal one
    /// (`#ff0000`).
    pub fn color(name: &str, child: Node) -> (r: Result<Node, SceneError>)
        ensures
            is_color_name(name@) ==> r is Ok && r->Ok_0 is Color && r->Ok_0->Color_name@ == name@
                && r->Ok_0->Color_child == Box::new(child),
            !is_color_name(name@) ==> r == Err::<Node, SceneError>(SceneError::InvalidParameter),
    {
        if is_color_name_str(name) {
            Ok(Node::Color { name: String::from_str(name), child: Box::new(child) })
        } else {
            Err(SceneError::InvalidParameter)
        }
    }

    /// The union of two nodes.
    pub fn union_of(left: Node, right: Node) -> (r: Node)
        ensures
            r == (Node::Union { left: Box::new(left), right: Box::new(right) }),
    {
        Node::Union { left: Box::new(left), right: Box::new(right) }
    }

    /// `base` with `cut` taken away.
    pub fn difference_of(base: Node, cut: Node) -> (r: Node)
        ensures
            r == (Node::Difference { base: Box::new(base), cut: Box::new(cut) }),
    {
        Node::Difference { base: Box::new(base), cut: Box::new(cut) }
    }

    /// What two nodes have in common.
    pub fn intersection_of(left: Node, right: Node) -> (r: Node)
        ensures
            r == (Node::Intersection { left: Box::new(left), right: Box::new(right) }),
    {
        Node::Intersection { left: Box::new(left), right: Box::new(right) }
    }
}

} // verus!
