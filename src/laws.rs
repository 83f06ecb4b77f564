use vstd::prelude::*;
use crate::models::{moved, union2};
use crate::node::{node_text, Node};
use crate::num::{is_number_char, lemma_milli_text_chars, lemma_nat_text_chars, milli_text, nat_text};
use crate::scene::{header_text, scene_text, segments_text, Scene};

verus! {

/// Whether point `p` (in thousandths) lies in the volume that `n` describes.
/// Unions, differences, intersections, translations and colors are read
/// exactly; `shape` gives the volume of every other node (a primitive, or a
/// transform that is not a translation), so that what is proved over `inside`
/// holds whatever those volumes are.
pub open spec fn inside(n: Node, shape: spec_fn(Node, (int, int, int)) -> bool, p: (int, int, int)) -> bool
    decreases n,
{
    match n {
        Node::Union { left, right } => inside(*left, shape, p) || inside(*right, shape, p),
        Node::Difference { base, cut } => inside(*base, shape, p) && !inside(*cut, shape, p),
        Node::Intersection { left, right } => inside(*left, shape, p) && inside(*right, shape, p),
        Node::Translate { v, child } => inside(*child, shape, (p.0 - v.x, p.1 - v.y, p.2 - v.z)),
        Node::Color { child, .. } => inside(*child, shape, p),
        _ => shape(n, p),
    }
}

pub open spec fn difference2(a: Node, b: Node) -> Node {
    Node::Difference { base: Box::new(a), cut: Box::new(b) }
}

pub open spec fn intersection2(a: Node, b: Node) -> Node {
    Node::Intersection { left: Box::new(a), right: Box::new(b) }
}

/// `part` stands somewhere in `whole` as a contiguous run.
pub open spec fn occurs_in(part: Seq<char>, whole: Seq<char>) -> bool {
    exists|i: int| 0 <= i && i + part.len() <= whole.len() && #[trigger] whole.subrange(i, i + part.len()) == part
}

/// `s` is a single line: it ends in a line break and holds no other.
pub open spec fn is_one_line(s: Seq<char>) -> bool {
    s.len() > 0 && s.last() == '\n' && forall|i: int| 0 <= i < s.len() - 1 ==> #[trigger] s[i] != '\n'
}

/// Serializing is a function of the scene: two scenes with the same root and
/// the same resolutions give the same text, character for character.
pub proof fn lemma_text_deterministic(a: Scene, b: Scene)
    requires
        a.root == b.root,
        a.fa == b.fa,
        a.fs == b.fs,
        a.segments == b.segments,
    ensures
        scene_text(a) == scene_text(b),
{
}

/// Union is commutative in the volume it describes: swapping its operands
/// changes the text, not the points that lie inside.
pub proof fn lemma_union_commutative(a: Node, b: Node, shape: spec_fn(Node, (int, int, int)) -> bool, p: (int, int, int))
    ensures
        inside(union2(a, b), shape, p) == inside(union2(b, a), shape, p),
{
}

/// Chained unions describe the same volume however they are grouped.
pub proof fn lemma_union_associative(
    a: Node,
    b: Node,
    c: Node,
    shape: spec_fn(Node, (int, int, int)) -> bool,
    p: (int, int, int),
)
    ensures
        inside(union2(union2(a, b), c), shape, p) == inside(union2(a, union2(b, c)), shape, p),
{
    assert(inside(union2(a, b), shape, p) == (inside(a, shape, p) || inside(b, shape, p)));
    assert(inside(union2(b, c), shape, p) == (inside(b, shape, p) || inside(c, shape, p)));
}

/// Difference is not commutative: a point of `a` outside `b` lies in `a`
/// minus `b` and not in `b` minus `a`.
pub proof fn lemma_difference_order_matters(
    a: Node,
    b: Node,
    shape: spec_fn(Node, (int, int, int)) -> bool,
    p: (int, int, int),
)
    requires
        inside(a, shape, p),
        !inside(b, shape, p),
    ensures
        inside(difference2(a, b), shape, p),
        !inside(difference2(b, a), shape, p),
{
}

/// A difference or an intersection writes its operands in the order given.
pub proof fn lemma_operand_order_kept(a: Node, b: Node)
    ensures
        node_text(difference2(a, b)) == "difference() {\n"@ + node_text(a) + node_text(b) + "}\n"@,
        node_text(intersection2(a, b)) == "intersection() {\n"@ + node_text(a) + node_text(b) + "}\n"@,
{
}

/// Translating by the zero vector leaves the volume as it was.
pub proof fn lemma_translate_zero(n: Node, shape: spec_fn(Node, (int, int, int)) -> bool, p: (int, int, int))
    ensures
        inside(moved(0, 0, 0, n), shape, p) == inside(n, shape, p),
{
    assert((p.0 - 0, p.1 - 0, p.2 - 0) == p);
}

/// The header of a scene file is a single line.
pub proof fn lemma_header_one_line(fa: int, fs: int, segments: Option<u64>)
    ensures
        is_one_line(header_text(fa, fs, segments)),
{
    reveal_strlit("$fa=");
    reveal_strlit("; $fs=");
    reveal_strlit(";");
    reveal_strlit(" $fn=");
    reveal_strlit("\n");
    lemma_milli_text_chars(fa);
    lemma_milli_text_chars(fs);
    let h = header_text(fa, fs, segments);
    let p1 = "$fa="@;
    let p2 = p1 + milli_text(fa);
    let p3 = p2 + "; $fs="@;
    let p4 = p3 + milli_text(fs);
    let p5 = p4 + ";"@;
    let g = segments_text(segments);
    let p6 = p5 + g;
    assert(h == p6 + "\n"@);
    assert forall|i: int| 0 <= i < g.len() implies #[trigger] g[i] != '\n' by {
        if let Some(n) = segments {
            lemma_nat_text_chars(n as nat);
            let q1 = " $fn="@;
            let q2 = q1 + nat_text(n as nat);
            if i < q1.len() {
                assert(g[i] == q1[i]);
            } else if i < q2.len() {
                assert(g[i] == nat_text(n as nat)[i - q1.len()]);
                assert(is_number_char(nat_text(n as nat)[i - q1.len()]));
            } else {
                assert(g[i] == ";"@[i - q2.len()]);
            }
        }
    }
    assert forall|i: int| 0 <= i < h.len() - 1 implies #[trigger] h[i] != '\n' by {
        if i < p1.len() {
            assert(h[i] == p1[i]);
        } else if i < p2.len() {
            assert(h[i] == milli_text(fa)[i - p1.len()]);
            assert(is_number_char(milli_text(fa)[i - p1.len()]));
        } else if i < p3.len() {
            assert(h[i] == "; $fs="@[i - p2.len()]);
        } else if i < p4.len() {
            assert(h[i] == milli_text(fs)[i - p3.len()]);
            assert(is_number_char(milli_text(fs)[i - p3.len()]));
        } else if i < p5.len() {
            assert(h[i] == ";"@[i - p4.len()]);
        } else {
            assert(h[i] == g[i - p5.len()]);
        }
    }
}

/// A scene that unites three nodes is written as one header line followed
/// by the union, and the text of each of the three nodes stands in it.
pub proof fn lemma_three_in_one_scene(a: Node, b: Node, c: Node, fa: i64, fs: i64, segments: Option<u64>)
    ensures
        ({
            let s = Scene { root: union2(union2(a, b), c), fa, fs, segments };
            let h = header_text(fa as int, fs as int, segments);
            &&& is_one_line(h)
            &&& scene_text(s) == h + node_text(s.root)
            &&& occurs_in(node_text(a), scene_text(s))
            &&& occurs_in(node_text(b), scene_text(s))
            &&& occurs_in(node_text(c), scene_text(s))
        }),
{
    lemma_header_one_line(fa as int, fs as int, segments);
    let s = Scene { root: union2(union2(a, b), c), fa, fs, segments };
    let t = scene_text(s);
    let h = header_text(fa as int, fs as int, segments);
    let u = "union() {\n"@;
    let ta = node_text(a);
    let tb = node_text(b);
    let tc = node_text(c);
    let close = "}\n"@;
    assert(node_text(union2(a, b)) == u + (ta + tb) + close);
    assert(node_text(s.root) == u + (node_text(union2(a, b)) + tc) + close);
    assert(t =~= h + (u + ((u + (ta + tb) + close) + tc) + close));
    let ia: int = (h.len() + u.len() + u.len()) as int;
    assert(t.subrange(ia, ia + ta.len()) =~= ta);
    let ib: int = ia + ta.len();
    assert(t.subrange(ib, ib + tb.len()) =~= tb);
    let ic: int = ib + tb.len() + close.len();
    assert(t.subrange(ic, ic + tc.len()) =~= tc);
}

} // verus!
