use vstd::prelude::*;
use vstd::string::*;
use crate::node::{node_text, Node, SceneError};
use crate::num::{append_milli, append_nat, milli_text, nat_text};

verus! {

/// A root node with the global facet resolution: `fa` the smallest angle of
/// a facet in degrees, `fs` the smallest facet length, both in thousandths,
/// and, where given, the number of segments of every full circle.
#[derive(Debug)]
pub struct Scene {
    pub root: Node,
    pub fa: i64,
    pub fs: i64,
    pub segments: Option<u64>,
}

/// The `$fn` setting of the header, or nothing.
pub open spec fn segments_text(segments: Option<u64>) -> Seq<char> {
    match segments {
        Some(n) => " $fn="@ + nat_text(n as nat) + ";"@,
        None => Seq::empty(),
    }
}

/// The single header line that sets the resolution for the whole file.
pub open spec fn header_text(fa: int, fs: int, segments: Option<u64>) -> Seq<char> {
    "$fa="@ + milli_text(fa) + "; $fs="@ + milli_text(fs) + ";"@ + segments_text(segments) + "\n"@
}

/// The text of a whole scene file: the header line, then the root node.
pub open spec fn scene_text(s: Scene) -> Seq<char> {
    header_text(s.fa as int, s.fs as int, s.segments) + node_text(s.root)
}

impl Scene {
    /// A scene of `root` with no segment count; both resolutions must be
    /// positive.
    pub fn new(root: Node, fa: i64, fs: i64) -> (r: Result<Scene, SceneError>)
        ensures
            fa > 0 && fs > 0 ==> r == Ok::<Scene, SceneError>(Scene { root, fa, fs, segments: None }),
            !(fa > 0 && fs > 0) ==> r == Err::<Scene, SceneError>(SceneError::InvalidParameter),
    {
        if fa <= 0 || fs <= 0 {
            Err(SceneError::InvalidParameter)
        } else {
            Ok(Scene { root, fa, fs, segments: None })
        }
    }

    /// The same scene, with every full circle cut into `n` segments.
    pub fn with_segments(self, n: u64) -> (r: Scene)
        ensures
            r == (Scene { segments: Some(n), ..self }),
    {
        Scene { segments: Some(n), ..self }
    }

    /// The OpenSCAD text of the scene, the same on every call.
    pub fn to_scad(&self) -> (r: String)
        ensures
            r@ == scene_text(*self),
    {
        let mut out = String::new();
        out.append("$fa=");
        append_milli(&mut out, self.fa);
        out.append("; $fs=");
        append_milli(&mut out, self.fs);
        out.append(";");
        match self.segments {
            Some(n) => {
                out.append(" $fn=");
                append_nat(&mut out, n);
                out.append(";");
            },
            None => {},
        }
        out.append("\n");
        self.root.write_scad(&mut out);
        assert(out@ =~= scene_text(*self));
        out
    }
}

} // verus!
