//! The typed failures a render pass can surface. Any node-level failure
//! aborts the whole pass; the error names the failing node by its path of
//! child indices from the root.

use vstd::prelude::*;

verus! {

/// The four failure kinds of a render pass.
#[derive(Clone, Copy, PartialEq, Eq, Structural, Debug)]
pub enum ErrorKind {
    /// The source locator did not resolve to readable bytes.
    AssetUnavailable,
    /// The bytes were not a valid image encoding.
    DecodeFailure,
    /// A resolved dimension was zero, out of range, or derived from a
    /// degenerate intrinsic size.
    InvalidGeometry,
    /// The raster surface rejected its dimensions or a pixel buffer.
    CompositionFailure,
}

/// A render failure: the kind, and the failing node named by the child
/// indices walked from the root to reach it (empty for the root itself).
#[derive(Clone, PartialEq, Eq, Debug)]
pub struct RenderError {
    pub kind: ErrorKind,
    pub at: Vec<usize>,
}

impl RenderError {
    /// An error at the root of the subtree under consideration.
    pub fn here(kind: ErrorKind) -> (r: RenderError)
        ensures
            r.kind == kind,
            r.at@ == Seq::<usize>::empty(),
    {
        RenderError { kind, at: Vec::new() }
    }

    /// The same error, seen from the parent of child `i`: the child index is
    /// prepended to the path.
    pub fn from_child(self, i: usize) -> (r: RenderError)
        ensures
            r.kind == self.kind,
            r.at@ == seq![i].add(self.at@),
    {
        let mut at = self.at;
        at.insert(0, i);
        RenderError { kind: self.kind, at }
    }
}

} // verus!
