//! Layout hints declared by a node, and the concrete box a node occupies
//! after resolution.

use vstd::prelude::*;

verus! {

/// Largest width or height, in pixels, that the compositor accepts for a
/// resolved box: one below two to the twenty-fourth, the last stretch where
/// `f32` holds every integer exactly. The raster library converts rectangle
/// corners to `f32` when it draws, so every coordinate a paint pass can
/// produce must stay in that range to land on the intended pixel column.
pub const MAX_DIM: u32 = 16777215;

/// The direction along which a container accumulates its children.
#[derive(Clone, Copy, PartialEq, Eq, Structural, Debug)]
pub enum ComponentAlign {
    Row,
    Column,
}

/// A four-sided inset around a node's content box.
#[derive(Clone, Copy, PartialEq, Eq, Structural, Debug)]
pub struct Padding {
    pub top: u32,
    pub right: u32,
    pub bottom: u32,
    pub left: u32,
}

impl Padding {
    /// Sum of the two horizontal insets.
    pub open spec fn horizontal(self) -> int {
        self.left + self.right
    }

    /// Sum of the two vertical insets.
    pub open spec fn vertical(self) -> int {
        self.top + self.bottom
    }

    /// The same inset on all four sides.
    pub fn from_value(v: u32) -> (r: Padding)
        ensures
            r == (Padding { top: v, right: v, bottom: v, left: v }),
    {
        Padding { top: v, right: v, bottom: v, left: v }
    }
}

/// A node's self-declared, context-free layout preferences: lower bounds on
/// its box, optional explicit dimensions, its padding and its child axis.
#[derive(Clone, Copy, PartialEq, Eq, Structural, Debug)]
pub struct RawStyle {
    pub min_width: u32,
    pub min_height: u32,
    /// Explicit outer width for a container, or explicit content width for a
    /// leaf; `None` lets resolution derive it.
    pub width: Option<u32>,
    /// Explicit outer height for a container, or explicit content height for
    /// a leaf; `None` derives it from children or from the intrinsic aspect
    /// ratio.
    pub height: Option<u32>,
    pub padding: Padding,
    pub align: ComponentAlign,
}

/// The concrete box a node occupies after resolution: outer width and
/// height (content plus padding), both positive and at most [`MAX_DIM`].
#[derive(Clone, Copy, PartialEq, Eq, Structural, Debug)]
pub struct ResolvedStyle {
    pub width: u32,
    pub height: u32,
    pub padding: Padding,
    pub align: ComponentAlign,
}

impl ResolvedStyle {
    /// Every resolved box is non-degenerate: positive on both axes, within
    /// the compositor's dimension bound, and large enough to contain its own
    /// padding.
    pub open spec fn wf(self) -> bool {
        &&& 0 < self.width <= MAX_DIM
        &&& 0 < self.height <= MAX_DIM
        &&& self.padding.horizontal() <= self.width
        &&& self.padding.vertical() <= self.height
    }
}

} // verus!
