//! The component tree: container nodes that arrange children along an axis,
//! and image leaves that paint decoded pixel content.

use vstd::prelude::*;

use crate::style::ComponentAlign;
use crate::style::Padding;
use crate::style::RawStyle;

verus! {

/// Default inset, in pixels, that an image leaf asks for on all four sides.
pub const IMAGE_PADDING: u32 = 10;

/// A leaf node that paints an externally addressed image, scaled to a
/// requested content width.
pub struct Image {
    pub path: String,
    pub width: u32,
    pub padding: Padding,
}

impl Image {
    /// An image leaf with the default inset of [`IMAGE_PADDING`] on all
    /// four sides.
    pub fn new(path: String, width: u32) -> (r: Image)
        ensures
            r.path == path,
            r.width == width,
            r.padding == (Padding {
                top: IMAGE_PADDING,
                right: IMAGE_PADDING,
                bottom: IMAGE_PADDING,
                left: IMAGE_PADDING,
            }),
    {
        Image { path, width, padding: Padding::from_value(IMAGE_PADDING) }
    }

    /// An image leaf with a chosen inset.
    pub fn with_padding(path: String, width: u32, padding: Padding) -> (r: Image)
        ensures
            r.path == path,
            r.width == width,
            r.padding == padding,
    {
        Image { path, width, padding }
    }

    /// The layout hints an image leaf declares: its requested width as the
    /// minimum width, its inset, and row alignment.
    pub open spec fn style_spec(self) -> RawStyle {
        RawStyle {
            min_width: self.width,
            min_height: 0u32,
            width: None,
            height: None,
            padding: self.padding,
            align: ComponentAlign::Row,
        }
    }

    /// The declared style of this leaf; a pure function of the node itself.
    pub fn style(&self) -> (r: RawStyle)
        ensures
            r == self.style_spec(),
    {
        RawStyle {
            min_width: self.width,
            min_height: 0,
            width: None,
            height: None,
            padding: self.padding,
            align: ComponentAlign::Row,
        }
    }
}

/// A node with no intrinsic content of its own: it only arranges its
/// children along its declared axis.
pub struct Container {
    pub style: RawStyle,
    pub children: Vec<Node>,
}

impl Container {
    pub fn new(style: RawStyle, children: Vec<Node>) -> (r: Container)
        ensures
            r.style == style,
            r.children == children,
    {
        Container { style, children }
    }

    /// The declared style of this container.
    pub fn style(&self) -> (r: RawStyle)
        ensures
            r == self.style,
    {
        self.style
    }
}

/// One element of the component tree.
pub enum Node {
    Image(Image),
    Container(Container),
}

impl Node {
    /// The layout hints this node declares, before any tree context is
    /// applied.
    pub open spec fn raw_style(self) -> RawStyle {
        match self {
            Node::Image(img) => img.style_spec(),
            Node::Container(c) => c.style,
        }
    }

    /// The declared style of this node.
    pub fn style(&self) -> (r: RawStyle)
        ensures
            r == self.raw_style(),
    {
        match self {
            Node::Image(img) => img.style(),
            Node::Container(c) => c.style(),
        }
    }
}

/// A decoded image: its intrinsic pixel dimensions and its RGBA bytes, four
/// bytes per pixel in row-major order.
pub struct RawImage {
    pub width: u32,
    pub height: u32,
    pub rgba: Vec<u8>,
}

impl RawImage {
    /// The byte buffer holds exactly four bytes for each pixel.
    pub open spec fn wf(self) -> bool {
        self.rgba@.len() == 4 * self.width * self.height
    }
}

} // verus!
