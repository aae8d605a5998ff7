//! Loading phase: every image leaf is decoded once, before resolution, so
//! that layout can use intrinsic sizes and the paint pass is pure.

use vstd::prelude::*;

use crate::error::ErrorKind;
use crate::error::RenderError;
use crate::node::Container;
use crate::node::Image;
use crate::node::Node;
use crate::node::RawImage;
use crate::style::RawStyle;

verus! {

/// A tree whose image leaves carry their decoded pixels; produced by
/// [`load`], consumed by resolution and paint.
pub enum PreparedNode {
    Leaf { style: RawStyle, image: RawImage },
    Group { style: RawStyle, children: Vec<PreparedNode> },
}

impl PreparedNode {
    /// The declared style this prepared node carries.
    pub open spec fn raw_style(self) -> RawStyle {
        match self {
            PreparedNode::Leaf { style, .. } => style,
            PreparedNode::Group { style, .. } => style,
        }
    }
}

/// Every decoded leaf buffer of the tree holds four bytes per pixel.
pub open spec fn prepared_wf(p: PreparedNode) -> bool
    decreases p,
{
    match p {
        PreparedNode::Leaf { image, .. } => image.wf(),
        PreparedNode::Group { children, .. } => forall|i: int|
            0 <= i < children@.len() ==> prepared_wf(#[trigger] children@[i]),
    }
}

/// The prepared tree has the same shape and styles as the source tree, and
/// every decoded leaf buffer holds four bytes per pixel.
pub open spec fn mirrors(n: Node, p: PreparedNode) -> bool
    decreases n,
{
    match n {
        Node::Image(img) => match p {
            PreparedNode::Leaf { style, image } => style == img.style_spec() && image.wf(),
            PreparedNode::Group { .. } => false,
        },
        Node::Container(c) => match p {
            PreparedNode::Leaf { .. } => false,
            PreparedNode::Group { style, children } => {
                &&& style == c.style
                &&& children@.len() == c.children@.len()
                &&& forall|i: int|
                    0 <= i < c.children@.len() ==> mirrors(c.children@[i], #[trigger] children@[i])
            },
        },
    }
}

/// The path of child indices leads to an image leaf of the tree.
pub open spec fn is_image_at(n: Node, path: Seq<usize>) -> bool
    decreases path.len(),
{
    if path.len() == 0 {
        n is Image
    } else {
        match n {
            Node::Image(_) => false,
            Node::Container(c) => {
                &&& path[0] < c.children@.len()
                &&& is_image_at(c.children@[path[0] as int], path.skip(1))
            },
        }
    }
}

/// Relies on image::ImageReader::open / decode and DynamicImage::to_rgba8:
/// reads and decodes the image behind `path` into an RGBA buffer of four
/// bytes per pixel. An open failure and a decode failure are told apart by
/// which call failed; what comes back depends on what is on disk.
#[verifier::external_body]
fn decode_image(path: &str) -> (r: Result<RawImage, ErrorKind>)
    ensures
        r is Ok ==> (r->Ok_0).wf(),
        r is Err ==> (r->Err_0 is AssetUnavailable || r->Err_0 is DecodeFailure),
{
    match image::ImageReader::open(path) {
        Err(_) => Err(ErrorKind::AssetUnavailable),
        Ok(reader) => match reader.decode() {
            Err(_) => Err(ErrorKind::DecodeFailure),
            Ok(decoded) => {
                let rgba = decoded.to_rgba8();
                let width = rgba.width();
                let height = rgba.height();
                Ok(RawImage { width, height, rgba: rgba.into_raw() })
            },
        },
    }
}

/// Decodes every image leaf of the tree, in declared order. On success the
/// prepared tree mirrors the source tree; on failure a leaf that could not
/// be read or decoded is named.
#[verifier::loop_isolation(false)]
pub fn load(node: &Node) -> (r: Result<PreparedNode, RenderError>)
    ensures
        r is Ok ==> mirrors(*node, r->Ok_0) && prepared_wf(r->Ok_0),
        r is Err ==> {
            &&& (r->Err_0.kind is AssetUnavailable || r->Err_0.kind is DecodeFailure)
            &&& is_image_at(*node, r->Err_0.at@)
        },
    decreases node,
{
    match node {
        Node::Image(img) => match decode_image(img.path.as_str()) {
            Err(kind) => Err(RenderError::here(kind)),
            Ok(image) => Ok(PreparedNode::Leaf { style: img.style(), image }),
        },
        Node::Container(c) => {
            let mut out: Vec<PreparedNode> = Vec::new();
            let n = c.children.len();
            for i in 0..n
                invariant
                    n == c.children@.len(),
                    out@.len() == i,
                    forall|j: int| 0 <= j < i ==> mirrors(c.children@[j], #[trigger] out@[j]),
                    forall|j: int| 0 <= j < i ==> prepared_wf(#[trigger] out@[j]),
            {
                match load(&c.children[i]) {
                    Err(e) => {
                        proof {
                            let full = seq![i].add(e.at@);
                            assert(full.skip(1) =~= e.at@);
                            assert(full[0] == i);
                            assert(is_image_at(c.children@[i as int], e.at@));
                            assert(is_image_at(*node, full));
                        }
                        return Err(e.from_child(i));
                    },
                    Ok(p) => out.push(p),
                }
            }
            Ok(PreparedNode::Group { style: c.style, children: out })
        },
    }
}

} // verus!
