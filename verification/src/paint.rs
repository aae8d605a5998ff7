//! The paint traversal: a depth-first, pre-order walk that composites every
//! node into one shared surface. A container paints nothing of its own and
//! recurses with a cursor that advances along its alignment axis; an image
//! leaf scales its decoded pixels to its resolved content box and composites
//! them at its own padded origin.

use vstd::prelude::*;
use vstd::pervasive::unreached;

use crate::assets::prepared_wf;
use crate::assets::PreparedNode;
use crate::layout::children_geom;
use crate::layout::geom;
use crate::layout::leaf_content_h;
use crate::layout::leaf_content_w;
use crate::layout::lemma_children_geom_monotone;
use crate::layout::lemma_children_geom_prefix;
use crate::layout::lemma_geom_bounds;
use crate::layout::resolve_extent;
use crate::scale::scale_rgba;
use crate::scale::scaled_data;
use crate::style::ComponentAlign;
use crate::style::RawStyle;
use crate::style::MAX_DIM;
use crate::surface::blit;
use crate::surface::composited;
use crate::surface::surface_data;
use crate::surface::in_region;
use crate::surface::surface_from_vec;
use crate::surface::surface_height;
use crate::surface::surface_width;

verus! {

/// Where child `j` of a container at (x, y) is painted: the container's
/// padded content origin, advanced along the alignment axis by the summed
/// extents of the earlier siblings; the cross axis is unaffected by them.
pub open spec fn child_origin(
    style: RawStyle,
    cs: Seq<PreparedNode>,
    x: int,
    y: int,
    j: int,
) -> (int, int) {
    let along = children_geom(cs, style.align, j)->Ok_0.0;
    if style.align is Row {
        (x + style.padding.left + along, y + style.padding.top)
    } else {
        (x + style.padding.left, y + style.padding.top + along)
    }
}

/// The surface bytes after a node at (x, y) has painted itself and, in
/// declared order, its children.
pub open spec fn spec_paint(
    p: PreparedNode,
    x: int,
    y: int,
    data: Seq<u8>,
    sw: int,
    sh: int,
) -> Seq<u8>
    decreases p, 0int,
{
    match p {
        PreparedNode::Leaf { style, image } => {
            let cw = leaf_content_w(style);
            let ch = leaf_content_h(style, image);
            composited(
                data,
                sw,
                sh,
                x + style.padding.left,
                y + style.padding.top,
                scaled_data(image.rgba@, image.width as int, image.height as int, cw, ch),
                cw,
                ch,
            )
        },
        PreparedNode::Group { style, children } => spec_paint_children(
            children@,
            style,
            x,
            y,
            data,
            sw,
            sh,
            children@.len() as int,
        ),
    }
}

/// The surface bytes after the first `i` children of a container at (x, y)
/// have painted, each at its own origin.
pub open spec fn spec_paint_children(
    cs: Seq<PreparedNode>,
    style: RawStyle,
    x: int,
    y: int,
    data: Seq<u8>,
    sw: int,
    sh: int,
    i: int,
) -> Seq<u8>
    decreases cs, i,
        when 0 <= i <= cs.len()
{
    if i <= 0 {
        data
    } else {
        let prev = spec_paint_children(cs, style, x, y, data, sw, sh, i - 1);
        let org = child_origin(style, cs, x, y, i - 1);
        spec_paint(cs[i - 1], org.0, org.1, prev, sw, sh)
    }
}

/// Paints a resolved node at (x, y) into the shared surface. The surface
/// keeps its size; its bytes become exactly what [`spec_paint`] says; every
/// byte outside the node's own resolved box keeps its value, and for a leaf
/// even the padding ring inside that box is untouched — writes are confined
/// to the content rectangle the blit covers; and compositing itself cannot
/// fail.
#[verifier::loop_isolation(false)]
pub fn paint(surface: &mut tiny_skia::Pixmap, p: &PreparedNode, x: u32, y: u32)
    requires
        prepared_wf(*p),
        geom(*p) is Ok,
        x + geom(*p)->Ok_0.0 <= MAX_DIM,
        y + geom(*p)->Ok_0.1 <= MAX_DIM,
    ensures
        surface_width(*final(surface)) == surface_width(*old(surface)),
        surface_height(*final(surface)) == surface_height(*old(surface)),
        surface_data(*final(surface)) == spec_paint(
            *p,
            x as int,
            y as int,
            surface_data(*old(surface)),
            surface_width(*old(surface)),
            surface_height(*old(surface)),
        ),
        surface_data(*final(surface)).len() == surface_data(*old(surface)).len(),
        forall|k: int|
            0 <= k < surface_data(*old(surface)).len() && !in_region(
                k,
                surface_width(*old(surface)),
                x as int,
                y as int,
                geom(*p)->Ok_0.0,
                geom(*p)->Ok_0.1,
            ) ==> surface_data(*final(surface))[k] == surface_data(*old(surface))[k],
        (*p) matches PreparedNode::Leaf { style, image } ==> forall|k: int|
            0 <= k < surface_data(*old(surface)).len() && !in_region(
                k,
                surface_width(*old(surface)),
                x + style.padding.left,
                y + style.padding.top,
                leaf_content_w(style),
                leaf_content_h(style, image),
            ) ==> surface_data(*final(surface))[k] == surface_data(*old(surface))[k],
    decreases *p,
{
    match p {
        PreparedNode::Leaf { style, image } => {
            let explicit = match style.width {
                Some(v) => v,
                None => style.min_width,
            };
            let cw: u32 = if style.min_width < explicit {
                explicit
            } else {
                style.min_width
            };
            proof {
                vstd::arithmetic::mul::lemma_mul_upper_bound(
                    image.height as int,
                    u32::MAX as int,
                    cw as int,
                    MAX_DIM as int,
                );
            }
            let ch64: u64 = match style.height {
                Some(v) => v as u64,
                None => (image.height as u64) * (cw as u64) / (image.width as u64),
            };
            let ch: u32 = ch64 as u32;
            let scaled = scale_rgba(&image.rgba, image.width, image.height, cw, ch);
            let ghost scaled_view = scaled@;
            match surface_from_vec(scaled, cw, ch) {
                Some(small) => {
                    let dx = x + style.padding.left;
                    let dy = y + style.padding.top;
                    blit(surface, dx as i32, dy as i32, &small);
                },
                None => unreached(),
            }
        },
        PreparedNode::Group { style, children } => {
            let ghost data0 = surface_data(*surface);
            let ghost sw0 = surface_width(*surface);
            let ghost sh0 = surface_height(*surface);
            let ghost gw = geom(*p)->Ok_0.0;
            let ghost gh = geom(*p)->Ok_0.1;
            let n = children.len();
            let mut along: u32 = 0;
            for i in 0..n
                invariant
                    children_geom(children@, style.align, i as int) is Ok,
                    along as int == children_geom(children@, style.align, i as int)->Ok_0.0,
                    along <= MAX_DIM,
                    surface_width(*surface) == sw0,
                    surface_height(*surface) == sh0,
                    surface_data(*surface) == spec_paint_children(
                        children@,
                        *style,
                        x as int,
                        y as int,
                        data0,
                        sw0,
                        sh0,
                        i as int,
                    ),
                    surface_data(*surface).len() == data0.len(),
                    forall|k: int|
                        0 <= k < data0.len() && !in_region(
                            k,
                            sw0,
                            x as int,
                            y as int,
                            gw,
                            gh,
                        ) ==> surface_data(*surface)[k] == data0[k],
            {
                proof {
                    lemma_children_geom_prefix(
                        children@,
                        style.align,
                        children@.len() as int,
                        i as int,
                    );
                    lemma_geom_bounds(children@[i as int]);
                    lemma_children_geom_monotone(
                        children@,
                        style.align,
                        i as int + 1,
                        children@.len() as int,
                    );
                }
                let dims = match resolve_extent(&children[i]) {
                    Ok(dims) => dims,
                    Err(_) => unreached(),
                };
                let cx: u32 = match style.align {
                    ComponentAlign::Row => x + style.padding.left + along,
                    ComponentAlign::Column => x + style.padding.left,
                };
                let cy: u32 = match style.align {
                    ComponentAlign::Row => y + style.padding.top,
                    ComponentAlign::Column => y + style.padding.top + along,
                };
                proof {
                    assert(cx as int + geom(children@[i as int])->Ok_0.0 <= x as int + gw);
                    assert(cy as int + geom(children@[i as int])->Ok_0.1 <= y as int + gh);
                }
                paint(surface, &children[i], cx, cy);
                along = match style.align {
                    ComponentAlign::Row => along + dims.0,
                    ComponentAlign::Column => along + dims.1,
                };
            }
        },
    }
}

/// Along a row, a child's x-origin is the prefix sum of its earlier
/// siblings' resolved widths, starting at the container's padded origin,
/// and its y-origin is the padded origin, unaffected by the siblings.
pub proof fn lemma_child_origin_prefix_sums(
    style: RawStyle,
    cs: Seq<PreparedNode>,
    x: int,
    y: int,
    j: int,
)
    requires
        style.align is Row,
        0 <= j < cs.len(),
        children_geom(cs, style.align, j + 1) is Ok,
    ensures
        child_origin(style, cs, x, y, 0).0 == x + style.padding.left,
        child_origin(style, cs, x, y, j + 1).0 == child_origin(style, cs, x, y, j).0 + geom(
            cs[j],
        )->Ok_0.0,
        child_origin(style, cs, x, y, j).1 == y + style.padding.top,
{
}

/// Where child `j` of a resolved container placed at (x, y) is painted,
/// as concrete pixel coordinates; `None` for a leaf, an unresolved tree,
/// an index past the children, or an origin beyond `u32`.
#[verifier::loop_isolation(false)]
pub fn child_origin_of(p: &PreparedNode, j: usize, x: u32, y: u32) -> (r: Option<(u32, u32)>)
    ensures
        match *p {
            PreparedNode::Leaf { .. } => r is None,
            PreparedNode::Group { style, children } => {
                let org = child_origin(style, children@, x as int, y as int, j as int);
                if geom(*p) is Ok && j <= children@.len() && org.0 <= u32::MAX && org.1
                    <= u32::MAX {
                    r == Some((org.0 as u32, org.1 as u32))
                } else {
                    r is None
                }
            },
        },
{
    match p {
        PreparedNode::Leaf { .. } => None,
        PreparedNode::Group { style, children } => {
            match resolve_extent(p) {
                Err(_) => None,
                Ok(_dims) => {
                    if j > children.len() {
                        return None;
                    }
                    let ghost total = children@.len() as int;
                    let mut along: u32 = 0;
                    for i in 0..j
                        invariant
                            children_geom(children@, style.align, i as int) is Ok,
                            along as int == children_geom(
                                children@,
                                style.align,
                                i as int,
                            )->Ok_0.0,
                            along <= MAX_DIM,
                    {
                        proof {
                            lemma_children_geom_prefix(
                                children@,
                                style.align,
                                total,
                                i as int,
                            );
                            lemma_geom_bounds(children@[i as int]);
                            lemma_children_geom_monotone(
                                children@,
                                style.align,
                                i as int + 1,
                                total,
                            );
                        }
                        let dims = match resolve_extent(&children[i]) {
                            Ok(dims) => dims,
                            Err(_) => unreached(),
                        };
                        along = match style.align {
                            ComponentAlign::Row => along + dims.0,
                            ComponentAlign::Column => along + dims.1,
                        };
                    }
                    let ox64: u64 = match style.align {
                        ComponentAlign::Row => x as u64 + style.padding.left as u64
                            + along as u64,
                        ComponentAlign::Column => x as u64 + style.padding.left as u64,
                    };
                    let oy64: u64 = match style.align {
                        ComponentAlign::Row => y as u64 + style.padding.top as u64,
                        ComponentAlign::Column => y as u64 + style.padding.top as u64
                            + along as u64,
                    };
                    if ox64 > u32::MAX as u64 || oy64 > u32::MAX as u64 {
                        None
                    } else {
                        Some((ox64 as u32, oy64 as u32))
                    }
                },
            }
        },
    }
}

} // verus!
