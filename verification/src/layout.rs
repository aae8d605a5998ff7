//! Layout resolution: every node's declared style is merged with its
//! children's needs into a concrete outer box, bottom-up, with every
//! conflicting or degenerate request rejected as invalid geometry.

use vstd::prelude::*;
use vstd::math::max;
use vstd::math::min;

use crate::assets::PreparedNode;
use crate::error::ErrorKind;
use crate::error::RenderError;
use crate::node::RawImage;
use crate::style::ComponentAlign;
use crate::style::RawStyle;
use crate::style::ResolvedStyle;
use crate::style::MAX_DIM;

verus! {

/// An explicit dimension, or the fallback the resolver derives.
pub open spec fn opt_dim(o: Option<u32>, fallback: int) -> int {
    match o {
        Some(v) => v as int,
        None => fallback,
    }
}

/// The content width of a leaf: its explicit width if any, but never below
/// its minimum width.
pub open spec fn leaf_content_w(style: RawStyle) -> int {
    max(style.min_width as int, opt_dim(style.width, style.min_width as int))
}

/// The content height of a leaf: its explicit height if any, else the height
/// that keeps the intrinsic aspect ratio at the resolved content width.
pub open spec fn leaf_content_h(style: RawStyle, image: RawImage) -> int {
    opt_dim(
        style.height,
        if image.width == 0 {
            0
        } else {
            image.height * leaf_content_w(style) / (image.width as int)
        },
    )
}

/// The outer box of a leaf, or invalid geometry: a degenerate intrinsic
/// size, a zero content dimension, or an outer dimension beyond [`MAX_DIM`]
/// all fail rather than clamp.
pub open spec fn leaf_geom(style: RawStyle, image: RawImage) -> Result<(int, int), Seq<usize>> {
    let cw = leaf_content_w(style);
    let ch = leaf_content_h(style, image);
    if image.width == 0 || image.height == 0 {
        Err(seq![])
    } else if cw <= 0 || ch <= 0 {
        Err(seq![])
    } else if cw + style.padding.horizontal() > MAX_DIM || ch + style.padding.vertical()
        > MAX_DIM {
        Err(seq![])
    } else {
        Ok((cw + style.padding.horizontal(), ch + style.padding.vertical()))
    }
}

/// The outer box of a container whose children sum to `along` and peak at
/// `cross`: children plus padding, raised to the declared minima and
/// explicit dimensions, and rejected when zero or beyond [`MAX_DIM`].
pub open spec fn group_geom(style: RawStyle, along: int, cross: int) -> Result<
    (int, int),
    Seq<usize>,
> {
    let dw = if style.align is Row {
        along + style.padding.horizontal()
    } else {
        cross + style.padding.horizontal()
    };
    let dh = if style.align is Row {
        cross + style.padding.vertical()
    } else {
        along + style.padding.vertical()
    };
    let w = max(max(style.min_width as int, opt_dim(style.width, 0)), dw);
    let h = max(max(style.min_height as int, opt_dim(style.height, 0)), dh);
    if w <= 0 || h <= 0 || w > MAX_DIM || h > MAX_DIM {
        Err(seq![])
    } else {
        Ok((w, h))
    }
}

/// Folds the resolved extents of the first `i` children: the sum along the
/// alignment axis and the maximum across it. The first failing child wins,
/// its path extended by its index.
pub open spec fn children_geom(cs: Seq<PreparedNode>, align: ComponentAlign, i: int) -> Result<
    (int, int),
    Seq<usize>,
>
    decreases cs, i,
        when 0 <= i <= cs.len()
{
    if i <= 0 {
        Ok((0, 0))
    } else {
        match children_geom(cs, align, i - 1) {
            Err(e) => Err(e),
            Ok(acc) => match geom(cs[i - 1]) {
                Err(e) => Err(seq![(i - 1) as usize].add(e)),
                Ok(dims) => {
                    let ext_along = if align is Row {
                        dims.0
                    } else {
                        dims.1
                    };
                    let ext_cross = if align is Row {
                        dims.1
                    } else {
                        dims.0
                    };
                    Ok((acc.0 + ext_along, max(acc.1, ext_cross)))
                },
            },
        }
    }
}

/// The resolved outer box of a node: (width, height), or the path to the
/// node whose geometry is invalid.
pub open spec fn geom(p: PreparedNode) -> Result<(int, int), Seq<usize>>
    decreases p, 0int,
{
    match p {
        PreparedNode::Leaf { style, image } => leaf_geom(style, image),
        PreparedNode::Group { style, children } => match children_geom(
            children@,
            style.align,
            children@.len() as int,
        ) {
            Err(e) => Err(e),
            Ok(acc) => group_geom(style, acc.0, acc.1),
        },
    }
}

/// Every resolved box is non-degenerate: strictly positive on both axes and
/// no larger than [`MAX_DIM`] on either.
pub proof fn lemma_geom_bounds(p: PreparedNode)
    requires
        geom(p) is Ok,
    ensures
        0 < geom(p)->Ok_0.0 <= MAX_DIM,
        0 < geom(p)->Ok_0.1 <= MAX_DIM,
{
}

/// A leaf without an explicit height keeps its intrinsic aspect ratio: its
/// resolved content height is the intrinsic height scaled by the ratio of
/// the resolved content width to the intrinsic width.
pub proof fn lemma_leaf_aspect_ratio(style: RawStyle, image: RawImage)
    requires
        style.height is None,
        leaf_geom(style, image) is Ok,
    ensures
        leaf_content_h(style, image) == image.height * leaf_content_w(style) / (
        image.width as int),
{
}

/// A prefix of a resolved children fold is resolved too, and so is each
/// child it covers.
pub proof fn lemma_children_geom_prefix(cs: Seq<PreparedNode>, align: ComponentAlign, i: int, j: int)
    requires
        0 <= j <= i <= cs.len(),
        children_geom(cs, align, i) is Ok,
    ensures
        children_geom(cs, align, j) is Ok,
        j < i ==> geom(cs[j]) is Ok,
    decreases i - j,
{
    if j < i {
        lemma_children_geom_prefix(cs, align, i - 1, j);
    }
}

/// A failed children fold stays failed however much further it runs.
pub proof fn lemma_children_geom_err_stable(
    cs: Seq<PreparedNode>,
    align: ComponentAlign,
    i: int,
    k: int,
)
    requires
        0 <= i <= k <= cs.len(),
        children_geom(cs, align, i) is Err,
    ensures
        children_geom(cs, align, k) == children_geom(cs, align, i),
    decreases k - i,
{
    if i < k {
        lemma_children_geom_err_stable(cs, align, i, k - 1);
    }
}

/// Resolves the outer box of a node: its concrete (width, height) in
/// pixels, or the invalid-geometry error naming the offending node.
#[verifier::loop_isolation(false)]
pub fn resolve_extent(p: &PreparedNode) -> (r: Result<(u32, u32), RenderError>)
    ensures
        geom(*p) is Ok ==> r is Ok && r->Ok_0.0 as int == geom(*p)->Ok_0.0 && r->Ok_0.1 as int
            == geom(*p)->Ok_0.1,
        geom(*p) is Err ==> r is Err && r->Err_0.kind is InvalidGeometry && r->Err_0.at@ == geom(
            *p,
        )->Err_0,
    decreases *p,
{
    match p {
        PreparedNode::Leaf { style, image } => {
            if image.width == 0 || image.height == 0 {
                return Err(RenderError::here(ErrorKind::InvalidGeometry));
            }
            let explicit = match style.width {
                Some(v) => v,
                None => style.min_width,
            };
            let cw: u32 = if style.min_width < explicit {
                explicit
            } else {
                style.min_width
            };
            if cw == 0 || cw > MAX_DIM {
                return Err(RenderError::here(ErrorKind::InvalidGeometry));
            }
            let ch64: u64 = match style.height {
                Some(v) => v as u64,
                None => {
                    proof {
                        vstd::arithmetic::mul::lemma_mul_upper_bound(
                            image.height as int,
                            u32::MAX as int,
                            cw as int,
                            MAX_DIM as int,
                        );
                    }
                    (image.height as u64) * (cw as u64) / (image.width as u64)
                },
            };
            if ch64 == 0 || ch64 > MAX_DIM as u64 {
                return Err(RenderError::here(ErrorKind::InvalidGeometry));
            }
            let w64 = cw as u64 + style.padding.left as u64 + style.padding.right as u64;
            let h64 = ch64 + style.padding.top as u64 + style.padding.bottom as u64;
            if w64 > MAX_DIM as u64 || h64 > MAX_DIM as u64 {
                return Err(RenderError::here(ErrorKind::InvalidGeometry));
            }
            Ok((w64 as u32, h64 as u32))
        },
        PreparedNode::Group { style, children } => {
            let n = children.len();
            let mut along: u32 = 0;
            let mut cross: u32 = 0;
            for i in 0..n
                invariant
                    children_geom(children@, style.align, i as int) is Ok,
                    along as int == min(
                        children_geom(children@, style.align, i as int)->Ok_0.0,
                        MAX_DIM + 1,
                    ),
                    cross as int == children_geom(children@, style.align, i as int)->Ok_0.1,
                    cross <= MAX_DIM,
            {
                match resolve_extent(&children[i]) {
                    Err(e) => {
                        proof {
                            lemma_children_geom_err_stable(
                                children@,
                                style.align,
                                i as int + 1,
                                children@.len() as int,
                            );
                            assert(seq![i].add(geom(children@[i as int])->Err_0) =~= seq![i].add(
                                e.at@,
                            ));
                        }
                        return Err(e.from_child(i));
                    },
                    Ok(dims) => {
                        proof {
                            lemma_geom_bounds(children@[i as int]);
                        }
                        let ea: u32 = match style.align {
                            ComponentAlign::Row => dims.0,
                            ComponentAlign::Column => dims.1,
                        };
                        let ec: u32 = match style.align {
                            ComponentAlign::Row => dims.1,
                            ComponentAlign::Column => dims.0,
                        };
                        along = if along + ea > MAX_DIM + 1 {
                            MAX_DIM + 1
                        } else {
                            along + ea
                        };
                        if cross < ec {
                            cross = ec;
                        }
                    },
                }
            }
            let dw64: u64 = match style.align {
                ComponentAlign::Row => along as u64 + style.padding.left as u64
                    + style.padding.right as u64,
                ComponentAlign::Column => cross as u64 + style.padding.left as u64
                    + style.padding.right as u64,
            };
            let dh64: u64 = match style.align {
                ComponentAlign::Row => cross as u64 + style.padding.top as u64
                    + style.padding.bottom as u64,
                ComponentAlign::Column => along as u64 + style.padding.top as u64
                    + style.padding.bottom as u64,
            };
            let mut w64 = dw64;
            if (style.min_width as u64) > w64 {
                w64 = style.min_width as u64;
            }
            let exw: u64 = match style.width {
                Some(v) => v as u64,
                None => 0,
            };
            if exw > w64 {
                w64 = exw;
            }
            let mut h64 = dh64;
            if (style.min_height as u64) > h64 {
                h64 = style.min_height as u64;
            }
            let exh: u64 = match style.height {
                Some(v) => v as u64,
                None => 0,
            };
            if exh > h64 {
                h64 = exh;
            }
            if w64 == 0 || h64 == 0 || w64 > MAX_DIM as u64 || h64 > MAX_DIM as u64 {
                return Err(RenderError::here(ErrorKind::InvalidGeometry));
            }
            Ok((w64 as u32, h64 as u32))
        },
    }
}

/// A row container with zero horizontal padding, no minimum width and no
/// explicit width is exactly as wide as the sum of its children's resolved
/// widths.
pub proof fn lemma_row_container_width(style: RawStyle, cs: Seq<PreparedNode>)
    requires
        style.align is Row,
        style.padding.horizontal() == 0,
        style.min_width == 0,
        style.width is None,
        0 <= cs.len(),
        children_geom(cs, style.align, cs.len() as int) is Ok,
        group_geom(
            style,
            children_geom(cs, style.align, cs.len() as int)->Ok_0.0,
            children_geom(cs, style.align, cs.len() as int)->Ok_0.1,
        ) is Ok,
    ensures
        group_geom(
            style,
            children_geom(cs, style.align, cs.len() as int)->Ok_0.0,
            children_geom(cs, style.align, cs.len() as int)->Ok_0.1,
        )->Ok_0.0 == children_geom(cs, style.align, cs.len() as int)->Ok_0.0,
{
}

/// A resolved children fold only grows: a prefix sums to no more than the
/// whole, and its running maximum never exceeds the whole's.
pub proof fn lemma_children_geom_monotone(
    cs: Seq<PreparedNode>,
    align: ComponentAlign,
    i: int,
    k: int,
)
    requires
        0 <= i <= k <= cs.len(),
        children_geom(cs, align, k) is Ok,
    ensures
        children_geom(cs, align, i) is Ok,
        children_geom(cs, align, i)->Ok_0.0 <= children_geom(cs, align, k)->Ok_0.0,
        children_geom(cs, align, i)->Ok_0.1 <= children_geom(cs, align, k)->Ok_0.1,
    decreases k - i,
{
    if i < k {
        lemma_children_geom_monotone(cs, align, i, k - 1);
        lemma_children_geom_prefix(cs, align, k, k - 1);
        lemma_geom_bounds(cs[k - 1]);
    }
}

/// Resolves a node to the concrete style it occupies: its outer box, its
/// padding and its alignment axis, all well-formed; or the invalid-geometry
/// error naming the offending node.
pub fn resolve_style(p: &PreparedNode) -> (r: Result<ResolvedStyle, RenderError>)
    ensures
        geom(*p) is Ok ==> {
            &&& r is Ok
            &&& r->Ok_0.width as int == geom(*p)->Ok_0.0
            &&& r->Ok_0.height as int == geom(*p)->Ok_0.1
            &&& r->Ok_0.padding == p.raw_style().padding
            &&& r->Ok_0.align == p.raw_style().align
            &&& r->Ok_0.wf()
        },
        geom(*p) is Err ==> r is Err && r->Err_0.kind is InvalidGeometry && r->Err_0.at@ == geom(
            *p,
        )->Err_0,
{
    match resolve_extent(p) {
        Err(e) => Err(e),
        Ok(dims) => {
            proof {
                lemma_geom_bounds(*p);
            }
            let style = match p {
                PreparedNode::Leaf { style, .. } => *style,
                PreparedNode::Group { style, children } => {
                    proof {
                        lemma_children_geom_monotone(
                            children@,
                            style.align,
                            0,
                            children@.len() as int,
                        );
                    }
                    *style
                },
            };
            Ok(ResolvedStyle {
                width: dims.0,
                height: dims.1,
                padding: style.padding,
                align: style.align,
            })
        },
    }
}

} // verus!
