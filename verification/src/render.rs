//! The render pass: decode every leaf, resolve the tree's geometry, then
//! paint it into one freshly allocated surface. Any node-level failure
//! aborts the whole pass; there is no partial surface.

use vstd::prelude::*;

use crate::assets::load;
use crate::assets::mirrors;
use crate::assets::is_image_at;
use crate::assets::prepared_wf;
use crate::assets::PreparedNode;
use crate::error::ErrorKind;
use crate::error::RenderError;
use crate::layout::geom;
use crate::layout::lemma_geom_bounds;
use crate::layout::resolve_extent;
use crate::node::Node;
use crate::paint::paint;
use crate::paint::spec_paint;
use crate::surface::new_surface;
use crate::surface::surface_data;
use crate::surface::surface_height;
use crate::surface::surface_width;

verus! {

/// A transparent-black buffer of `n` bytes.
pub open spec fn zeros(n: int) -> Seq<u8> {
    Seq::new(n as nat, |i: int| 0u8)
}

/// What rendering a prepared tree onto a fresh `sw` by `sh` surface yields:
/// the exact pixel bytes, or the first failure — invalid geometry at the
/// named node, or a surface the raster library refuses to allocate.
pub open spec fn spec_rendered(p: PreparedNode, sw: u32, sh: u32) -> Result<
    Seq<u8>,
    (ErrorKind, Seq<usize>),
> {
    match geom(p) {
        Err(path) => Err((ErrorKind::InvalidGeometry, path)),
        Ok(dims) => if 1 <= sw && 1 <= sh && 4 * sw <= i32::MAX && 4 * sw * sh <= usize::MAX {
            Ok(spec_paint(p, 0, 0, zeros(4 * sw * sh), sw as int, sh as int))
        } else {
            Err((ErrorKind::CompositionFailure, seq![]))
        },
    }
}

/// Rendering is deterministic: one prepared tree and one surface size admit
/// exactly one pixel outcome, so two passes over the same immutable tree
/// yield byte-identical surfaces.
pub proof fn lemma_render_idempotent(p: PreparedNode, sw: u32, sh: u32, a: Seq<u8>, b: Seq<u8>)
    requires
        spec_rendered(p, sw, sh) is Ok,
        a == spec_rendered(p, sw, sh)->Ok_0,
        b == spec_rendered(p, sw, sh)->Ok_0,
    ensures
        a == b,
{
}

/// Renders an already-decoded tree onto a fresh surface of the given size.
/// The result is exactly what [`spec_rendered`] says: a fully painted
/// surface, or the first error, with no partial surface escaping.
pub fn render_prepared(root: &PreparedNode, surface_w: u32, surface_h: u32) -> (r: Result<
    tiny_skia::Pixmap,
    RenderError,
>)
    requires
        prepared_wf(*root),
    ensures
        spec_rendered(*root, surface_w, surface_h) is Ok ==> {
            &&& r is Ok
            &&& surface_data(r->Ok_0) == spec_rendered(*root, surface_w, surface_h)->Ok_0
            &&& surface_width(r->Ok_0) == surface_w
            &&& surface_height(r->Ok_0) == surface_h
        },
        spec_rendered(*root, surface_w, surface_h) is Err ==> {
            &&& r is Err
            &&& r->Err_0.kind == spec_rendered(*root, surface_w, surface_h)->Err_0.0
            &&& r->Err_0.at@ == spec_rendered(*root, surface_w, surface_h)->Err_0.1
        },
{
    match resolve_extent(root) {
        Err(e) => Err(e),
        Ok(_dims) => {
            proof {
                lemma_geom_bounds(*root);
            }
            match new_surface(surface_w, surface_h) {
                None => Err(RenderError::here(ErrorKind::CompositionFailure)),
                Some(mut surface) => {
                    paint(&mut surface, root, 0, 0);
                    Ok(surface)
                },
            }
        },
    }
}

/// Renders a component tree onto a fresh surface of the given size: decode
/// every leaf, resolve the geometry, paint. On success the surface bytes
/// are pinned by [`spec_rendered`] over some decode outcome that mirrors
/// the tree; on failure the error names the failing node and kind.
pub fn render(root: &Node, surface_w: u32, surface_h: u32) -> (r: Result<
    tiny_skia::Pixmap,
    RenderError,
>)
    ensures
        r is Ok ==> exists|p: PreparedNode|
            {
                &&& #[trigger] mirrors(*root, p)
                &&& prepared_wf(p)
                &&& spec_rendered(p, surface_w, surface_h) is Ok
                &&& surface_data(r->Ok_0) == spec_rendered(p, surface_w, surface_h)->Ok_0
                &&& surface_width(r->Ok_0) == surface_w
                &&& surface_height(r->Ok_0) == surface_h
            },
        r is Err ==> {
            ||| {
                &&& (r->Err_0.kind is AssetUnavailable || r->Err_0.kind is DecodeFailure)
                &&& is_image_at(*root, r->Err_0.at@)
            }
            ||| exists|p: PreparedNode|
                {
                    &&& #[trigger] mirrors(*root, p)
                    &&& prepared_wf(p)
                    &&& spec_rendered(p, surface_w, surface_h) == Err::<
                        Seq<u8>,
                        (ErrorKind, Seq<usize>),
                    >((r->Err_0.kind, r->Err_0.at@))
                }
        },
{
    match load(root) {
        Err(e) => Err(e),
        Ok(prepared) => {
            let out = render_prepared(&prepared, surface_w, surface_h);
            proof {
                assert(mirrors(*root, prepared));
            }
            out
        },
    }
}

} // verus!
