//! The shared output surface: a tiny_skia pixel buffer held behind narrow
//! contracts. The compositor only ever creates surfaces, wraps finished RGBA
//! buffers, composites one surface onto another, and takes the bytes out.

use vstd::prelude::*;

verus! {

#[verifier::external_type_specification]
#[verifier::external_body]
pub struct ExPixmap(tiny_skia::Pixmap);

/// The pixel bytes a surface holds: four bytes per pixel, row-major,
/// premultiplied RGBA.
pub uninterp spec fn surface_data(p: tiny_skia::Pixmap) -> Seq<u8>;

/// The pixel width a surface was made with.
pub uninterp spec fn surface_width(p: tiny_skia::Pixmap) -> int;

/// The pixel height a surface was made with.
pub uninterp spec fn surface_height(p: tiny_skia::Pixmap) -> int;

/// Byte `k` of a `w`-pixel-wide row-major surface belongs to a pixel inside
/// the rectangle of `rw` by `rh` pixels whose top-left pixel is (x, y).
pub open spec fn in_region(k: int, w: int, x: int, y: int, rw: int, rh: int) -> bool {
    let px = (k / 4) % w;
    let py = (k / 4) / w;
    &&& x <= px < x + rw
    &&& y <= py < y + rh
}

/// What source-over compositing of `src` onto `dst` at offset (x, y) leaves
/// in `dst`: a function of the two buffers, their dimensions and the offset
/// alone.
pub uninterp spec fn composited(
    dst: Seq<u8>,
    dst_w: int,
    dst_h: int,
    x: int,
    y: int,
    src: Seq<u8>,
    src_w: int,
    src_h: int,
) -> Seq<u8>;

/// Relies on tiny_skia::Pixmap::new: allocates a surface filled with
/// transparent black; `None` exactly when a dimension is zero or a row or
/// the whole buffer would overflow the limits its source checks.
#[verifier::external_body]
pub(crate) fn new_surface(width: u32, height: u32) -> (r: Option<tiny_skia::Pixmap>)
    ensures
        r is Some <==> (1 <= width && 1 <= height && 4 * width <= i32::MAX
            && 4 * width * height <= usize::MAX),
        r is Some ==> surface_width(r->0) == width,
        r is Some ==> surface_height(r->0) == height,
        r is Some ==> surface_data(r->0) =~= Seq::new((4 * width * height) as nat, |i: int| 0u8),
{
    tiny_skia::Pixmap::new(width, height)
}

/// Relies on tiny_skia::IntSize::from_wh and Pixmap::from_vec: wraps an owned
/// RGBA buffer as a surface without touching the bytes; `None` exactly when a
/// dimension is zero, a row overflows, or the length does not match the size.
#[verifier::external_body]
pub(crate) fn surface_from_vec(data: Vec<u8>, width: u32, height: u32) -> (r: Option<
    tiny_skia::Pixmap,
>)
    ensures
        r is Some <==> (1 <= width && 1 <= height && 4 * width <= i32::MAX
            && data@.len() == 4 * width * height),
        r is Some ==> surface_width(r->0) == width,
        r is Some ==> surface_height(r->0) == height,
        r is Some ==> surface_data(r->0) == data@,
{
    match tiny_skia::IntSize::from_wh(width, height) {
        Some(size) => tiny_skia::Pixmap::from_vec(data, size),
        None => None,
    }
}

/// Relies on tiny_skia::Pixmap::draw_pixmap with the identity transform, the
/// default paint and no mask: source-over composites `src` onto `dst` at
/// (x, y), clipped to `dst`, which keeps its size, and writes nothing
/// outside the destination rectangle. Its source converts the rectangle's
/// corners to `f32` (and fills it tile by tile on large destinations), so
/// the corners must stay in the range where `f32` holds integers exactly;
/// beyond it a corner could round onto a neighbouring pixel column.
#[verifier::external_body]
pub(crate) fn blit(dst: &mut tiny_skia::Pixmap, x: i32, y: i32, src: &tiny_skia::Pixmap)
    requires
        -16777216 <= x,
        -16777216 <= y,
        x + surface_width(*src) <= 16777216,
        y + surface_height(*src) <= 16777216,
    ensures
        surface_width(*final(dst)) == surface_width(*old(dst)),
        surface_height(*final(dst)) == surface_height(*old(dst)),
        surface_data(*final(dst)).len() == surface_data(*old(dst)).len(),
        forall|k: int|
            0 <= k < surface_data(*old(dst)).len() && !in_region(
                k,
                surface_width(*old(dst)),
                x as int,
                y as int,
                surface_width(*src),
                surface_height(*src),
            ) ==> surface_data(*final(dst))[k] == surface_data(*old(dst))[k],
        surface_data(*final(dst)) == composited(
            surface_data(*old(dst)),
            surface_width(*old(dst)),
            surface_height(*old(dst)),
            x as int,
            y as int,
            surface_data(*src),
            surface_width(*src),
            surface_height(*src),
        ),
{
    dst.draw_pixmap(
        x,
        y,
        src.as_ref(),
        &tiny_skia::PixmapPaint::default(),
        tiny_skia::Transform::identity(),
        None,
    );
}

/// Relies on tiny_skia::Pixmap::take: hands the pixel buffer out unchanged.
#[verifier::external_body]
pub(crate) fn take_surface_bytes(p: tiny_skia::Pixmap) -> (r: Vec<u8>)
    ensures
        r@ == surface_data(p),
{
    p.take()
}

/// The pixel bytes of a finished surface, four per pixel in row-major order.
pub fn surface_into_bytes(p: tiny_skia::Pixmap) -> (r: Vec<u8>)
    ensures
        r@ == surface_data(p),
{
    take_surface_bytes(p)
}

} // verus!
