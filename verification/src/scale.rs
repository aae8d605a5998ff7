//! Nearest-neighbour scaling of a decoded RGBA buffer to the resolved
//! content size. Every output pixel is a copy of the source pixel its
//! coordinates map back onto.

use vstd::prelude::*;
use vstd::arithmetic::div_mod::lemma_fundamental_div_mod_converse;
use vstd::arithmetic::mul::lemma_mul_upper_bound;

use crate::style::MAX_DIM;

verus! {

/// The byte at position `k` of the scaled buffer: the matching channel of
/// the source pixel whose coordinates are the output coordinates scaled
/// back by the two size ratios, rounded down.
pub open spec fn scaled_px(src: Seq<u8>, iw: int, ih: int, ow: int, oh: int, k: int) -> u8 {
    let pix = k / 4;
    let c = k % 4;
    let ox = pix % ow;
    let oy = pix / ow;
    let sx = ox * iw / ow;
    let sy = oy * ih / oh;
    src[4 * (sy * iw + sx) + c]
}

/// The whole scaled buffer: `ow * oh` pixels of four bytes each, row-major.
pub open spec fn scaled_data(src: Seq<u8>, iw: int, ih: int, ow: int, oh: int) -> Seq<u8> {
    Seq::new((4 * ow * oh) as nat, |k: int| scaled_px(src, iw, ih, ow, oh, k))
}

/// Resamples a `iw` by `ih` RGBA buffer to `ow` by `oh` by nearest
/// neighbour.
#[verifier::loop_isolation(false)]
pub fn scale_rgba(src: &Vec<u8>, iw: u32, ih: u32, ow: u32, oh: u32) -> (r: Vec<u8>)
    requires
        1 <= iw,
        1 <= ih,
        1 <= ow <= MAX_DIM,
        1 <= oh <= MAX_DIM,
        src@.len() == 4 * iw * ih,
    ensures
        r@ == scaled_data(src@, iw as int, ih as int, ow as int, oh as int),
{
    let ghost sd = scaled_data(src@, iw as int, ih as int, ow as int, oh as int);
    let src_len: usize = src.len();
    let mut out: Vec<u8> = Vec::new();
    proof {
        assert(out@.len() == 0);
        assert((0int) * (ow as int) == 0) by (nonlinear_arith);
    }
    for oy in 0..oh
        invariant
            out@.len() == 4 * ((oy as int) * ow),
            forall|k: int| 0 <= k < out@.len() ==> out@[k] == sd[k],
    {
        proof {
            lemma_mul_upper_bound(oy as int, MAX_DIM - 1, ih as int, u32::MAX as int);
        }
        let sy: u64 = (oy as u64) * (ih as u64) / (oh as u64);
        proof {
            assert(sy < ih) by {
                assert((oy as int) * (ih as int) < (oh as int) * (ih as int)) by (nonlinear_arith)
                    requires
                        0 <= (oy as int) && (oy as int) < (oh as int),
                        0 < (ih as int),
                ;
                vstd::arithmetic::div_mod::lemma_multiply_divide_lt(
                    (oy as int) * (ih as int),
                    oh as int,
                    ih as int,
                );
            }
        }
        for ox in 0..ow
            invariant
                out@.len() == 4 * ((oy as int) * ow + ox),
                forall|k: int| 0 <= k < out@.len() ==> out@[k] == sd[k],
                sy as int == (oy as int) * ih / (oh as int),
                sy < ih,
        {
            proof {
                lemma_mul_upper_bound(ox as int, MAX_DIM - 1, iw as int, u32::MAX as int);
            }
            let sx: u64 = (ox as u64) * (iw as u64) / (ow as u64);
            proof {
                assert(sx < iw) by {
                    assert((ox as int) * (iw as int) < (ow as int) * (iw as int))
                        by (nonlinear_arith)
                        requires
                            0 <= (ox as int) && (ox as int) < (ow as int),
                            0 < (iw as int),
                    ;
                    vstd::arithmetic::div_mod::lemma_multiply_divide_lt(
                        (ox as int) * (iw as int),
                        ow as int,
                        iw as int,
                    );
                }
                assert(4 * ((sy as int) * (iw as int) + (sx as int)) + 3 < src_len)
                    by (nonlinear_arith)
                    requires
                        src_len == 4 * (iw as int) * (ih as int),
                        0 <= (sy as int) && (sy as int) < (ih as int),
                        0 <= (sx as int) && (sx as int) < (iw as int),
                ;
            }
            let base: u64 = 4 * ((sy * (iw as u64)) + sx);
            for c in 0..4u32
                invariant
                    out@.len() == 4 * ((oy as int) * ow + ox) + c,
                    forall|k: int| 0 <= k < out@.len() ==> out@[k] == sd[k],
                    sy as int == (oy as int) * ih / (oh as int),
                    sx as int == (ox as int) * iw / (ow as int),
                    sy < ih,
                    sx < iw,
                    base as int == 4 * ((sy as int) * iw + sx),
            {
                proof {
                    let k = out@.len() as int;
                    let pix = (oy as int) * ow + ox;
                    assert(pix < (oh as int) * ow) by (nonlinear_arith)
                        requires
                            pix == (oy as int) * ow + ox,
                            0 <= (oy as int) && (oy as int) < (oh as int),
                            0 <= (ox as int) && (ox as int) < (ow as int),
                            0 < (ow as int),
                    ;
                    lemma_fundamental_div_mod_converse(k, 4, pix, c as int);
                    lemma_fundamental_div_mod_converse(pix, ow as int, oy as int, ox as int);
                    assert(k < 4 * (ow as int) * (oh as int)) by (nonlinear_arith)
                        requires
                            k == 4 * pix + c,
                            0 <= c < 4,
                            pix < (oh as int) * ow,
                            0 < (ow as int),
                            0 < (oh as int),
                    ;
                    assert(sd[k] == src@[base as int + c]);
                }
                let b = src[(base + c as u64) as usize];
                out.push(b);
            }
        }
        proof {
            assert(((oy as int) + 1) * ow == (oy as int) * ow + ow) by (nonlinear_arith);
        }
    }
    proof {
        assert(4 * ((oh as int) * ow) == 4 * (ow as int) * (oh as int)) by (nonlinear_arith);
        assert(out@ =~= sd);
    }
    out
}

} // verus!
