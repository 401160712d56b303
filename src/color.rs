use crate::raster::{ConvertError, Raster};
use vstd::prelude::*;

verus! {

/// The RGB samples of RGBA samples: each pixel keeps its first three
/// channels and loses the fourth.
pub open spec fn rgb_of(rgba: Seq<u8>) -> Seq<u8> {
    Seq::new((rgba.len() / 4 * 3) as nat, |i: int| rgba[(i / 3) * 4 + i % 3])
}

/// Drops the alpha channel of RGBA samples, with no blending.
pub fn drop_alpha(rgba: &Vec<u8>) -> (r: Vec<u8>)
    requires
        rgba@.len() % 4 == 0,
    ensures
        r@ == rgb_of(rgba@),
{
    let n: usize = rgba.len();
    let pixels: usize = n / 4;
    let mut out: Vec<u8> = Vec::new();
    let mut i: usize = 0;
    while i < pixels
        invariant
            n == rgba@.len(),
            pixels == n / 4,
            i <= pixels,
            out@.len() == 3 * i,
            forall|j: int| 0 <= j < 3 * i ==> out@[j] == rgba@[(j / 3) * 4 + j % 3],
        decreases pixels - i,
    {
        assert(4 * i + 4 <= rgba@.len());
        out.push(rgba[4 * i]);
        out.push(rgba[4 * i + 1]);
        out.push(rgba[4 * i + 2]);
        i = i + 1;
    }
    assert(out@ =~= rgb_of(rgba@));
    out
}

/// Turns an RGBA raster into an RGB raster of the same dimensions; fails with
/// `DimensionMismatch` exactly when the raster does not hold four samples per pixel.
pub fn reduce_color(src: &Raster<u8>) -> (r: Result<Raster<u8>, ConvertError>)
    ensures
        match r {
            Ok(out) => src.holds_pixels(4) && out.width == src.width && out.height == src.height
                && out.holds_pixels(3) && out.samples@ == rgb_of(src.samples@),
            Err(e) => !src.holds_pixels(4) && e is DimensionMismatch,
        },
{
    assert(src.width as u64 * src.height as u64 <= u64::MAX) by (nonlinear_arith)
        requires
            src.width <= u32::MAX,
            src.height <= u32::MAX,
    ;
    let pixels: u64 = src.width as u64 * src.height as u64;
    let len: usize = src.samples.len();
    if pixels > (usize::MAX / 4) as u64 || len != 4 * (pixels as usize) {
        return Err(ConvertError::DimensionMismatch);
    }
    let samples = drop_alpha(&src.samples);
    Ok(Raster { width: src.width, height: src.height, samples })
}

/// The alpha channel never influences the color reducer: two RGBA buffers
/// that agree on every red, green and blue sample give the same RGB buffer,
/// of the same pixel count.
pub proof fn law_alpha_ignored(a: Seq<u8>, b: Seq<u8>)
    requires
        a.len() == b.len(),
        forall|i: int| 0 <= i < a.len() && i % 4 != 3 ==> a[i] == b[i],
    ensures
        rgb_of(a) == rgb_of(b),
        rgb_of(a).len() == a.len() / 4 * 3,
{
    assert forall|i: int| 0 <= i < rgb_of(a).len() implies rgb_of(a)[i] == rgb_of(b)[i] by {
        assert((i / 3) * 4 + i % 3 < a.len());
    }
    assert(rgb_of(a) =~= rgb_of(b));
}

/// The color reducer keeps every pixel: from an RGBA buffer of `width *
/// height` pixels it makes an RGB buffer of as many pixels, whose red, green
/// and blue samples are those of the same input pixel.
pub proof fn law_pixels_kept(rgba: Seq<u8>, width: nat, height: nat)
    requires
        rgba.len() == width * height * 4,
    ensures
        rgb_of(rgba).len() == width * height * 3,
        forall|i: int, c: int|
            0 <= i < width * height && 0 <= c < 3 ==> #[trigger] rgb_of(rgba)[3 * i + c] == rgba[4
                * i + c],
{
    assert forall|i: int, c: int| 0 <= i < width * height && 0 <= c < 3 implies #[trigger] rgb_of(
        rgba,
    )[3 * i + c] == rgba[4 * i + c] by {
        assert((3 * i + c) / 3 == i);
        assert((3 * i + c) % 3 == c);
    }
}

} // verus!
