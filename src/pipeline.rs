use crate::codec::{
    decode_rgba8_tiff, decode_tiff, encode_gray16_png, encode_rgb8_png, png_gray16, png_rgb8,
    tiff_decoding, tiff_rgba8_decoding,
};
use crate::color::{reduce_color, rgb_of};
use crate::elevation::{quantize_raster, quantized_samples};
use crate::layout::{check_layout, check_single_channel, single_channel, supported_layout};
use crate::raster::{ConvertError, DecodedSamples, Raster, TiffKind};
use vstd::prelude::*;

verus! {

/// What checking decoded elevation samples gives: the raster where they are
/// floats, one per pixel; else the matching error.
pub open spec fn elevation_checked(
    width: u32,
    height: u32,
    bits: Option<Seq<u32>>,
    r: Result<Raster<u32>, ConvertError>,
) -> bool {
    match bits {
        None => r matches Err(ConvertError::DecodeMismatch),
        Some(s) => if s.len() == width * height {
            match r {
                Ok(ras) => ras.width == width && ras.height == height && ras.samples@ == s,
                Err(_) => false,
            }
        } else {
            r matches Err(ConvertError::DimensionMismatch)
        },
    }
}

/// What the elevation conversion of decoded samples gives: the PNG of the
/// quantized samples, unless the samples are not floats or do not fill the
/// raster; the encoder fails only on an empty raster.
pub open spec fn topo_outcome(
    width: u32,
    height: u32,
    bits: Option<Seq<u32>>,
    r: Result<Vec<u8>, ConvertError>,
) -> bool {
    match bits {
        None => r matches Err(ConvertError::DecodeMismatch),
        Some(s) => if s.len() == width * height {
            match r {
                Ok(png) => png@ == png_gray16(width, height, quantized_samples(s)),
                Err(e) => e is Encode && (width == 0 || height == 0),
            }
        } else {
            r matches Err(ConvertError::DimensionMismatch)
        },
    }
}

/// What the color conversion of decoded RGBA samples gives: the PNG of their
/// RGB samples, unless they do not fill the raster; the encoder fails only
/// on an empty raster.
pub open spec fn albedo_outcome(
    width: u32,
    height: u32,
    rgba: Seq<u8>,
    r: Result<Vec<u8>, ConvertError>,
) -> bool {
    if rgba.len() == width * height * 4 {
        match r {
            Ok(png) => png@ == png_rgb8(width, height, rgb_of(rgba)),
            Err(e) => e is Encode && (width == 0 || height == 0),
        }
    } else {
        r matches Err(ConvertError::DimensionMismatch)
    }
}

/// What converting the TIFF file `bytes` of the given kind gives: planar
/// files are refused before any decoding, and an elevation file must give
/// one sample per pixel.
pub open spec fn conversion_outcome(
    kind: TiffKind,
    bytes: Seq<u8>,
    r: Result<Vec<u8>, ConvertError>,
) -> bool {
    if !supported_layout(bytes) {
        r matches Err(ConvertError::UnsupportedLayout)
    } else {
        match kind {
            TiffKind::Topo => if !single_channel(bytes) {
                r matches Err(ConvertError::DecodeMismatch)
            } else {
                match tiff_decoding(bytes) {
                    None => r matches Err(ConvertError::TiffDecode(_)),
                    Some((w, h, bits)) => topo_outcome(w, h, bits, r),
                }
            },
            TiffKind::Albedo => match tiff_rgba8_decoding(bytes) {
                None => r matches Err(ConvertError::ImageDecode(_)),
                Some((w, h, s)) => albedo_outcome(w, h, s, r),
            },
        }
    }
}

/// `width * height`, which always fits in 64 bits.
fn pixel_count(width: u32, height: u32) -> (r: u64)
    ensures
        r == width * height,
{
    assert(width as u64 * height as u64 <= u64::MAX) by (nonlinear_arith)
        requires
            width <= u32::MAX,
            height <= u32::MAX,
    ;
    width as u64 * height as u64
}

/// Checks decoded elevation samples: they must be floats, one per pixel.
pub fn elevation_raster(width: u32, height: u32, samples: DecodedSamples) -> (r: Result<
    Raster<u32>,
    ConvertError,
>)
    ensures
        elevation_checked(width, height, samples.float_bits(), r),
{
    match samples {
        DecodedSamples::F32Bits(v) => {
            if v.len() as u64 != pixel_count(width, height) {
                Err(ConvertError::DimensionMismatch)
            } else {
                Ok(Raster { width, height, samples: v })
            }
        },
        DecodedSamples::Other => Err(ConvertError::DecodeMismatch),
    }
}

/// Decodes a TIFF file of single-channel 32-bit float elevation samples.
pub fn read_32f_tiff(bytes: &[u8]) -> (r: Result<Raster<u32>, ConvertError>)
    ensures
        !supported_layout(bytes@) ==> r matches Err(ConvertError::UnsupportedLayout),
        supported_layout(bytes@) && !single_channel(bytes@) ==> r matches Err(
            ConvertError::DecodeMismatch,
        ),
        supported_layout(bytes@) && single_channel(bytes@) ==> match tiff_decoding(bytes@) {
            None => r matches Err(ConvertError::TiffDecode(_)),
            Some((w, h, bits)) => elevation_checked(w, h, bits, r),
        },
{
    if !check_layout(bytes) {
        return Err(ConvertError::UnsupportedLayout);
    }
    if !check_single_channel(bytes) {
        return Err(ConvertError::DecodeMismatch);
    }
    match decode_tiff(bytes) {
        Ok((width, height, samples)) => elevation_raster(width, height, samples),
        Err(e) => Err(ConvertError::TiffDecode(e)),
    }
}

/// Decodes a TIFF file as 8-bit RGBA samples.
pub fn read_rgba_tiff(bytes: &[u8]) -> (r: Result<Raster<u8>, ConvertError>)
    ensures
        !supported_layout(bytes@) ==> r matches Err(ConvertError::UnsupportedLayout),
        supported_layout(bytes@) ==> match tiff_rgba8_decoding(bytes@) {
            None => r matches Err(ConvertError::ImageDecode(_)),
            Some((w, h, s)) => match r {
                Ok(ras) => ras.width == w && ras.height == h && ras.samples@ == s && w > 0 && h > 0
                    && ras.holds_pixels(4),
                Err(_) => false,
            },
        },
{
    if !check_layout(bytes) {
        return Err(ConvertError::UnsupportedLayout);
    }
    match decode_rgba8_tiff(bytes) {
        Ok((width, height, samples)) => Ok(Raster { width, height, samples }),
        Err(e) => Err(ConvertError::ImageDecode(e)),
    }
}

/// Encodes a quantized elevation raster as a 16-bit grayscale PNG.
pub fn encode_topo(q: Raster<u16>) -> (r: Result<Vec<u8>, ConvertError>)
    ensures
        !q.holds_pixels(1) ==> r matches Err(ConvertError::DimensionMismatch),
        q.holds_pixels(1) ==> match r {
            Ok(png) => png@ == png_gray16(q.width, q.height, q.samples@),
            Err(e) => e is Encode && (q.width == 0 || q.height == 0),
        },
{
    if q.samples.len() as u64 != pixel_count(q.width, q.height) {
        return Err(ConvertError::DimensionMismatch);
    }
    match encode_gray16_png(q.width, q.height, q.samples) {
        Some(Ok(png)) => Ok(png),
        Some(Err(e)) => Err(ConvertError::Encode(e)),
        None => Err(ConvertError::DimensionMismatch),
    }
}

/// Encodes an RGB raster as an 8-bit RGB PNG.
pub fn encode_albedo(rgb: Raster<u8>) -> (r: Result<Vec<u8>, ConvertError>)
    ensures
        !rgb.holds_pixels(3) ==> r matches Err(ConvertError::DimensionMismatch),
        rgb.holds_pixels(3) ==> match r {
            Ok(png) => png@ == png_rgb8(rgb.width, rgb.height, rgb.samples@),
            Err(e) => e is Encode && (rgb.width == 0 || rgb.height == 0),
        },
{
    let pixels = pixel_count(rgb.width, rgb.height);
    let len = rgb.samples.len() as u64;
    if pixels > u64::MAX / 3 || len != 3 * pixels {
        return Err(ConvertError::DimensionMismatch);
    }
    match encode_rgb8_png(rgb.width, rgb.height, rgb.samples) {
        Some(Ok(png)) => Ok(png),
        Some(Err(e)) => Err(ConvertError::Encode(e)),
        None => Err(ConvertError::DimensionMismatch),
    }
}

/// Converts decoded elevation samples into a 16-bit grayscale PNG.
pub fn topo_png(width: u32, height: u32, samples: DecodedSamples) -> (r: Result<
    Vec<u8>,
    ConvertError,
>)
    ensures
        topo_outcome(width, height, samples.float_bits(), r),
{
    let elevations = elevation_raster(width, height, samples)?;
    encode_topo(quantize_raster(&elevations))
}

/// Converts decoded RGBA samples into an 8-bit RGB PNG.
pub fn albedo_png(width: u32, height: u32, rgba: Vec<u8>) -> (r: Result<Vec<u8>, ConvertError>)
    ensures
        albedo_outcome(width, height, rgba@, r),
{
    let rgb = reduce_color(&Raster { width, height, samples: rgba })?;
    encode_albedo(rgb)
}

/// Converts a TIFF file of float elevations into a 16-bit grayscale PNG.
pub fn convert_topo(bytes: &[u8]) -> (r: Result<Vec<u8>, ConvertError>)
    ensures
        conversion_outcome(TiffKind::Topo, bytes@, r),
{
    let elevations = read_32f_tiff(bytes)?;
    encode_topo(quantize_raster(&elevations))
}

/// Converts a TIFF file of color imagery into an 8-bit RGB PNG.
pub fn convert_albedo(bytes: &[u8]) -> (r: Result<Vec<u8>, ConvertError>)
    ensures
        conversion_outcome(TiffKind::Albedo, bytes@, r),
{
    let rgba = read_rgba_tiff(bytes)?;
    albedo_png(rgba.width, rgba.height, rgba.samples)
}

/// Converts a TIFF file of the given kind into a PNG file.
pub fn convert(kind: TiffKind, bytes: &[u8]) -> (r: Result<Vec<u8>, ConvertError>)
    ensures
        conversion_outcome(kind, bytes@, r),
{
    match kind {
        TiffKind::Topo => convert_topo(bytes),
        TiffKind::Albedo => convert_albedo(bytes),
    }
}

} // verus!
