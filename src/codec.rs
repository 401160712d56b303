use crate::layout::supported_layout;
use crate::raster::DecodedSamples;
use vstd::prelude::*;

verus! {

#[verifier::external_type_specification]
#[verifier::external_body]
pub struct ExTiffError(tiff::TiffError);

#[verifier::external_type_specification]
#[verifier::external_body]
pub struct ExImageError(image::ImageError);

/// What decoding a TIFF file gives: `None` where the decoder refuses it, else
/// its width, its height, and its float samples' bit patterns (`None` where
/// the samples are not floats).
pub uninterp spec fn tiff_decoding(bytes: Seq<u8>) -> Option<(u32, u32, Option<Seq<u32>>)>;

/// What decoding a TIFF file as 8-bit RGBA gives: `None` where the decoder
/// refuses it, else its width, its height and its samples.
pub uninterp spec fn tiff_rgba8_decoding(bytes: Seq<u8>) -> Option<(u32, u32, Seq<u8>)>;

/// The PNG file of a 16-bit grayscale raster.
pub uninterp spec fn png_gray16(width: u32, height: u32, samples: Seq<u16>) -> Seq<u8>;

/// The PNG file of an 8-bit RGB raster.
pub uninterp spec fn png_rgb8(width: u32, height: u32, samples: Seq<u8>) -> Seq<u8>;

/// Relies on tiff's `Decoder::new`, `Decoder::dimensions` and
/// `Decoder::read_image`, which read nothing but the given bytes and refuse
/// a zero width or height. Planar files are not handed over: on them
/// `Decoder::new` multiplies the chunk count by the plane count unchecked.
#[verifier::external_body]
pub(crate) fn decode_tiff(bytes: &[u8]) -> (r: Result<(u32, u32, DecodedSamples), tiff::TiffError>)
    requires
        supported_layout(bytes@),
    ensures
        r matches Ok((w, h, _)) ==> w > 0 && h > 0,
        match r {
            Ok((w, h, s)) => tiff_decoding(bytes@) == Some((w, h, s.float_bits())),
            Err(_) => tiff_decoding(bytes@) is None,
        },
{
    let mut decoder = tiff::decoder::Decoder::new(std::io::Cursor::new(bytes))?;
    let (width, height) = decoder.dimensions()?;
    let samples = match decoder.read_image()? {
        tiff::decoder::DecodingResult::F32(v) => DecodedSamples::F32Bits(
            v.into_iter().map(|x| x.to_bits()).collect(),
        ),
        _ => DecodedSamples::Other,
    };
    Ok((width, height, samples))
}

/// Relies on image's `io::Reader::decode` for the TIFF format and on
/// `DynamicImage::into_rgba8`, which read nothing but the given bytes; the
/// TIFF decoder underneath refuses a zero width or height, and the RGBA
/// buffer holds four samples per pixel. Planar files are not handed over, as
/// for `decode_tiff`.
#[verifier::external_body]
pub(crate) fn decode_rgba8_tiff(bytes: &[u8]) -> (r: Result<(u32, u32, Vec<u8>), image::ImageError>)
    requires
        supported_layout(bytes@),
    ensures
        r matches Ok((w, h, _)) ==> w > 0 && h > 0,
        match r {
            Ok((w, h, s)) => tiff_rgba8_decoding(bytes@) == Some((w, h, s@)) && s@.len() == w * h
                * 4,
            Err(_) => tiff_rgba8_decoding(bytes@) is None,
        },
{
    let reader = image::io::Reader::with_format(
        std::io::Cursor::new(bytes),
        image::ImageFormat::Tiff,
    );
    let img = reader.decode()?.into_rgba8();
    Ok((img.width(), img.height(), img.into_raw()))
}

/// Relies on image's `ImageBuffer::from_raw`, which refuses a buffer shorter
/// than `width * height` samples, and `ImageBuffer::write_to` with PNG, whose
/// encoder writes to memory and refuses only a zero width or height.
#[verifier::external_body]
pub(crate) fn encode_gray16_png(width: u32, height: u32, samples: Vec<u16>) -> (r: Option<
    Result<Vec<u8>, image::ImageError>,
>)
    ensures
        r is Some <==> width * height <= samples@.len(),
        width > 0 && height > 0 && width * height <= samples@.len() ==> r matches Some(Ok(_)),
        r matches Some(Ok(png)) ==> png@ == png_gray16(width, height, samples@),
{
    match image::ImageBuffer::<image::Luma<u16>, Vec<u16>>::from_raw(width, height, samples) {
        Some(img) => {
            let mut out = std::io::Cursor::new(Vec::new());
            match img.write_to(&mut out, image::ImageFormat::Png) {
                Ok(()) => Some(Ok(out.into_inner())),
                Err(e) => Some(Err(e)),
            }
        },
        None => None,
    }
}

/// Relies on image's `ImageBuffer::from_raw`, which refuses a buffer shorter
/// than `3 * width * height` samples, and `ImageBuffer::write_to` with PNG, whose
/// encoder writes to memory and refuses only a zero width or height.
#[verifier::external_body]
pub(crate) fn encode_rgb8_png(width: u32, height: u32, samples: Vec<u8>) -> (r: Option<
    Result<Vec<u8>, image::ImageError>,
>)
    ensures
        r is Some <==> width * height * 3 <= samples@.len(),
        width > 0 && height > 0 && width * height * 3 <= samples@.len() ==> r matches Some(Ok(_)),
        r matches Some(Ok(png)) ==> png@ == png_rgb8(width, height, samples@),
{
    match image::ImageBuffer::<image::Rgb<u8>, Vec<u8>>::from_raw(width, height, samples) {
        Some(img) => {
            let mut out = std::io::Cursor::new(Vec::new());
            match img.write_to(&mut out, image::ImageFormat::Png) {
                Ok(()) => Some(Ok(out.into_inner())),
                Err(e) => Some(Err(e)),
            }
        },
        None => None,
    }
}

} // verus!
