use std::io::Cursor;

use swiss_convert::color::{drop_alpha, reduce_color};
use swiss_convert::elevation::{
    quantize_raster, quantize_samples, swiss_f32_to_u16, MAX_SWISS_HEIGHT_BITS,
    MIN_SWISS_HEIGHT_BITS,
};
use swiss_convert::pipeline::{
    albedo_png, convert, convert_albedo, convert_topo, elevation_raster, encode_albedo,
    encode_topo, read_32f_tiff, read_rgba_tiff, topo_png,
};
use swiss_convert::layout::{check_layout, check_single_channel};
use swiss_convert::raster::{ConvertError, DecodedSamples, Raster, TiffKind};

fn q(h: f32) -> u16 {
    swiss_f32_to_u16(h.to_bits())
}

fn float_tiff(width: u32, height: u32, data: &[f32]) -> Vec<u8> {
    let mut out = Cursor::new(Vec::new());
    let mut enc = tiff::encoder::TiffEncoder::new(&mut out).unwrap();
    enc.write_image::<tiff::encoder::colortype::Gray32Float>(width, height, data)
        .unwrap();
    out.into_inner()
}

fn gray8_tiff(width: u32, height: u32, data: &[u8]) -> Vec<u8> {
    let mut out = Cursor::new(Vec::new());
    let mut enc = tiff::encoder::TiffEncoder::new(&mut out).unwrap();
    enc.write_image::<tiff::encoder::colortype::Gray8>(width, height, data)
        .unwrap();
    out.into_inner()
}

fn rgba8_tiff(width: u32, height: u32, data: &[u8]) -> Vec<u8> {
    let mut out = Cursor::new(Vec::new());
    let mut enc = tiff::encoder::TiffEncoder::new(&mut out).unwrap();
    enc.write_image::<tiff::encoder::colortype::RGBA8>(width, height, data)
        .unwrap();
    out.into_inner()
}

#[test]
fn range_bounds_are_the_floats() {
    assert_eq!(MIN_SWISS_HEIGHT_BITS, 193.0f32.to_bits());
    assert_eq!(MAX_SWISS_HEIGHT_BITS, 4644.0f32.to_bits());
}

#[test]
fn quantize_range_ends() {
    let r = quantize_raster(&Raster {
        width: 2,
        height: 1,
        samples: vec![193.0f32.to_bits(), 4644.0f32.to_bits()],
    });
    assert_eq!(r.width, 2);
    assert_eq!(r.height, 1);
    assert_eq!(r.samples, vec![0, 65535]);
}

#[test]
fn quantize_midpoint_truncates() {
    let r = q(2418.5);
    assert!(r == 32767 || r == 32768);
    assert_eq!(r, 32767);
}

#[test]
fn quantize_below_range_clamps_to_zero() {
    let r = quantize_raster(&Raster { width: 1, height: 1, samples: vec![100.0f32.to_bits()] });
    assert_eq!(r.samples, vec![0]);
    assert_eq!(q(192.99), 0);
    assert_eq!(q(0.0), 0);
    assert_eq!(q(-0.0), 0);
    assert_eq!(q(-500.0), 0);
    assert_eq!(q(1.0e-40), 0);
}

#[test]
fn quantize_above_range_clamps_to_top() {
    assert_eq!(q(4645.0), 65535);
    assert_eq!(q(5000.0), 65535);
    assert_eq!(q(8192.0), 65535);
    assert_eq!(q(1.0e30), 65535);
}

#[test]
fn quantize_special_values() {
    assert_eq!(q(f32::NAN), 0);
    assert_eq!(q(f32::INFINITY), 65535);
    assert_eq!(q(f32::NEG_INFINITY), 0);
}

#[test]
fn quantize_exact_values() {
    // (h - 193) * 65535 / 4451, truncated
    assert_eq!(q(194.0), 14);
    assert_eq!(q(1000.0), 11881);
    assert_eq!(q(4096.0), 57466);
    assert_eq!(q(4643.0), 65520);
}

#[test]
fn quantize_is_monotonic() {
    let mut prev = 0u16;
    let mut h = 150.0f32;
    while h < 4700.0 {
        let r = q(h);
        assert!(r >= prev);
        prev = r;
        h += 0.75;
    }
    assert_eq!(prev, 65535);
}

#[test]
fn quantize_is_deterministic() {
    let input: Vec<u32> = [193.0f32, 700.25, 2418.5, 4644.0, 9.0].iter().map(|h| h.to_bits()).collect();
    let a = quantize_samples(&input);
    let b = quantize_samples(&input);
    assert_eq!(a, b);
    assert_eq!(a.len(), input.len());
}

#[test]
fn color_reducer_drops_alpha() {
    let r = reduce_color(&Raster { width: 1, height: 1, samples: vec![255, 0, 0, 128] }).unwrap();
    assert_eq!(r.width, 1);
    assert_eq!(r.height, 1);
    assert_eq!(r.samples, vec![255, 0, 0]);
}

#[test]
fn color_reducer_ignores_alpha() {
    let a = drop_alpha(&vec![1, 2, 3, 0, 4, 5, 6, 255]);
    let b = drop_alpha(&vec![1, 2, 3, 77, 4, 5, 6, 9]);
    assert_eq!(a, vec![1, 2, 3, 4, 5, 6]);
    assert_eq!(a, b);
}

#[test]
fn color_reducer_keeps_dimensions() {
    let samples: Vec<u8> = (0..24u8).collect();
    let r = reduce_color(&Raster { width: 3, height: 2, samples }).unwrap();
    assert_eq!((r.width, r.height), (3, 2));
    assert_eq!(r.samples.len(), 18);
    assert_eq!(&r.samples[..6], &[0, 1, 2, 4, 5, 6]);
}

#[test]
fn color_reducer_rejects_wrong_length() {
    let r = reduce_color(&Raster { width: 1, height: 1, samples: vec![1, 2, 3] });
    assert!(matches!(r, Err(ConvertError::DimensionMismatch)));
    let r = reduce_color(&Raster { width: 2, height: 1, samples: vec![1, 2, 3, 4] });
    assert!(matches!(r, Err(ConvertError::DimensionMismatch)));
}

#[test]
fn elevation_raster_checks_samples() {
    let r = elevation_raster(2, 1, DecodedSamples::F32Bits(vec![1, 2])).unwrap();
    assert_eq!((r.width, r.height, r.samples), (2, 1, vec![1, 2]));
    let r = elevation_raster(2, 2, DecodedSamples::F32Bits(vec![1, 2]));
    assert!(matches!(r, Err(ConvertError::DimensionMismatch)));
    let r = elevation_raster(1, 1, DecodedSamples::Other);
    assert!(matches!(r, Err(ConvertError::DecodeMismatch)));
}

#[test]
fn topo_png_of_decoded_samples() {
    let png = topo_png(2, 1, DecodedSamples::F32Bits(vec![193.0f32.to_bits(), 4644.0f32.to_bits()])).unwrap();
    let img = image::load_from_memory_with_format(&png, image::ImageFormat::Png).unwrap();
    assert_eq!(img.color(), image::ColorType::L16);
    assert_eq!(img.into_luma16().into_raw(), vec![0, 65535]);
    assert!(matches!(topo_png(1, 1, DecodedSamples::Other), Err(ConvertError::DecodeMismatch)));
}

#[test]
fn albedo_png_of_decoded_samples() {
    let png = albedo_png(1, 1, vec![255, 0, 0, 128]).unwrap();
    let img = image::load_from_memory_with_format(&png, image::ImageFormat::Png).unwrap();
    assert_eq!(img.color(), image::ColorType::Rgb8);
    assert_eq!(img.into_rgb8().into_raw(), vec![255, 0, 0]);
    assert!(matches!(albedo_png(2, 1, vec![1, 2, 3, 4]), Err(ConvertError::DimensionMismatch)));
}

#[test]
fn encoders_check_dimensions() {
    let r = encode_topo(Raster { width: 2, height: 2, samples: vec![1, 2, 3] });
    assert!(matches!(r, Err(ConvertError::DimensionMismatch)));
    let r = encode_albedo(Raster { width: 1, height: 1, samples: vec![1, 2, 3, 4] });
    assert!(matches!(r, Err(ConvertError::DimensionMismatch)));
    let png = encode_albedo(Raster { width: 1, height: 1, samples: vec![9, 8, 7] }).unwrap();
    let img = image::load_from_memory_with_format(&png, image::ImageFormat::Png).unwrap();
    assert_eq!(img.into_rgb8().into_raw(), vec![9, 8, 7]);
}

#[test]
fn read_float_tiff() {
    let bytes = float_tiff(3, 1, &[193.0, 2418.5, 4644.0]);
    let r = read_32f_tiff(&bytes).unwrap();
    assert_eq!((r.width, r.height), (3, 1));
    assert_eq!(r.samples, vec![193.0f32.to_bits(), 2418.5f32.to_bits(), 4644.0f32.to_bits()]);
}

#[test]
fn read_rgba_tiff_samples() {
    let bytes = rgba8_tiff(2, 1, &[255, 0, 0, 128, 1, 2, 3, 4]);
    let r = read_rgba_tiff(&bytes).unwrap();
    assert_eq!((r.width, r.height), (2, 1));
    assert_eq!(r.samples, vec![255, 0, 0, 128, 1, 2, 3, 4]);
}

#[test]
fn convert_topo_tiff_to_png() {
    let bytes = float_tiff(2, 1, &[193.0, 4644.0]);
    let png = convert_topo(&bytes).unwrap();
    let img = image::load_from_memory_with_format(&png, image::ImageFormat::Png).unwrap();
    assert_eq!((img.width(), img.height()), (2, 1));
    assert_eq!(img.into_luma16().into_raw(), vec![0, 65535]);
    assert_eq!(convert(TiffKind::Topo, &bytes).unwrap(), png);
}

#[test]
fn convert_albedo_tiff_to_png() {
    let bytes = rgba8_tiff(1, 1, &[255, 0, 0, 128]);
    let png = convert_albedo(&bytes).unwrap();
    let img = image::load_from_memory_with_format(&png, image::ImageFormat::Png).unwrap();
    assert_eq!((img.width(), img.height()), (1, 1));
    assert_eq!(img.color(), image::ColorType::Rgb8);
    assert_eq!(img.into_rgb8().into_raw(), vec![255, 0, 0]);
    assert_eq!(convert(TiffKind::Albedo, &bytes).unwrap(), png);
}

#[test]
fn convert_topo_rejects_non_float_samples() {
    let bytes = gray8_tiff(1, 1, &[7]);
    assert!(matches!(convert_topo(&bytes), Err(ConvertError::DecodeMismatch)));
    assert!(matches!(convert(TiffKind::Topo, &bytes), Err(ConvertError::DecodeMismatch)));
}

/// A little-endian classic file whose first directory holds the given
/// entries `(tag, type, count, value)`.
fn crafted_tiff(entries: &[(u16, u16, u32, u32)]) -> Vec<u8> {
    let mut b = vec![0x49u8, 0x49, 42, 0, 8, 0, 0, 0];
    b.extend_from_slice(&(entries.len() as u16).to_le_bytes());
    for &(tag, ty, count, value) in entries {
        b.extend_from_slice(&tag.to_le_bytes());
        b.extend_from_slice(&ty.to_le_bytes());
        b.extend_from_slice(&count.to_le_bytes());
        b.extend_from_slice(&value.to_le_bytes());
    }
    b.extend_from_slice(&[0, 0, 0, 0]);
    b
}

#[test]
fn convert_rejects_malformed_bytes() {
    let bytes = vec![1u8, 2, 3, 4, 5];
    assert!(check_layout(&bytes));
    assert!(matches!(convert_topo(&bytes), Err(ConvertError::TiffDecode(_))));
    assert!(matches!(convert_albedo(&bytes), Err(ConvertError::ImageDecode(_))));
    // a well-formed header whose directory lacks the required tags
    let bytes = crafted_tiff(&[]);
    assert!(check_layout(&bytes));
    assert!(matches!(convert_topo(&bytes), Err(ConvertError::TiffDecode(_))));
    assert!(matches!(convert_albedo(&bytes), Err(ConvertError::ImageDecode(_))));
    assert!(matches!(read_32f_tiff(&bytes), Err(ConvertError::TiffDecode(_))));
}

#[test]
fn layout_check_accepts_encoded_files() {
    assert!(check_layout(&float_tiff(2, 1, &[193.0, 4644.0])));
    assert!(check_single_channel(&float_tiff(2, 1, &[193.0, 4644.0])));
    assert!(check_layout(&rgba8_tiff(1, 1, &[1, 2, 3, 4])));
    assert!(!check_single_channel(&rgba8_tiff(1, 1, &[1, 2, 3, 4])));
}

/// A little-endian BigTIFF file whose first directory holds the given
/// entries `(tag, type, count, value)`.
fn crafted_big_tiff(entries: &[(u16, u16, u64, u64)]) -> Vec<u8> {
    let mut b = vec![0x49u8, 0x49, 43, 0, 8, 0, 0, 0, 16, 0, 0, 0, 0, 0, 0, 0];
    b.extend_from_slice(&(entries.len() as u64).to_le_bytes());
    for &(tag, ty, count, value) in entries {
        b.extend_from_slice(&tag.to_le_bytes());
        b.extend_from_slice(&ty.to_le_bytes());
        b.extend_from_slice(&count.to_le_bytes());
        b.extend_from_slice(&value.to_le_bytes());
    }
    b.extend_from_slice(&[0; 8]);
    b
}

#[test]
fn layout_check_rejects_only_planar_files() {
    // planar configuration 2, two samples per pixel, height 2^31, one row per strip
    let planar = crafted_tiff(&[
        (256, 4, 1, 1),
        (257, 4, 1, 0x8000_0000),
        (273, 4, 1, 0),
        (277, 3, 1, 2),
        (278, 4, 1, 1),
        (279, 4, 1, 0),
        (284, 3, 1, 2),
    ]);
    assert!(!check_layout(&planar));
    assert!(matches!(convert_topo(&planar), Err(ConvertError::UnsupportedLayout)));
    assert!(matches!(convert_albedo(&planar), Err(ConvertError::UnsupportedLayout)));
    assert!(matches!(read_rgba_tiff(&planar), Err(ConvertError::UnsupportedLayout)));
    assert!(check_layout(&crafted_tiff(&[(284, 3, 1, 1)])));
    assert!(check_layout(&crafted_tiff(&[(284, 4, 1, 1)])));
    assert!(!check_layout(&crafted_tiff(&[(284, 4, 1, 2)])));
    assert!(!check_layout(&crafted_tiff(&[(284, 3, 2, 1)])));
    // tiled files are accepted
    assert!(check_layout(&crafted_tiff(&[(322, 4, 1, 16), (323, 4, 1, 16)])));
    // BigTIFF directories are read too
    assert!(!check_layout(&crafted_big_tiff(&[(284, 3, 1, 2)])));
    assert!(check_layout(&crafted_big_tiff(&[(284, 3, 1, 1)])));
    assert!(!check_single_channel(&crafted_big_tiff(&[(277, 3, 1, 3)])));
    assert!(check_single_channel(&crafted_big_tiff(&[(277, 4, 1, 1)])));
    // big-endian entry: the SHORT value sits in the first two bytes of the field
    let mut big_endian = vec![0x4Du8, 0x4D, 0, 42, 0, 0, 0, 8, 0, 1];
    big_endian.extend_from_slice(&[0x01, 0x1C, 0, 3, 0, 0, 0, 1, 0, 2, 0, 0, 0, 0, 0, 0]);
    assert!(!check_layout(&big_endian));
    big_endian[19] = 1;
    assert!(check_layout(&big_endian));
}

#[test]
fn unreadable_directories_go_to_the_decoder() {
    let mut truncated = crafted_tiff(&[(256, 4, 1, 1), (284, 3, 1, 2)]);
    truncated.truncate(20);
    assert!(check_layout(&truncated));
    assert!(matches!(convert_topo(&truncated), Err(ConvertError::TiffDecode(_))));
    let big = vec![0x49u8, 0x49, 43, 0, 8, 0, 0, 0, 200, 0, 0, 0, 0, 0, 0, 0];
    assert!(check_layout(&big));
    assert!(matches!(convert_topo(&big), Err(ConvertError::TiffDecode(_))));
    assert!(matches!(convert_albedo(&big), Err(ConvertError::ImageDecode(_))));
}

#[test]
fn convert_big_tiff() {
    let mut out = Cursor::new(Vec::new());
    let mut enc = tiff::encoder::TiffEncoder::new_big(&mut out).unwrap();
    enc.write_image::<tiff::encoder::colortype::Gray32Float>(2, 1, &[193.0, 4644.0])
        .unwrap();
    let bytes = out.into_inner();
    assert!(check_layout(&bytes));
    let r = read_32f_tiff(&bytes).unwrap();
    assert_eq!((r.width, r.height), (2, 1));
    let png = convert_topo(&bytes).unwrap();
    let img = image::load_from_memory_with_format(&png, image::ImageFormat::Png).unwrap();
    assert_eq!(img.into_luma16().into_raw(), vec![0, 65535]);

    let mut out = Cursor::new(Vec::new());
    let mut enc = tiff::encoder::TiffEncoder::new_big(&mut out).unwrap();
    enc.write_image::<tiff::encoder::colortype::Gray8>(1, 1, &[7]).unwrap();
    let bytes = out.into_inner();
    assert!(matches!(convert_topo(&bytes), Err(ConvertError::DecodeMismatch)));
}

#[test]
fn convert_topo_rejects_multichannel_float() {
    let mut out = Cursor::new(Vec::new());
    let mut enc = tiff::encoder::TiffEncoder::new(&mut out).unwrap();
    enc.write_image::<tiff::encoder::colortype::RGB32Float>(1, 1, &[193.0, 194.0, 195.0])
        .unwrap();
    let bytes = out.into_inner();
    assert!(check_layout(&bytes));
    assert!(matches!(convert_topo(&bytes), Err(ConvertError::DecodeMismatch)));
    assert!(matches!(read_32f_tiff(&bytes), Err(ConvertError::DecodeMismatch)));
}

#[test]
fn empty_raster_fails_to_encode() {
    let r = topo_png(0, 0, DecodedSamples::F32Bits(vec![]));
    assert!(matches!(r, Err(ConvertError::Encode(_))));
    assert!(matches!(albedo_png(0, 3, vec![]), Err(ConvertError::Encode(_))));
}
