use vstd::prelude::*;

verus! {

/// Which kind of raster a conversion reads.
#[derive(Clone, Copy, Debug, PartialEq, Eq, Structural)]
pub enum TiffKind {
    /// A single-channel 32-bit float elevation grid, written as 16-bit grayscale.
    Topo,
    /// Color imagery, written as 8-bit RGB.
    Albedo,
}

/// A rectangular grid of samples in row-major order, `channels` samples per pixel.
pub struct Raster<T> {
    pub width: u32,
    pub height: u32,
    pub samples: Vec<T>,
}

impl<T> Raster<T> {
    /// The raster holds exactly `width * height` pixels of `channels` samples.
    pub open spec fn holds_pixels(&self, channels: nat) -> bool {
        self.samples@.len() == self.width * self.height * channels
    }
}

/// The samples a TIFF decoder produced: float samples by their bit patterns,
/// or any other sample type.
pub enum DecodedSamples {
    F32Bits(Vec<u32>),
    Other,
}

impl DecodedSamples {
    /// The float samples' bit patterns, or `None` for another sample type.
    pub open spec fn float_bits(&self) -> Option<Seq<u32>> {
        match self {
            DecodedSamples::F32Bits(v) => Some(v@),
            DecodedSamples::Other => None,
        }
    }
}

/// Why a conversion failed.
#[derive(Debug)]
pub enum ConvertError {
    /// The decoded sample type is not the one the conversion needs.
    DecodeMismatch,
    /// The number of samples does not match the raster's dimensions.
    DimensionMismatch,
    /// The file stores its samples in planes rather than interleaved.
    UnsupportedLayout,
    /// The TIFF decoder refused the input.
    TiffDecode(tiff::TiffError),
    /// The image decoder refused the input.
    ImageDecode(image::ImageError),
    /// The PNG encoder failed.
    Encode(image::ImageError),
}

} // verus!
