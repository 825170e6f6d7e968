use vstd::prelude::*;

verus! {

/// The closed set of pixel layouts a decoded image can be held in.
#[derive(Clone, Copy, Debug, PartialEq, Eq, Structural)]
pub enum ColorModel {
    Grayscale8,
    GrayscaleAlpha8,
    GrayscaleAlpha16,
    Rgb8,
    Rgba8,
    Indexed,
    Cmyk8,
    YCbCr8,
}

pub open spec fn channels_of(m: ColorModel) -> nat {
    match m {
        ColorModel::Grayscale8 => 1,
        ColorModel::GrayscaleAlpha8 => 2,
        ColorModel::GrayscaleAlpha16 => 2,
        ColorModel::Rgb8 => 3,
        ColorModel::Rgba8 => 4,
        ColorModel::Indexed => 1,
        ColorModel::Cmyk8 => 4,
        ColorModel::YCbCr8 => 3,
    }
}

pub open spec fn channel_bytes_of(m: ColorModel) -> nat {
    match m {
        ColorModel::GrayscaleAlpha16 => 2,
        _ => 1,
    }
}

/// Bytes taken by one pixel of the model.
pub open spec fn pixel_bytes_of(m: ColorModel) -> nat {
    match m {
        ColorModel::Grayscale8 => 1,
        ColorModel::GrayscaleAlpha8 => 2,
        ColorModel::GrayscaleAlpha16 => 4,
        ColorModel::Rgb8 => 3,
        ColorModel::Rgba8 => 4,
        ColorModel::Indexed => 1,
        ColorModel::Cmyk8 => 4,
        ColorModel::YCbCr8 => 3,
    }
}

/// A pixel is its channels times the width of one channel.
pub proof fn lemma_pixel_bytes(m: ColorModel)
    ensures
        pixel_bytes_of(m) == channels_of(m) * channel_bytes_of(m),
        1 <= pixel_bytes_of(m) <= 4,
{
}

impl ColorModel {
    /// Number of channels of one pixel.
    pub fn channel_count(&self) -> (r: u8)
        ensures
            r == channels_of(*self),
    {
        match self {
            ColorModel::Grayscale8 => 1,
            ColorModel::GrayscaleAlpha8 => 2,
            ColorModel::GrayscaleAlpha16 => 2,
            ColorModel::Rgb8 => 3,
            ColorModel::Rgba8 => 4,
            ColorModel::Indexed => 1,
            ColorModel::Cmyk8 => 4,
            ColorModel::YCbCr8 => 3,
        }
    }

    /// Number of bytes of one channel.
    pub fn bytes_per_channel(&self) -> (r: u8)
        ensures
            r == channel_bytes_of(*self),
    {
        match self {
            ColorModel::GrayscaleAlpha16 => 2,
            _ => 1,
        }
    }
}

} // verus!
