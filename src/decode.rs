use vstd::prelude::*;
use crate::model::ColorModel;
use crate::buffer::{CanonicalBuffer, Image, image_of, fits};
use crate::registry::{Format, decodable_models};

verus! {

/// Why bytes could not be turned into a buffer.
#[derive(Clone, Copy, Debug, PartialEq, Eq, Structural)]
pub enum DecodeFailure {
    /// The bytes are not a valid image of the format, or its header and its
    /// pixel data disagree.
    Corrupt,
    /// The bytes end before the format's header does.
    TruncatedHeader,
    /// The image is held in a layout outside the closed set of models.
    UnsupportedColorModel,
}

/// The value a decoding outcome stands for.
pub open spec fn outcome(r: Result<CanonicalBuffer, DecodeFailure>) -> Result<Image, DecodeFailure> {
    match r {
        Ok(b) => Ok(b@),
        Err(e) => Err(e),
    }
}

/// A model and the parts read from a file: the buffer they make, or
/// `Corrupt` when they disagree.
pub open spec fn assembled(img: Image) -> Result<Image, DecodeFailure> {
    if fits(img) {
        Ok(img)
    } else {
        Err(DecodeFailure::Corrupt)
    }
}

/// Builds the buffer of a classified image; `Corrupt` when the parts disagree.
fn assemble(
    bytes: Vec<u8>,
    width: u32,
    height: u32,
    model: ColorModel,
    palette: Vec<u8>,
) -> (r: Result<CanonicalBuffer, DecodeFailure>)
    ensures
        outcome(r) == assembled(image_of(bytes@, width, height, model, palette@)),
        r is Ok ==> r->Ok_0.wf(),
{
    match CanonicalBuffer::from_parts(bytes, width, height, model, palette) {
        Ok(b) => Ok(b),
        Err(_) => Err(DecodeFailure::Corrupt),
    }
}

// ---- PNG ----

/// The model of a PNG colour type and bit depth as they stand in the header
/// (colour types 0 grey, 2 RGB, 3 palette, 4 grey with alpha, 6 RGBA).
pub open spec fn png_model(color_type: u8, bit_depth: u8) -> Option<ColorModel> {
    if bit_depth == 8 {
        if color_type == 0 {
            Some(ColorModel::Grayscale8)
        } else if color_type == 2 {
            Some(ColorModel::Rgb8)
        } else if color_type == 3 {
            Some(ColorModel::Indexed)
        } else if color_type == 4 {
            Some(ColorModel::GrayscaleAlpha8)
        } else if color_type == 6 {
            Some(ColorModel::Rgba8)
        } else {
            None
        }
    } else if bit_depth == 16 && color_type == 4 {
        Some(ColorModel::GrayscaleAlpha16)
    } else {
        None
    }
}

/// A PNG frame as the codec reports it: samples without any transformation,
/// header facts, and the palette if the file has one.
pub struct PngFrame {
    pub samples: Vec<u8>,
    pub width: u32,
    pub height: u32,
    pub color_type: u8,
    pub bit_depth: u8,
    pub palette: Vec<u8>,
}

/// The outcome of classifying a PNG frame given by its parts. A palette is
/// kept only for an indexed image: elsewhere it is a mere suggestion.
pub open spec fn png_outcome(
    samples: Seq<u8>,
    width: u32,
    height: u32,
    color_type: u8,
    bit_depth: u8,
    palette: Seq<u8>,
) -> Result<Image, DecodeFailure> {
    match png_model(color_type, bit_depth) {
        None => Err(DecodeFailure::UnsupportedColorModel),
        Some(m) => assembled(
            image_of(samples, width, height, m, if m == ColorModel::Indexed { palette } else { Seq::empty() }),
        ),
    }
}

fn png_color_model(color_type: u8, bit_depth: u8) -> (r: Option<ColorModel>)
    ensures
        r == png_model(color_type, bit_depth),
{
    if bit_depth == 8 {
        if color_type == 0 {
            Some(ColorModel::Grayscale8)
        } else if color_type == 2 {
            Some(ColorModel::Rgb8)
        } else if color_type == 3 {
            Some(ColorModel::Indexed)
        } else if color_type == 4 {
            Some(ColorModel::GrayscaleAlpha8)
        } else if color_type == 6 {
            Some(ColorModel::Rgba8)
        } else {
            None
        }
    } else if bit_depth == 16 && color_type == 4 {
        Some(ColorModel::GrayscaleAlpha16)
    } else {
        None
    }
}

/// Classifies a PNG frame into the closed set of models and checks its
/// samples against the header.
pub fn canonical_from_png(frame: PngFrame) -> (r: Result<CanonicalBuffer, DecodeFailure>)
    ensures
        outcome(r) == png_outcome(
            frame.samples@,
            frame.width,
            frame.height,
            frame.color_type,
            frame.bit_depth,
            frame.palette@,
        ),
        r is Ok ==> r->Ok_0.wf(),
        r is Ok ==> decodable_models(Format::Png).contains(r->Ok_0.model),
{
    match png_color_model(frame.color_type, frame.bit_depth) {
        None => Err(DecodeFailure::UnsupportedColorModel),
        Some(m) => {
            proof {
                let d = decodable_models(Format::Png);
                assert(d[0] == ColorModel::Grayscale8 && d[1] == ColorModel::GrayscaleAlpha8);
                assert(d[2] == ColorModel::GrayscaleAlpha16 && d[3] == ColorModel::Rgb8);
                assert(d[4] == ColorModel::Rgba8 && d[5] == ColorModel::Indexed);
            }
            let palette = match m {
                ColorModel::Indexed => frame.palette,
                _ => Vec::new(),
            };
            assemble(frame.samples, frame.width, frame.height, m, palette)
        },
    }
}

// ---- JPEG ----

/// The colour spaces a JPEG decoder reports, as libjpeg numbers them.
#[derive(Clone, Copy, Debug, PartialEq, Eq, Structural)]
pub enum JpegColorSpace {
    Unknown,
    Grayscale,
    Rgb,
    YCbCr,
    Cmyk,
    Ycck,
    /// Any of the extended RGB orders and the other rarer spaces.
    Other,
}

pub open spec fn jpeg_model(cs: JpegColorSpace) -> Option<ColorModel> {
    match cs {
        JpegColorSpace::Grayscale => Some(ColorModel::Grayscale8),
        JpegColorSpace::Rgb => Some(ColorModel::Rgb8),
        JpegColorSpace::YCbCr => Some(ColorModel::YCbCr8),
        JpegColorSpace::Cmyk => Some(ColorModel::Cmyk8),
        _ => None,
    }
}

/// A JPEG image decompressed in its own colour space.
pub struct JpegFrame {
    pub samples: Vec<u8>,
    pub width: u32,
    pub height: u32,
    pub color_space: JpegColorSpace,
}

pub open spec fn jpeg_outcome(samples: Seq<u8>, width: u32, height: u32, cs: JpegColorSpace) -> Result<Image, DecodeFailure> {
    match jpeg_model(cs) {
        None => Err(DecodeFailure::UnsupportedColorModel),
        Some(m) => assembled(image_of(samples, width, height, m, Seq::empty())),
    }
}

/// Classifies a decompressed JPEG image and checks its samples against its
/// dimensions.
pub fn canonical_from_jpeg(frame: JpegFrame) -> (r: Result<CanonicalBuffer, DecodeFailure>)
    ensures
        outcome(r) == jpeg_outcome(frame.samples@, frame.width, frame.height, frame.color_space),
        r is Ok ==> r->Ok_0.wf(),
        r is Ok ==> decodable_models(Format::Jpeg).contains(r->Ok_0.model),
{
    proof {
        let d = decodable_models(Format::Jpeg);
        assert(d[0] == ColorModel::Grayscale8 && d[1] == ColorModel::Rgb8);
        assert(d[2] == ColorModel::YCbCr8 && d[3] == ColorModel::Cmyk8);
    }
    let m = match frame.color_space {
        JpegColorSpace::Grayscale => ColorModel::Grayscale8,
        JpegColorSpace::Rgb => ColorModel::Rgb8,
        JpegColorSpace::YCbCr => ColorModel::YCbCr8,
        JpegColorSpace::Cmyk => ColorModel::Cmyk8,
        _ => {
            return Err(DecodeFailure::UnsupportedColorModel);
        },
    };
    assemble(frame.samples, frame.width, frame.height, m, Vec::new())
}

// ---- WebP ----

/// A WebP image as its decoder hands it out: RGB, or RGBA when the file has
/// alpha.
pub struct WebpFrame {
    pub samples: Vec<u8>,
    pub width: u32,
    pub height: u32,
    pub has_alpha: bool,
}

pub open spec fn webp_outcome(samples: Seq<u8>, width: u32, height: u32, has_alpha: bool) -> Result<Image, DecodeFailure> {
    let m = if has_alpha { ColorModel::Rgba8 } else { ColorModel::Rgb8 };
    assembled(image_of(samples, width, height, m, Seq::empty()))
}

/// Tags a decoded WebP image and checks its samples against its dimensions.
pub fn canonical_from_webp(frame: WebpFrame) -> (r: Result<CanonicalBuffer, DecodeFailure>)
    ensures
        outcome(r) == webp_outcome(frame.samples@, frame.width, frame.height, frame.has_alpha),
        r is Ok ==> r->Ok_0.wf(),
        r is Ok ==> decodable_models(Format::WebP).contains(r->Ok_0.model),
{
    proof {
        let d = decodable_models(Format::WebP);
        assert(d[0] == ColorModel::Rgb8 && d[1] == ColorModel::Rgba8);
    }
    let m = if frame.has_alpha { ColorModel::Rgba8 } else { ColorModel::Rgb8 };
    assemble(frame.samples, frame.width, frame.height, m, Vec::new())
}

// ---- AVIF ----

/// The model of an AVIF image with this many channels per pixel.
pub open spec fn avif_model(channels: u8) -> Option<ColorModel> {
    if channels == 1 {
        Some(ColorModel::Grayscale8)
    } else if channels == 3 {
        Some(ColorModel::Rgb8)
    } else if channels == 4 {
        Some(ColorModel::Rgba8)
    } else {
        None
    }
}

/// An AVIF image converted to RGB or grey, with samples of 8 or 16 bits.
pub struct AvifFrame {
    /// Samples of an 8-bit image; empty for a 16-bit one.
    pub narrow: Vec<u8>,
    /// Samples of a 16-bit image; empty for an 8-bit one.
    pub wide: Vec<u16>,
    /// Whether the samples are in `wide`.
    pub is_wide: bool,
    pub channels: u8,
    pub width: u32,
    pub height: u32,
}

/// 16-bit samples reduced to their high byte.
pub open spec fn high_bytes(s: Seq<u16>) -> Seq<u8> {
    Seq::new(s.len(), |i: int| (s[i] / 256) as u8)
}

pub open spec fn avif_outcome(
    narrow: Seq<u8>,
    wide: Seq<u16>,
    is_wide: bool,
    channels: u8,
    width: u32,
    height: u32,
) -> Result<Image, DecodeFailure> {
    match avif_model(channels) {
        None => Err(DecodeFailure::UnsupportedColorModel),
        Some(m) => assembled(
            image_of(if is_wide { high_bytes(wide) } else { narrow }, width, height, m, Seq::empty()),
        ),
    }
}

fn narrow_samples(wide: &Vec<u16>) -> (r: Vec<u8>)
    ensures
        r@ == high_bytes(wide@),
{
    let mut r: Vec<u8> = Vec::new();
    let mut i: usize = 0;
    while i < wide.len()
        invariant
            i <= wide@.len(),
            r@ =~= high_bytes(wide@).subrange(0, i as int),
        decreases wide@.len() - i,
    {
        let high = wide[i] / 256;
        assert(high < 256);
        r.push(high as u8);
        i = i + 1;
    }
    assert(r@ =~= high_bytes(wide@));
    r
}

/// Classifies a converted AVIF image and checks its samples against its
/// dimensions; 16-bit samples keep their high byte.
pub fn canonical_from_avif(frame: AvifFrame) -> (r: Result<CanonicalBuffer, DecodeFailure>)
    ensures
        outcome(r) == avif_outcome(
            frame.narrow@,
            frame.wide@,
            frame.is_wide,
            frame.channels,
            frame.width,
            frame.height,
        ),
        r is Ok ==> r->Ok_0.wf(),
        r is Ok ==> decodable_models(Format::Avif).contains(r->Ok_0.model),
{
    proof {
        let d = decodable_models(Format::Avif);
        assert(d[0] == ColorModel::Rgb8 && d[1] == ColorModel::Rgba8 && d[2] == ColorModel::Grayscale8);
    }
    let m = if frame.channels == 1 {
        ColorModel::Grayscale8
    } else if frame.channels == 3 {
        ColorModel::Rgb8
    } else if frame.channels == 4 {
        ColorModel::Rgba8
    } else {
        return Err(DecodeFailure::UnsupportedColorModel);
    };
    let samples = if frame.is_wide { narrow_samples(&frame.wide) } else { frame.narrow };
    assemble(samples, frame.width, frame.height, m, Vec::new())
}

} // verus!
