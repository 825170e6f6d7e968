use vstd::prelude::*;

use crate::buffer::{CanonicalBuffer, Image};
use crate::model::{ColorModel, channels_of, channel_bytes_of};
use crate::registry::{Format, encodable_models};
use crate::decode::{
    DecodeFailure, PngFrame, WebpFrame, outcome, png_outcome, webp_outcome, canonical_from_png,
    canonical_from_webp,
};

verus! {

/// The error png's decoder reports.
#[verifier::external_type_specification]
#[verifier::external_body]
pub struct ExPngDecodingError(png::DecodingError);

/// The error png's encoder reports.
#[verifier::external_type_specification]
#[verifier::external_body]
pub struct ExPngEncodingError(png::EncodingError);

/// The error image-webp's decoder reports.
#[verifier::external_type_specification]
#[verifier::external_body]
pub struct ExWebpDecodingError(image_webp::DecodingError);

/// The error image-webp's encoder reports.
#[verifier::external_type_specification]
#[verifier::external_body]
pub struct ExWebpEncodingError(image_webp::EncodingError);

// ---- file signatures ----

/// Bytes that a file of the format must at least hold before its codec is
/// asked to read it.
pub open spec fn header_len(f: Format) -> nat {
    match f {
        Format::Avif => 12,
        Format::Png => 8,
        Format::Jpeg => 3,
        Format::WebP => 12,
    }
}

/// The magic bytes each format starts with: the PNG signature, the JPEG
/// start-of-image marker, a RIFF container of type WEBP, an ISO-BMFF `ftyp`
/// box for AVIF.
pub open spec fn signature_holds(f: Format, d: Seq<u8>) -> bool {
    match f {
        Format::Avif => d[4] == 102 && d[5] == 116 && d[6] == 121 && d[7] == 112,
        Format::Png => d[0] == 137 && d[1] == 80 && d[2] == 78 && d[3] == 71 && d[4] == 13
            && d[5] == 10 && d[6] == 26 && d[7] == 10,
        Format::Jpeg => d[0] == 255 && d[1] == 216 && d[2] == 255,
        Format::WebP => d[0] == 82 && d[1] == 73 && d[2] == 70 && d[3] == 70 && d[8] == 87
            && d[9] == 69 && d[10] == 66 && d[11] == 80,
    }
}

/// The verdict on a file's header, before any codec reads it.
pub open spec fn header_verdict(f: Format, d: Seq<u8>) -> Result<(), DecodeFailure> {
    if d.len() < header_len(f) {
        Err(DecodeFailure::TruncatedHeader)
    } else if !signature_holds(f, d) {
        Err(DecodeFailure::Corrupt)
    } else {
        Ok(())
    }
}

/// Checks that the bytes are long enough for the format's header and start
/// with its signature.
pub fn check_header(f: Format, data: &[u8]) -> (r: Result<(), DecodeFailure>)
    ensures
        r == header_verdict(f, data@),
{
    let n = data.len();
    match f {
        Format::Avif => {
            if n < 12 {
                Err(DecodeFailure::TruncatedHeader)
            } else if data[4] == 102 && data[5] == 116 && data[6] == 121 && data[7] == 112 {
                Ok(())
            } else {
                Err(DecodeFailure::Corrupt)
            }
        },
        Format::Png => {
            if n < 8 {
                Err(DecodeFailure::TruncatedHeader)
            } else if data[0] == 137 && data[1] == 80 && data[2] == 78 && data[3] == 71
                && data[4] == 13 && data[5] == 10 && data[6] == 26 && data[7] == 10 {
                Ok(())
            } else {
                Err(DecodeFailure::Corrupt)
            }
        },
        Format::Jpeg => {
            if n < 3 {
                Err(DecodeFailure::TruncatedHeader)
            } else if data[0] == 255 && data[1] == 216 && data[2] == 255 {
                Ok(())
            } else {
                Err(DecodeFailure::Corrupt)
            }
        },
        Format::WebP => {
            if n < 12 {
                Err(DecodeFailure::TruncatedHeader)
            } else if data[0] == 82 && data[1] == 73 && data[2] == 70 && data[3] == 70
                && data[8] == 87 && data[9] == 69 && data[10] == 66 && data[11] == 80 {
                Ok(())
            } else {
                Err(DecodeFailure::Corrupt)
            }
        },
    }
}

// ---- PNG ----

/// What the png crate reads from a file: samples, width, height, colour
/// type, bit depth and palette; `None` where it reports an error.
pub uninterp spec fn png_frame_of(data: Seq<u8>) -> Option<(Seq<u8>, u32, u32, u8, u8, Seq<u8>)>;

/// Relies on png's `Decoder::read_info` and `Reader::next_frame` (no
/// transformations: samples as stored, 16-bit ones big-endian), which depend
/// on the bytes alone.
#[verifier::external_body]
fn read_png(data: &[u8]) -> (r: Result<PngFrame, png::DecodingError>)
    ensures
        png_frame_of(data@) is None <==> r is Err,
        r is Ok ==> png_frame_of(data@)->0 == (
            r->Ok_0.samples@,
            r->Ok_0.width,
            r->Ok_0.height,
            r->Ok_0.color_type,
            r->Ok_0.bit_depth,
            r->Ok_0.palette@,
        ),
{
    let mut reader = png::Decoder::new(data).read_info()?;
    let mut samples = vec![0u8; reader.output_buffer_size()];
    let info = reader.next_frame(&mut samples)?;
    samples.truncate(info.buffer_size());
    let palette = reader.info().palette.as_ref().map_or(Vec::new(), |p| p.to_vec());
    let (color_type, bit_depth) = (info.color_type as u8, info.bit_depth as u8);
    Ok(PngFrame { samples, width: info.width, height: info.height, color_type, bit_depth, palette })
}

/// The outcome of decoding bytes as PNG.
pub open spec fn png_decoding(data: Seq<u8>) -> Result<Image, DecodeFailure> {
    match header_verdict(Format::Png, data) {
        Err(e) => Err(e),
        Ok(_) => match png_frame_of(data) {
            None => Err(DecodeFailure::Corrupt),
            Some(t) => png_outcome(t.0, t.1, t.2, t.3, t.4, t.5),
        },
    }
}

/// Decodes a PNG file into a buffer.
pub fn decode_png(data: &[u8]) -> (r: Result<CanonicalBuffer, DecodeFailure>)
    ensures
        outcome(r) == png_decoding(data@),
        r is Ok ==> r->Ok_0.wf(),
        r is Ok ==> crate::registry::decodable_models(Format::Png).contains(r->Ok_0.model),
{
    check_header(Format::Png, data)?;
    match read_png(data) {
        Ok(frame) => canonical_from_png(frame),
        Err(_) => Err(DecodeFailure::Corrupt),
    }
}

// ---- WebP ----

/// What image-webp reads from a file: samples, width, height and whether it
/// has alpha; `None` where it reports an error.
pub uninterp spec fn webp_frame_of(data: Seq<u8>) -> Option<(Seq<u8>, u32, u32, bool)>;

/// Relies on image-webp's `WebPDecoder::new` and `read_image`, which depend
/// on the bytes alone; the buffer is sized by `output_buffer_size`.
#[verifier::external_body]
fn read_webp(data: &[u8]) -> (r: Result<WebpFrame, image_webp::DecodingError>)
    ensures
        webp_frame_of(data@) is None <==> r is Err,
        r is Ok ==> webp_frame_of(data@)->0 == (
            r->Ok_0.samples@,
            r->Ok_0.width,
            r->Ok_0.height,
            r->Ok_0.has_alpha,
        ),
{
    let mut decoder = image_webp::WebPDecoder::new(std::io::Cursor::new(data))?;
    let size = decoder.output_buffer_size().ok_or(image_webp::DecodingError::ImageTooLarge)?;
    let mut samples = vec![0u8; size];
    decoder.read_image(&mut samples)?;
    let (width, height) = decoder.dimensions();
    Ok(WebpFrame { samples, width, height, has_alpha: decoder.has_alpha() })
}

/// The outcome of decoding bytes as WebP.
pub open spec fn webp_decoding(data: Seq<u8>) -> Result<Image, DecodeFailure> {
    match header_verdict(Format::WebP, data) {
        Err(e) => Err(e),
        Ok(_) => match webp_frame_of(data) {
            None => Err(DecodeFailure::Corrupt),
            Some(t) => webp_outcome(t.0, t.1, t.2, t.3),
        },
    }
}

/// Decodes a WebP file into a buffer.
pub fn decode_webp(data: &[u8]) -> (r: Result<CanonicalBuffer, DecodeFailure>)
    ensures
        outcome(r) == webp_decoding(data@),
        r is Ok ==> r->Ok_0.wf(),
        r is Ok ==> crate::registry::decodable_models(Format::WebP).contains(r->Ok_0.model),
{
    check_header(Format::WebP, data)?;
    match read_webp(data) {
        Ok(frame) => canonical_from_webp(frame),
        Err(_) => Err(DecodeFailure::Corrupt),
    }
}

// ---- encoding ----

/// Why a buffer could not be encoded.
#[derive(Clone, Copy, Debug, PartialEq, Eq, Structural)]
pub enum EncodeFailure {
    /// The format's encoder does not take buffers of this model.
    UnsupportedColorModel,
    /// The image has no pixels.
    InvalidDimensions,
    /// The codec reported an error of its own.
    Internal,
}

/// The value an encoding outcome stands for.
pub open spec fn encoded(r: Result<Vec<u8>, EncodeFailure>) -> Result<Seq<u8>, EncodeFailure> {
    match r {
        Ok(b) => Ok(b@),
        Err(e) => Err(e),
    }
}

/// The largest width or height a format can record: 14 bits in a lossless
/// WebP header, 65500 in libjpeg, the full `u32` range elsewhere.
pub open spec fn max_side(f: Format) -> u32 {
    match f {
        Format::WebP => WEBP_MAX_SIDE,
        Format::Jpeg => JPEG_MAX_SIDE,
        _ => u32::MAX,
    }
}

/// The largest width or height of a lossless WebP image.
pub const WEBP_MAX_SIDE: u32 = 16384;

/// The largest width or height libjpeg writes.
pub const JPEG_MAX_SIDE: u32 = 65500;

fn max_side_of(f: Format) -> (r: u32)
    ensures
        r == max_side(f),
{
    match f {
        Format::WebP => WEBP_MAX_SIDE,
        Format::Jpeg => JPEG_MAX_SIDE,
        _ => u32::MAX,
    }
}

/// A big-endian 32-bit number at position `i` of `s`.
pub open spec fn be32_at(s: Seq<u8>, i: int) -> int {
    s[i] * 16777216 + s[i + 1] * 65536 + s[i + 2] * 256 + s[i + 3]
}

/// The checks every encoder makes before its codec runs.
pub open spec fn encode_precheck(f: Format, img: Image) -> Result<(), EncodeFailure> {
    if !encodable_models(f).contains(img.model) {
        Err(EncodeFailure::UnsupportedColorModel)
    } else if img.width == 0 || img.height == 0 || img.width > max_side(f) || img.height > max_side(f) {
        Err(EncodeFailure::InvalidDimensions)
    } else {
        Ok(())
    }
}

/// Checks a buffer against what the format's encoder accepts, before the
/// codec runs.
pub fn precheck(f: Format, buf: &CanonicalBuffer) -> (r: Result<(), EncodeFailure>)
    ensures
        r == encode_precheck(f, buf@),
{
    if !f.encodes(buf.model) {
        Err(EncodeFailure::UnsupportedColorModel)
    } else if buf.width == 0 || buf.height == 0 || buf.width > max_side_of(f) || buf.height > max_side_of(f) {
        Err(EncodeFailure::InvalidDimensions)
    } else {
        Ok(())
    }
}

/// The PNG file the png crate writes for these pixels; `None` where it
/// reports an error.
pub uninterp spec fn png_encoding(pixels: Seq<u8>, width: u32, height: u32, model: ColorModel) -> Option<Seq<u8>>;

/// Relies on png's `Encoder` (`set_color`, `set_depth`, `write_header`,
/// `write_image_data`, `finish`), whose output depends on its inputs alone.
/// Writing into a `Vec` cannot fail, so it fails only on a zero dimension
/// (`Writer::init`) when the pixels fill the image; the file starts with the
/// signature and the IHDR chunk, whose first two fields are the width and
/// height in big-endian order (`Info::encode`, `write_chunk`).
#[verifier::external_body]
fn write_png(pixels: &[u8], width: u32, height: u32, model: ColorModel) -> (r: Result<Vec<u8>, png::EncodingError>)
    requires
        encodable_models(Format::Png).contains(model),
        pixels@.len() == width as int * height as int * crate::model::pixel_bytes_of(model),
    ensures
        png_encoding(pixels@, width, height, model) is None <==> r is Err,
        r is Ok ==> png_encoding(pixels@, width, height, model)->0 == r->Ok_0@,
        width > 0 && height > 0 ==> r is Ok,
        r is Ok ==> r->Ok_0@.len() >= 24 && header_verdict(Format::Png, r->Ok_0@) is Ok
            && be32_at(r->Ok_0@, 16) == width && be32_at(r->Ok_0@, 20) == height,
{
    let (color, depth) = match model {
        ColorModel::Grayscale8 => (png::ColorType::Grayscale, png::BitDepth::Eight),
        ColorModel::GrayscaleAlpha8 => (png::ColorType::GrayscaleAlpha, png::BitDepth::Eight),
        ColorModel::GrayscaleAlpha16 => (png::ColorType::GrayscaleAlpha, png::BitDepth::Sixteen),
        ColorModel::Rgb8 => (png::ColorType::Rgb, png::BitDepth::Eight),
        // Rgba8, the one model left that the precondition admits
        _ => (png::ColorType::Rgba, png::BitDepth::Eight),
    };
    let mut out = Vec::new();
    let mut encoder = png::Encoder::new(&mut out, width, height);
    encoder.set_color(color);
    encoder.set_depth(depth);
    let mut writer = encoder.write_header()?;
    writer.write_image_data(pixels)?;
    writer.finish()?;
    Ok(out)
}

/// The outcome of encoding an image as PNG.
pub open spec fn png_encoded(img: Image) -> Result<Seq<u8>, EncodeFailure> {
    match encode_precheck(Format::Png, img) {
        Err(e) => Err(e),
        Ok(_) => match png_encoding(img.bytes, img.width, img.height, img.model) {
            None => Err(EncodeFailure::Internal),
            Some(b) => Ok(b),
        },
    }
}

/// Encodes a buffer as PNG.
pub fn encode_png(buf: &CanonicalBuffer) -> (r: Result<Vec<u8>, EncodeFailure>)
    requires
        buf.wf(),
    ensures
        encoded(r) == png_encoded(buf@),
        encode_precheck(Format::Png, buf@) is Ok ==> r is Ok,
        r is Ok ==> header_verdict(Format::Png, r->Ok_0@) is Ok && be32_at(r->Ok_0@, 16) == buf.width
            && be32_at(r->Ok_0@, 20) == buf.height,
{
    precheck(Format::Png, buf)?;
    proof {
        crate::model::lemma_pixel_bytes(buf.model);
        let (w, h) = (buf.width as int, buf.height as int);
        let (c, b) = (channels_of(buf.model) as int, channel_bytes_of(buf.model) as int);
        assert(w * h * c * b == w * h * (c * b)) by (nonlinear_arith);
    }
    match write_png(&buf.bytes, buf.width, buf.height, buf.model) {
        Ok(b) => Ok(b),
        Err(_) => Err(EncodeFailure::Internal),
    }
}

/// The lossless WebP file image-webp writes for these pixels; `None` where
/// it reports an error.
pub uninterp spec fn webp_encoding(pixels: Seq<u8>, width: u32, height: u32, model: ColorModel) -> Option<Seq<u8>>;

/// Relies on image-webp's `WebPEncoder::encode`, whose output depends on its
/// inputs alone; it panics unless the pixels fill the dimensions exactly.
/// Writing into a `Vec` cannot fail, so it fails only on a side of 0 or above
/// 16384 (`encode_frame`); the file starts `RIFF`, a size, `WEBP`.
#[verifier::external_body]
fn write_webp(pixels: &[u8], width: u32, height: u32, model: ColorModel) -> (r: Result<Vec<u8>, image_webp::EncodingError>)
    requires
        encodable_models(Format::WebP).contains(model),
        pixels@.len() == width as int * height as int * crate::model::pixel_bytes_of(model),
    ensures
        webp_encoding(pixels@, width, height, model) is None <==> r is Err,
        r is Ok ==> webp_encoding(pixels@, width, height, model)->0 == r->Ok_0@,
        0 < width <= 16384 && 0 < height <= 16384 ==> r is Ok,
        r is Ok ==> header_verdict(Format::WebP, r->Ok_0@) is Ok,
{
    let color = match model {
        ColorModel::Grayscale8 => image_webp::ColorType::L8,
        ColorModel::GrayscaleAlpha8 => image_webp::ColorType::La8,
        ColorModel::Rgb8 => image_webp::ColorType::Rgb8,
        // Rgba8, the one model left that the precondition admits
        _ => image_webp::ColorType::Rgba8,
    };
    let mut out = Vec::new();
    image_webp::WebPEncoder::new(&mut out).encode(pixels, width, height, color)?;
    Ok(out)
}

/// The outcome of encoding an image as WebP.
pub open spec fn webp_encoded(img: Image) -> Result<Seq<u8>, EncodeFailure> {
    match encode_precheck(Format::WebP, img) {
        Err(e) => Err(e),
        Ok(_) => match webp_encoding(img.bytes, img.width, img.height, img.model) {
            None => Err(EncodeFailure::Internal),
            Some(b) => Ok(b),
        },
    }
}

/// Encodes a buffer as lossless WebP.
pub fn encode_webp(buf: &CanonicalBuffer) -> (r: Result<Vec<u8>, EncodeFailure>)
    requires
        buf.wf(),
    ensures
        encoded(r) == webp_encoded(buf@),
        encode_precheck(Format::WebP, buf@) is Ok ==> r is Ok,
        r is Ok ==> header_verdict(Format::WebP, r->Ok_0@) is Ok,
{
    precheck(Format::WebP, buf)?;
    proof {
        crate::model::lemma_pixel_bytes(buf.model);
        let (w, h) = (buf.width as int, buf.height as int);
        let (c, b) = (channels_of(buf.model) as int, channel_bytes_of(buf.model) as int);
        assert(w * h * c * b == w * h * (c * b)) by (nonlinear_arith);
    }
    match write_webp(&buf.bytes, buf.width, buf.height, buf.model) {
        Ok(b) => Ok(b),
        Err(_) => Err(EncodeFailure::Internal),
    }
}

} // verus!
