use imgconv::buffer::CanonicalBuffer;
use imgconv::codec::{check_header, decode_png, decode_webp, encode_png, encode_webp, precheck, EncodeFailure};
use imgconv::decode::{
    canonical_from_avif, canonical_from_jpeg, canonical_from_png, AvifFrame, DecodeFailure, JpegColorSpace,
    JpegFrame, PngFrame,
};
use imgconv::model::ColorModel;
use imgconv::pipeline::{advance, deliver, identify, normalize, start, Event, Route, Stage, TranscodeError, MAX_UPLOAD_BYTES};
use imgconv::registry::Format;

fn buffer(bytes: Vec<u8>, width: u32, height: u32, model: ColorModel) -> CanonicalBuffer {
    CanonicalBuffer::from_parts(bytes, width, height, model, Vec::new()).unwrap()
}

fn jpeg_bytes(b: &CanonicalBuffer) -> Vec<u8> {
    let mut c = mozjpeg::Compress::new(mozjpeg::ColorSpace::JCS_RGB);
    c.set_color_space(mozjpeg::ColorSpace::JCS_RGB);
    c.set_size(b.width as usize, b.height as usize);
    c.set_quality(95.0);
    let mut started = c.start_compress(Vec::new()).unwrap();
    started.write_scanlines(&b.bytes).unwrap();
    started.finish().unwrap()
}

fn jpeg_frame(data: &[u8]) -> JpegFrame {
    let d = mozjpeg::Decompress::new_mem(data).unwrap();
    let (width, height) = (d.width() as u32, d.height() as u32);
    let cs = d.color_space();
    let color_space = match cs {
        mozjpeg::ColorSpace::JCS_GRAYSCALE => JpegColorSpace::Grayscale,
        mozjpeg::ColorSpace::JCS_RGB => JpegColorSpace::Rgb,
        mozjpeg::ColorSpace::JCS_YCbCr => JpegColorSpace::YCbCr,
        mozjpeg::ColorSpace::JCS_CMYK => JpegColorSpace::Cmyk,
        _ => JpegColorSpace::Other,
    };
    let mut started = d.to_colorspace(cs).unwrap();
    let samples: Vec<u8> = started.read_scanlines().unwrap();
    started.finish().unwrap();
    JpegFrame { samples, width, height, color_space }
}

#[test]
fn oversized_upload_is_rejected_first() {
    assert_eq!(identify(MAX_UPLOAD_BYTES + 1, "png", "jpeg"), Err(TranscodeError::PayloadTooLarge));
    assert_eq!(identify(MAX_UPLOAD_BYTES + 1, "gif", "bmp"), Err(TranscodeError::PayloadTooLarge));
    assert_eq!(MAX_UPLOAD_BYTES, 25 * 1024 * 1024);
    assert_eq!(
        identify(MAX_UPLOAD_BYTES, "png", "JPEG"),
        Ok(Route { input: Format::Png, output: Format::Jpeg })
    );
}

#[test]
fn unknown_identifiers_are_rejected() {
    assert_eq!(identify(10, "gif", "png"), Err(TranscodeError::UnsupportedFormat));
    assert_eq!(identify(10, "png", "tiff"), Err(TranscodeError::UnsupportedFormat));
    assert_eq!(identify(10, "webp", "avif"), Ok(Route { input: Format::WebP, output: Format::Avif }));
}

#[test]
fn headers_are_checked_before_decoding() {
    assert_eq!(decode_png(&[]).err(), Some(DecodeFailure::TruncatedHeader));
    assert_eq!(decode_png(&[137, 80, 78]).err(), Some(DecodeFailure::TruncatedHeader));
    assert_eq!(decode_png(b"GIF89a-not-png").err(), Some(DecodeFailure::Corrupt));
    assert_eq!(decode_webp(b"RIFF").err(), Some(DecodeFailure::TruncatedHeader));
    assert_eq!(decode_webp(b"RIFF\0\0\0\0WEBX").err(), Some(DecodeFailure::Corrupt));
    assert_eq!(check_header(Format::Jpeg, &[255, 216, 255, 224]), Ok(()));
    assert_eq!(check_header(Format::Jpeg, &[255, 216]), Err(DecodeFailure::TruncatedHeader));
    assert_eq!(check_header(Format::Avif, b"\0\0\0\x1cftypavif"), Ok(()));
    assert_eq!(check_header(Format::Avif, b"\0\0\0\x1cmoovavif"), Err(DecodeFailure::Corrupt));
}

#[test]
fn corrupt_body_after_a_valid_signature() {
    let mut data = vec![137, 80, 78, 71, 13, 10, 26, 10];
    data.extend_from_slice(&[0, 0, 0, 13, 1, 2, 3]);
    assert_eq!(decode_png(&data).err(), Some(DecodeFailure::Corrupt));
    assert_eq!(decode_webp(b"RIFF\x04\0\0\0WEBPVP8L").err(), Some(DecodeFailure::Corrupt));
}

#[test]
fn png_round_trip_is_byte_identical() {
    let pixels: Vec<u8> = (0..18).map(|i| (i * 13) as u8).collect();
    let b = buffer(pixels.clone(), 3, 2, ColorModel::Rgb8);
    let file = encode_png(&b).unwrap();
    assert_ne!(file, pixels);
    let back = decode_png(&file).unwrap();
    assert_eq!((back.width, back.height, back.model), (3, 2, ColorModel::Rgb8));
    assert_eq!(back.bytes, pixels);
    let again = decode_png(&encode_png(&back).unwrap()).unwrap();
    assert_eq!(again.bytes, pixels);
}

#[test]
fn png_keeps_wide_gray_alpha() {
    let pixels = vec![1, 2, 3, 4, 250, 251, 252, 253];
    let b = buffer(pixels.clone(), 2, 1, ColorModel::GrayscaleAlpha16);
    let back = decode_png(&encode_png(&b).unwrap()).unwrap();
    assert_eq!(back.model, ColorModel::GrayscaleAlpha16);
    assert_eq!(back.bytes, pixels);
}

#[test]
fn webp_round_trip_is_lossless() {
    let pixels: Vec<u8> = (0..32).map(|i| (i * 7) as u8).collect();
    let b = buffer(pixels.clone(), 4, 2, ColorModel::Rgba8);
    let file = encode_webp(&b).unwrap();
    let back = decode_webp(&file).unwrap();
    assert_eq!((back.width, back.height, back.model), (4, 2, ColorModel::Rgba8));
    assert_eq!(back.bytes, pixels);
}

#[test]
fn encoders_refuse_what_they_cannot_take() {
    let cmyk = buffer(vec![0; 4], 1, 1, ColorModel::Cmyk8);
    assert_eq!(encode_png(&cmyk), Err(EncodeFailure::UnsupportedColorModel));
    assert_eq!(encode_webp(&cmyk), Err(EncodeFailure::UnsupportedColorModel));
    let empty = buffer(vec![], 0, 3, ColorModel::Rgb8);
    assert_eq!(encode_png(&empty), Err(EncodeFailure::InvalidDimensions));
    assert_eq!(precheck(Format::Jpeg, &buffer(vec![0; 4], 1, 1, ColorModel::Rgba8)), Err(EncodeFailure::UnsupportedColorModel));
    assert_eq!(precheck(Format::Avif, &buffer(vec![0; 4], 1, 1, ColorModel::Rgba8)), Ok(()));
}

#[test]
fn rgba_png_to_jpeg_goes_through_rgb() {
    let rgba = buffer(vec![10, 20, 30, 255, 40, 50, 60, 255, 70, 80, 90, 255, 100, 110, 120, 255], 2, 2, ColorModel::Rgba8);
    let png_file = encode_png(&rgba).unwrap();
    let decoded = decode_png(&png_file).unwrap();
    assert_eq!(decoded.model, ColorModel::Rgba8);
    let ready = normalize(decoded, Format::Jpeg).unwrap();
    assert_eq!((ready.model, ready.width, ready.height), (ColorModel::Rgb8, 2, 2));
    assert_eq!(ready.bytes, vec![10, 20, 30, 40, 50, 60, 70, 80, 90, 100, 110, 120]);
    let jpeg = jpeg_bytes(&ready);
    assert_eq!(check_header(Format::Jpeg, &jpeg), Ok(()));
    let back = canonical_from_jpeg(jpeg_frame(&jpeg)).unwrap();
    assert_eq!((back.model, back.width, back.height), (ColorModel::Rgb8, 2, 2));
}

#[test]
fn gray_png_to_webp_needs_no_conversion() {
    let gray = buffer(vec![0, 64, 128, 255], 2, 2, ColorModel::Grayscale8);
    let decoded = decode_png(&encode_png(&gray).unwrap()).unwrap();
    assert_eq!(decoded.model, ColorModel::Grayscale8);
    let ready = normalize(decoded, Format::WebP).unwrap();
    assert_eq!(ready.model, ColorModel::Grayscale8);
    assert_eq!(ready.bytes, vec![0, 64, 128, 255]);
    let file = encode_webp(&ready).unwrap();
    let back = decode_webp(&file).unwrap();
    assert_eq!((back.width, back.height), (2, 2));
    assert_eq!(back.bytes, vec![0, 0, 0, 64, 64, 64, 128, 128, 128, 255, 255, 255]);
}

#[test]
fn normalization_picks_the_first_reachable_model() {
    let cmyk = buffer(vec![0, 0, 0, 0], 1, 1, ColorModel::Cmyk8);
    let for_avif = normalize(cmyk, Format::Avif).unwrap();
    assert_eq!((for_avif.model, for_avif.bytes.clone()), (ColorModel::Rgb8, vec![255, 255, 255]));
    let ga = buffer(vec![5, 6], 1, 1, ColorModel::GrayscaleAlpha8);
    let for_jpeg = normalize(ga, Format::Jpeg);
    assert_eq!(for_jpeg.err(), Some(TranscodeError::UnsupportedConversion));
    let ga = buffer(vec![5, 6], 1, 1, ColorModel::GrayscaleAlpha8);
    assert_eq!(normalize(ga, Format::Avif).unwrap().bytes, vec![5, 5, 5, 6]);
    let wide = buffer(vec![1, 2, 3, 4], 1, 1, ColorModel::GrayscaleAlpha16);
    assert_eq!(normalize(wide, Format::Jpeg).err(), Some(TranscodeError::UnsupportedConversion));
    let ycc = buffer(vec![128, 128, 128], 1, 1, ColorModel::YCbCr8);
    assert_eq!(normalize(ycc, Format::Png).unwrap().bytes, vec![128, 128, 128]);
}

#[test]
fn classifiers_map_layouts() {
    let f = PngFrame { samples: vec![0; 4], width: 2, height: 2, color_type: 0, bit_depth: 16, palette: vec![] };
    assert_eq!(canonical_from_png(f).err(), Some(DecodeFailure::UnsupportedColorModel));
    let f = PngFrame { samples: vec![0; 3], width: 2, height: 2, color_type: 0, bit_depth: 8, palette: vec![] };
    assert_eq!(canonical_from_png(f).err(), Some(DecodeFailure::Corrupt));
    let f = PngFrame { samples: vec![0; 6], width: 2, height: 1, color_type: 2, bit_depth: 8, palette: vec![1, 2, 3] };
    let b = canonical_from_png(f).unwrap();
    assert_eq!((b.model, b.palette.len()), (ColorModel::Rgb8, 0));
    let f = PngFrame { samples: vec![0, 1], width: 2, height: 1, color_type: 3, bit_depth: 8, palette: vec![1, 2, 3, 4, 5, 6] };
    assert_eq!(canonical_from_png(f).unwrap().model, ColorModel::Indexed);
    let j = JpegFrame { samples: vec![0; 4], width: 1, height: 1, color_space: JpegColorSpace::Ycck };
    assert_eq!(canonical_from_jpeg(j).err(), Some(DecodeFailure::UnsupportedColorModel));
    let j = JpegFrame { samples: vec![0; 4], width: 1, height: 1, color_space: JpegColorSpace::Cmyk };
    assert_eq!(canonical_from_jpeg(j).unwrap().model, ColorModel::Cmyk8);
    let a = AvifFrame { narrow: vec![], wide: vec![0x1234, 0xff00, 0x00ff], is_wide: true, channels: 3, width: 1, height: 1 };
    let b = canonical_from_avif(a).unwrap();
    assert_eq!((b.model, b.bytes.clone()), (ColorModel::Rgb8, vec![0x12, 0xff, 0x00]));
    let a = AvifFrame { narrow: vec![1, 2], wide: vec![], is_wide: false, channels: 2, width: 1, height: 1 };
    assert_eq!(canonical_from_avif(a).err(), Some(DecodeFailure::UnsupportedColorModel));
}

#[test]
fn delivery_carries_the_mime_type() {
    let d = deliver(Format::WebP, Ok(vec![1, 2, 3])).unwrap();
    assert_eq!((d.bytes, d.mime_type), (vec![1, 2, 3], "image/webp"));
    assert_eq!(deliver(Format::Png, Err(EncodeFailure::Internal)).err(), Some(TranscodeError::Encode(EncodeFailure::Internal)));
}

#[test]
fn stages_follow_the_pipeline() {
    let Stage::FormatIdentified(route) = start(100, "PNG", "jpeg") else { panic!("not identified") };
    assert_eq!(route, Route { input: Format::Png, output: Format::Jpeg });
    assert!(matches!(start(MAX_UPLOAD_BYTES + 1, "png", "jpeg"), Stage::Rejected(TranscodeError::PayloadTooLarge)));
    assert!(matches!(start(1, "png", "gif"), Stage::Rejected(TranscodeError::UnsupportedFormat)));

    let rgba = buffer(vec![1, 2, 3, 255], 1, 1, ColorModel::Rgba8);
    let next = advance(Stage::FormatIdentified(route), Event::Decoded(Ok(rgba)));
    let Stage::ColorNormalized(f, b) = next else { panic!("not normalized") };
    assert_eq!((f, b.model, b.bytes.clone()), (Format::Jpeg, ColorModel::Rgb8, vec![1, 2, 3]));
    let done = advance(Stage::ColorNormalized(f, b), Event::Encoded(Ok(vec![9, 9])));
    let Stage::Delivered(d) = done else { panic!("not delivered") };
    assert_eq!((d.bytes, d.mime_type), (vec![9, 9], "image/jpeg"));

    let failed = advance(Stage::FormatIdentified(route), Event::Decoded(Err(DecodeFailure::Corrupt)));
    assert!(matches!(failed, Stage::Rejected(TranscodeError::Decode(DecodeFailure::Corrupt))));
    let wide = buffer(vec![1, 2, 3, 4], 1, 1, ColorModel::GrayscaleAlpha16);
    let stuck = advance(Stage::FormatIdentified(route), Event::Decoded(Ok(wide)));
    assert!(matches!(stuck, Stage::Rejected(TranscodeError::UnsupportedConversion)));
    let b = buffer(vec![0; 3], 1, 1, ColorModel::Rgb8);
    let refused = advance(Stage::ColorNormalized(Format::Png, b), Event::Encoded(Err(EncodeFailure::Internal)));
    assert!(matches!(refused, Stage::Rejected(TranscodeError::Encode(EncodeFailure::Internal))));
    let unchanged = advance(Stage::FormatIdentified(route), Event::Encoded(Ok(vec![])));
    assert!(matches!(unchanged, Stage::FormatIdentified(r) if r == route));
}

#[test]
fn png_header_records_the_dimensions() {
    let b = buffer(vec![7; 5 * 3 * 4], 5, 3, ColorModel::Rgba8);
    let file = encode_png(&b).unwrap();
    assert_eq!(check_header(Format::Png, &file), Ok(()));
    assert_eq!(&file[16..20], &5u32.to_be_bytes());
    assert_eq!(&file[20..24], &3u32.to_be_bytes());
}

#[test]
fn webp_output_has_a_webp_header() {
    let b = buffer(vec![9; 6], 2, 1, ColorModel::Rgb8);
    let file = encode_webp(&b).unwrap();
    assert_eq!(check_header(Format::WebP, &file), Ok(()));
    assert_eq!(&file[0..4], b"RIFF");
}

#[test]
fn oversized_sides_are_invalid_dimensions() {
    let wide = buffer(vec![0; 16385 * 3], 16385, 1, ColorModel::Rgb8);
    assert_eq!(encode_webp(&wide), Err(EncodeFailure::InvalidDimensions));
    assert!(encode_png(&wide).is_ok());
    let edge = buffer(vec![0; 16384], 16384, 1, ColorModel::Grayscale8);
    assert!(encode_webp(&edge).is_ok());
    let tall = buffer(vec![0; 65501], 1, 65501, ColorModel::Grayscale8);
    assert_eq!(precheck(Format::Jpeg, &tall), Err(EncodeFailure::InvalidDimensions));
    assert_eq!(precheck(Format::Avif, &buffer(vec![0; 65501 * 3], 1, 65501, ColorModel::Rgb8)), Ok(()));
}
