use vstd::prelude::*;
use crate::model::{ColorModel, pixel_bytes_of, channels_of, channel_bytes_of};
use crate::buffer::{CanonicalBuffer, indices_in_palette, layout_len};

verus! {

/// The conversion table: the pairs of models with a defined rule.
pub open spec fn has_rule(from: ColorModel, to: ColorModel) -> bool {
    match (from, to) {
        (ColorModel::Grayscale8, ColorModel::Rgb8) => true,
        (ColorModel::Grayscale8, ColorModel::Rgba8) => true,
        (ColorModel::GrayscaleAlpha8, ColorModel::Rgba8) => true,
        (ColorModel::GrayscaleAlpha16, ColorModel::Rgba8) => true,
        (ColorModel::Rgba8, ColorModel::Rgb8) => true,
        (ColorModel::Cmyk8, ColorModel::Rgb8) => true,
        (ColorModel::Indexed, ColorModel::Rgb8) => true,
        (ColorModel::Indexed, ColorModel::Rgba8) => true,
        (ColorModel::YCbCr8, ColorModel::Rgb8) => true,
        _ => false,
    }
}

/// Saturates an integer into a byte.
pub open spec fn clamp_u8(v: int) -> u8 {
    if v < 0 {
        0
    } else if v > 255 {
        255
    } else {
        v as u8
    }
}

/// One of R, G, B from its CMY counterpart `x` and the key `k`, rounded:
/// 255 · (1 − x/255) · (1 − k/255).
pub open spec fn cmyk_channel(x: u8, k: u8) -> u8 {
    (((255 - x) * (255 - k) + 127) / 255) as u8
}

/// BT.601 full-range YCbCr to RGB, with coefficients in 16-bit fixed point
/// (1.402, 0.344136, 0.714136, 1.772) and rounding.
pub open spec fn ycc_red(y: u8, cb: u8, cr: u8) -> u8 {
    clamp_u8((65536 * y + 91881 * (cr - 128) + 32768) / 65536)
}

pub open spec fn ycc_green(y: u8, cb: u8, cr: u8) -> u8 {
    clamp_u8((65536 * y - 22554 * (cb - 128) - 46802 * (cr - 128) + 32768) / 65536)
}

pub open spec fn ycc_blue(y: u8, cb: u8, cr: u8) -> u8 {
    clamp_u8((65536 * y + 116130 * (cb - 128) + 32768) / 65536)
}

/// Byte `c` of output pixel `p` when `src` (with palette `pal`) is converted
/// from `from` to `to`.
pub open spec fn converted_byte(
    from: ColorModel,
    to: ColorModel,
    src: Seq<u8>,
    pal: Seq<u8>,
    p: int,
    c: int,
) -> u8 {
    match (from, to) {
        (ColorModel::Grayscale8, ColorModel::Rgb8) => src[p],
        (ColorModel::Grayscale8, ColorModel::Rgba8) => if c < 3 { src[p] } else { 255 },
        (ColorModel::GrayscaleAlpha8, ColorModel::Rgba8) => if c < 3 {
            src[2 * p]
        } else {
            src[2 * p + 1]
        },
        // 16-bit samples are big-endian: keep the high byte of each.
        (ColorModel::GrayscaleAlpha16, ColorModel::Rgba8) => if c < 3 {
            src[4 * p]
        } else {
            src[4 * p + 2]
        },
        (ColorModel::Rgba8, ColorModel::Rgb8) => src[4 * p + c],
        (ColorModel::Cmyk8, ColorModel::Rgb8) => cmyk_channel(src[4 * p + c], src[4 * p + 3]),
        (ColorModel::Indexed, ColorModel::Rgb8) => pal[3 * src[p] + c],
        (ColorModel::Indexed, ColorModel::Rgba8) => if c < 3 {
            pal[3 * src[p] + c]
        } else {
            255
        },
        (ColorModel::YCbCr8, ColorModel::Rgb8) => if c == 0 {
            ycc_red(src[3 * p], src[3 * p + 1], src[3 * p + 2])
        } else if c == 1 {
            ycc_green(src[3 * p], src[3 * p + 1], src[3 * p + 2])
        } else {
            ycc_blue(src[3 * p], src[3 * p + 1], src[3 * p + 2])
        },
        _ => 0,
    }
}

/// `out` is `src` converted pixel by pixel from `from` to `to`.
pub open spec fn is_conversion(
    from: ColorModel,
    to: ColorModel,
    src: Seq<u8>,
    pal: Seq<u8>,
    out: Seq<u8>,
) -> bool {
    let n = src.len() / pixel_bytes_of(from);
    &&& out.len() == n * pixel_bytes_of(to)
    &&& forall|p: int, c: int|
        0 <= p < n && 0 <= c < pixel_bytes_of(to) ==> out[pixel_bytes_of(to) * p + c]
            == #[trigger] converted_byte(from, to, src, pal, p, c)
}

/// No conversion rule leads from the buffer's model to the requested one.
#[derive(Clone, Copy, Debug, PartialEq, Eq, Structural)]
pub struct UnsupportedConversion;

/// Whether the table has a rule from one model to another.
pub fn rule_exists(from: ColorModel, to: ColorModel) -> (r: bool)
    ensures
        r == has_rule(from, to),
{
    match (from, to) {
        (ColorModel::Grayscale8, ColorModel::Rgb8) => true,
        (ColorModel::Grayscale8, ColorModel::Rgba8) => true,
        (ColorModel::GrayscaleAlpha8, ColorModel::Rgba8) => true,
        (ColorModel::GrayscaleAlpha16, ColorModel::Rgba8) => true,
        (ColorModel::Rgba8, ColorModel::Rgb8) => true,
        (ColorModel::Cmyk8, ColorModel::Rgb8) => true,
        (ColorModel::Indexed, ColorModel::Rgb8) => true,
        (ColorModel::Indexed, ColorModel::Rgba8) => true,
        (ColorModel::YCbCr8, ColorModel::Rgb8) => true,
        _ => false,
    }
}

fn clamp_to_byte(v: i64) -> (r: u8)
    requires
        -0x1_0000_0000 <= v <= 0x1_0000_0000,
    ensures
        r == clamp_u8(v as int / 65536),
{
    if v < 0 {
        assert(v as int / 65536 < 0);
        0
    } else {
        let q = (v as u64) / 65536;
        if q > 255 {
            255
        } else {
            q as u8
        }
    }
}

fn cmyk_byte(x: u8, k: u8) -> (r: u8)
    ensures
        r == cmyk_channel(x, k),
{
    let a = 255 - x as u32;
    let b = 255 - k as u32;
    assert(a * b <= 255 * 255) by (nonlinear_arith)
        requires a <= 255, b <= 255;
    let v = (a * b + 127) / 255;
    assert(v <= 255);
    v as u8
}

/// Computes `converted_byte` for one position.
fn byte_at(
    from: ColorModel,
    to: ColorModel,
    src: &Vec<u8>,
    pal: &Vec<u8>,
    n: usize,
    p: usize,
    c: usize,
) -> (r: u8)
    requires
        has_rule(from, to),
        src@.len() == pixel_bytes_of(from) * n,
        p < n,
        c < pixel_bytes_of(to),
        from == ColorModel::Indexed ==> indices_in_palette(src@, pal@),
    ensures
        r == converted_byte(from, to, src@, pal@, p as int, c as int),
{
    let len = src.len();
    match (from, to) {
        (ColorModel::Grayscale8, ColorModel::Rgb8) => src[p],
        (ColorModel::Grayscale8, ColorModel::Rgba8) => if c < 3 { src[p] } else { 255 },
        (ColorModel::GrayscaleAlpha8, ColorModel::Rgba8) => if c < 3 {
            src[2 * p]
        } else {
            src[2 * p + 1]
        },
        (ColorModel::GrayscaleAlpha16, ColorModel::Rgba8) => if c < 3 {
            src[4 * p]
        } else {
            src[4 * p + 2]
        },
        (ColorModel::Rgba8, ColorModel::Rgb8) => src[4 * p + c],
        (ColorModel::Cmyk8, ColorModel::Rgb8) => cmyk_byte(src[4 * p + c], src[4 * p + 3]),
        (ColorModel::Indexed, ColorModel::Rgb8) => {
            assert(3 * (src@[p as int] as int) < pal@.len());
            pal[3 * (src[p] as usize) + c]
        },
        (ColorModel::Indexed, ColorModel::Rgba8) => if c < 3 {
            assert(3 * (src@[p as int] as int) < pal@.len());
            pal[3 * (src[p] as usize) + c]
        } else {
            255
        },
        (ColorModel::YCbCr8, ColorModel::Rgb8) => {
            let y = src[3 * p] as i64;
            let cb = src[3 * p + 1] as i64;
            let cr = src[3 * p + 2] as i64;
            if c == 0 {
                clamp_to_byte(65536 * y + 91881 * (cr - 128) + 32768)
            } else if c == 1 {
                clamp_to_byte(65536 * y - 22554 * (cb - 128) - 46802 * (cr - 128) + 32768)
            } else {
                clamp_to_byte(65536 * y + 116130 * (cb - 128) + 32768)
            }
        },
        _ => 0,
    }
}

fn pixel_size(m: ColorModel) -> (r: usize)
    ensures
        r == pixel_bytes_of(m),
        1 <= r <= 4,
{
    proof { crate::model::lemma_pixel_bytes(m); }
    m.channel_count() as usize * m.bytes_per_channel() as usize
}

/// Converts packed pixels from one model to another by the table's rule.
fn convert_pixels(from: ColorModel, to: ColorModel, src: &Vec<u8>, pal: &Vec<u8>) -> (out: Vec<u8>)
    requires
        has_rule(from, to),
        src@.len() % pixel_bytes_of(from) == 0,
        from == ColorModel::Indexed ==> indices_in_palette(src@, pal@),
    ensures
        is_conversion(from, to, src@, pal@, out@),
{
    let ip = pixel_size(from);
    let op = pixel_size(to);
    let n = src.len() / ip;
    let ghost len = src@.len() as int;
    assert(len == ip * n) by (nonlinear_arith)
        requires n as int == len / (ip as int), len % (ip as int) == 0, ip >= 1;
    let mut out: Vec<u8> = Vec::new();
    let mut p: usize = 0;
    while p < n
        invariant
            p <= n,
            n == src@.len() / pixel_bytes_of(from),
            src@.len() == ip * n,
            ip == pixel_bytes_of(from),
            op == pixel_bytes_of(to),
            1 <= op <= 4,
            has_rule(from, to),
            from == ColorModel::Indexed ==> indices_in_palette(src@, pal@),
            out@.len() == op * p,
            forall|q: int, d: int|
                0 <= q < p && 0 <= d < op ==> out@[op * q + d]
                    == #[trigger] converted_byte(from, to, src@, pal@, q, d),
        decreases n - p,
    {
        let mut c: usize = 0;
        while c < op
            invariant
                p < n,
                c <= op,
                n == src@.len() / pixel_bytes_of(from),
                src@.len() == ip * n,
                ip == pixel_bytes_of(from),
                op == pixel_bytes_of(to),
                1 <= op <= 4,
                has_rule(from, to),
                from == ColorModel::Indexed ==> indices_in_palette(src@, pal@),
                out@.len() == op * p + c,
                forall|q: int, d: int|
                    ((0 <= q < p && 0 <= d < op) || (q == p && 0 <= d < c)) ==> out@[op * q + d]
                        == #[trigger] converted_byte(from, to, src@, pal@, q, d),
            decreases op - c,
        {
            let b = byte_at(from, to, src, pal, n, p, c);
            let ghost before = out@;
            out.push(b);
            assert forall|q: int, d: int|
                ((0 <= q < p && 0 <= d < op) || (q == p && 0 <= d < c + 1)) implies out@[op * q + d]
                    == #[trigger] converted_byte(from, to, src@, pal@, q, d) by {
                if q == p && d == c {
                } else {
                    assert(op * q + d < op * p + c) by (nonlinear_arith)
                        requires (0 <= q < p && 0 <= d < op) || (q == p && 0 <= d < c);
                    assert(out@[op * q + d] == before[op * q + d]);
                }
            }
            c = c + 1;
        }
        assert(op * p + op == op * (p + 1)) by (nonlinear_arith);
        p = p + 1;
    }
    assert(out@.len() == n * op) by (nonlinear_arith)
        requires out@.len() == op * p, p == n;
    out
}

impl CanonicalBuffer {
    /// Converts the buffer to another model by the table's rule; the
    /// dimensions stay, the palette is spent.
    pub fn convert(&self, target: ColorModel) -> (r: Result<CanonicalBuffer, UnsupportedConversion>)
        requires
            self.wf(),
        ensures
            r is Ok <==> has_rule(self.model, target),
            r is Ok ==> ({
                let b = r->Ok_0;
                &&& b.wf()
                &&& b.width == self.width
                &&& b.height == self.height
                &&& b.model == target
                &&& is_conversion(self.model, target, self.bytes@, self.palette@, b.bytes@)
            }),
    {
        if !rule_exists(self.model, target) {
            return Err(UnsupportedConversion);
        }
        proof {
            crate::model::lemma_pixel_bytes(self.model);
            crate::model::lemma_pixel_bytes(target);
        }
        let ghost area = self.width as int * self.height as int;
        let ghost ip = pixel_bytes_of(self.model) as int;
        let ghost len = self.bytes@.len() as int;
        let ghost op = pixel_bytes_of(target) as int;
        assert(len == area * ip) by (nonlinear_arith)
            requires len == layout_len(self.width as int, self.height as int, self.model),
                area == self.width as int * self.height as int,
                ip == channels_of(self.model) * channel_bytes_of(self.model);
        assert(len % ip == 0 && len / ip == area) by (nonlinear_arith)
            requires len == area * ip, ip >= 1, area >= 0;
        let out = convert_pixels(self.model, target, &self.bytes, &self.palette);
        assert(out@.len() == layout_len(self.width as int, self.height as int, target)) by (nonlinear_arith)
            requires out@.len() == area * op, area == self.width as int * self.height as int,
                op == channels_of(target) * channel_bytes_of(target);
        Ok(CanonicalBuffer {
            bytes: out,
            width: self.width,
            height: self.height,
            model: target,
            palette: Vec::new(),
        })
    }
}

} // verus!
