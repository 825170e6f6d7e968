use vstd::prelude::*;
use crate::model::ColorModel;

verus! {

/// The closed set of codecs the pipeline reads and writes.
#[derive(Clone, Copy, Debug, PartialEq, Eq, Structural)]
pub enum Format {
    Avif,
    Png,
    Jpeg,
    WebP,
}

/// Every format, in the order the registry tries them.
pub open spec fn all_formats() -> Seq<Format> {
    seq![Format::Avif, Format::Png, Format::Jpeg, Format::WebP]
}

/// The lower-case token that names a format, both as an output type and as
/// the subtype of its MIME type.
pub open spec fn token(f: Format) -> Seq<char> {
    match f {
        Format::Avif => seq!['a', 'v', 'i', 'f'],
        Format::Png => seq!['p', 'n', 'g'],
        Format::Jpeg => seq!['j', 'p', 'e', 'g'],
        Format::WebP => seq!['w', 'e', 'b', 'p'],
    }
}

/// How a format's name is written for people.
pub open spec fn display_name_of(f: Format) -> Seq<char> {
    match f {
        Format::Avif => "AVIF"@,
        Format::Png => "PNG"@,
        Format::Jpeg => "JPEG"@,
        Format::WebP => "WebP"@,
    }
}

/// The MIME type delivered with bytes of a format.
pub open spec fn mime(f: Format) -> Seq<char> {
    seq!['i', 'm', 'a', 'g', 'e', '/'] + token(f)
}

/// `c` is the lower-case letter `lower`, or its ASCII upper-case form.
pub open spec fn same_letter(c: char, lower: char) -> bool {
    c == lower || ('a' <= lower <= 'z' && c as u32 + 32 == lower as u32)
}

/// `s` spells `t` with ASCII letters in either case.
pub open spec fn spells(s: Seq<char>, t: Seq<char>) -> bool {
    s.len() == t.len() && forall|i: int| 0 <= i < s.len() ==> same_letter(#[trigger] s[i], t[i])
}

/// The format an identifier names, if any.
pub open spec fn named_format(s: Seq<char>) -> Option<Format> {
    if spells(s, token(Format::Avif)) {
        Some(Format::Avif)
    } else if spells(s, token(Format::Png)) {
        Some(Format::Png)
    } else if spells(s, token(Format::Jpeg)) {
        Some(Format::Jpeg)
    } else if spells(s, token(Format::WebP)) {
        Some(Format::WebP)
    } else {
        None
    }
}

/// Compares one character with a lower-case letter, ignoring ASCII case.
fn letter_matches(c: char, lower: char) -> (r: bool)
    ensures
        r == same_letter(c, lower),
{
    if c == lower {
        true
    } else if 'a' <= lower && lower <= 'z' {
        (c as u32) + 32 == lower as u32
    } else {
        false
    }
}

/// Case-insensitive comparison of an identifier with a lower-case token.
fn spells_token(s: &str, t: &str) -> (r: bool)
    ensures
        r == spells(s@, t@),
{
    let n = s.unicode_len();
    if n != t.unicode_len() {
        return false;
    }
    let mut i: usize = 0;
    while i < n
        invariant
            n == s@.len() == t@.len(),
            i <= n,
            forall|j: int| 0 <= j < i ==> same_letter(#[trigger] s@[j], t@[j]),
        decreases n - i,
    {
        if !letter_matches(s.get_char(i), t.get_char(i)) {
            return false;
        }
        i = i + 1;
    }
    true
}

impl Format {
    /// The token that names this format.
    pub fn identifier(&self) -> (r: &'static str)
        ensures
            r@ == token(*self),
    {
        match self {
            Format::Avif => {
                proof { reveal_strlit("avif"); }
                assert("avif"@ =~= token(Format::Avif));
                "avif"
            },
            Format::Png => {
                proof { reveal_strlit("png"); }
                assert("png"@ =~= token(Format::Png));
                "png"
            },
            Format::Jpeg => {
                proof { reveal_strlit("jpeg"); }
                assert("jpeg"@ =~= token(Format::Jpeg));
                "jpeg"
            },
            Format::WebP => {
                proof { reveal_strlit("webp"); }
                assert("webp"@ =~= token(Format::WebP));
                "webp"
            },
        }
    }

    /// The name of this format as people write it.
    pub fn display_name(&self) -> (r: &'static str)
        ensures
            r@ == display_name_of(*self),
    {
        match self {
            Format::Avif => "AVIF",
            Format::Png => "PNG",
            Format::Jpeg => "JPEG",
            Format::WebP => "WebP",
        }
    }

    /// The MIME type of encoded bytes of this format.
    pub fn mime_type(&self) -> (r: &'static str)
        ensures
            r@ == mime(*self),
    {
        match self {
            Format::Avif => {
                proof { reveal_strlit("image/avif"); }
                assert("image/avif"@ =~= mime(Format::Avif));
                "image/avif"
            },
            Format::Png => {
                proof { reveal_strlit("image/png"); }
                assert("image/png"@ =~= mime(Format::Png));
                "image/png"
            },
            Format::Jpeg => {
                proof { reveal_strlit("image/jpeg"); }
                assert("image/jpeg"@ =~= mime(Format::Jpeg));
                "image/jpeg"
            },
            Format::WebP => {
                proof { reveal_strlit("image/webp"); }
                assert("image/webp"@ =~= mime(Format::WebP));
                "image/webp"
            },
        }
    }
}

/// Error of the registry: the identifier names no supported format.
#[derive(Clone, Copy, Debug, PartialEq, Eq, Structural)]
pub struct UnsupportedFormat;

/// Looks up the format an identifier names, ignoring ASCII case; no other
/// spelling is accepted.
pub fn resolve(identifier: &str) -> (r: Result<Format, UnsupportedFormat>)
    ensures
        r is Ok <==> named_format(identifier@) is Some,
        r is Ok ==> r->Ok_0 == named_format(identifier@)->0,
{
    if spells_token(identifier, Format::Avif.identifier()) {
        Ok(Format::Avif)
    } else if spells_token(identifier, Format::Png.identifier()) {
        Ok(Format::Png)
    } else if spells_token(identifier, Format::Jpeg.identifier()) {
        Ok(Format::Jpeg)
    } else if spells_token(identifier, Format::WebP.identifier()) {
        Ok(Format::WebP)
    } else {
        Err(UnsupportedFormat)
    }
}

/// Knobs handed to an encoder; the client does not choose them.
#[derive(Clone, Copy, Debug, PartialEq, Eq, Structural)]
pub struct EncodeParams {
    /// Quality on a scale of 0 to 100, for the lossy encoders.
    pub quality: u8,
    /// Encoder speed on a scale of 1 (slowest) to 10 (fastest).
    pub speed: u8,
}

/// Quality used unless configured otherwise.
pub const DEFAULT_QUALITY: u8 = 95;

/// Speed used unless configured otherwise.
pub const DEFAULT_SPEED: u8 = 10;

pub open spec fn default_params() -> EncodeParams {
    EncodeParams { quality: DEFAULT_QUALITY, speed: DEFAULT_SPEED }
}

impl EncodeParams {
    pub fn defaults() -> (r: EncodeParams)
        ensures
            r == default_params(),
    {
        EncodeParams { quality: DEFAULT_QUALITY, speed: DEFAULT_SPEED }
    }
}

/// The models a format's decoder hands out.
pub open spec fn decodable_models(f: Format) -> Seq<ColorModel> {
    match f {
        Format::Avif => seq![ColorModel::Rgb8, ColorModel::Rgba8, ColorModel::Grayscale8],
        Format::Png => seq![
            ColorModel::Grayscale8,
            ColorModel::GrayscaleAlpha8,
            ColorModel::GrayscaleAlpha16,
            ColorModel::Rgb8,
            ColorModel::Rgba8,
            ColorModel::Indexed,
        ],
        Format::Jpeg => seq![
            ColorModel::Grayscale8,
            ColorModel::Rgb8,
            ColorModel::YCbCr8,
            ColorModel::Cmyk8,
        ],
        Format::WebP => seq![ColorModel::Rgb8, ColorModel::Rgba8],
    }
}

/// The models a format's encoder accepts, in order of preference when a
/// buffer has to be converted first.
pub open spec fn encodable_models(f: Format) -> Seq<ColorModel> {
    match f {
        Format::Avif => seq![ColorModel::Rgb8, ColorModel::Rgba8],
        Format::Png => seq![
            ColorModel::Rgb8,
            ColorModel::Rgba8,
            ColorModel::Grayscale8,
            ColorModel::GrayscaleAlpha8,
            ColorModel::GrayscaleAlpha16,
        ],
        Format::Jpeg => seq![
            ColorModel::Rgb8,
            ColorModel::Grayscale8,
            ColorModel::YCbCr8,
            ColorModel::Cmyk8,
        ],
        Format::WebP => seq![
            ColorModel::Rgb8,
            ColorModel::Rgba8,
            ColorModel::Grayscale8,
            ColorModel::GrayscaleAlpha8,
        ],
    }
}

/// What a format can decode into and encode from.
pub struct Capabilities {
    pub decodable: Vec<ColorModel>,
    pub encodable: Vec<ColorModel>,
    pub params: EncodeParams,
}

fn models_vec(a: &[ColorModel]) -> (r: Vec<ColorModel>)
    ensures
        r@ == a@,
{
    let mut r: Vec<ColorModel> = Vec::new();
    let mut i: usize = 0;
    while i < a.len()
        invariant
            i <= a@.len(),
            r@ == a@.subrange(0, i as int),
        decreases a@.len() - i,
    {
        r.push(a[i]);
        i = i + 1;
        assert(r@ =~= a@.subrange(0, i as int));
    }
    assert(r@ =~= a@);
    r
}

impl Format {
    /// The capability descriptor of this format.
    pub fn capabilities(&self) -> (r: Capabilities)
        ensures
            r.decodable@ == decodable_models(*self),
            r.encodable@ == encodable_models(*self),
            r.params == default_params(),
    {
        let (dec, enc): (&[ColorModel], &[ColorModel]) = match self {
            Format::Avif => (
                &[ColorModel::Rgb8, ColorModel::Rgba8, ColorModel::Grayscale8],
                &[ColorModel::Rgb8, ColorModel::Rgba8],
            ),
            Format::Png => (
                &[
                    ColorModel::Grayscale8,
                    ColorModel::GrayscaleAlpha8,
                    ColorModel::GrayscaleAlpha16,
                    ColorModel::Rgb8,
                    ColorModel::Rgba8,
                    ColorModel::Indexed,
                ],
                &[
                    ColorModel::Rgb8,
                    ColorModel::Rgba8,
                    ColorModel::Grayscale8,
                    ColorModel::GrayscaleAlpha8,
                    ColorModel::GrayscaleAlpha16,
                ],
            ),
            Format::Jpeg => (
                &[ColorModel::Grayscale8, ColorModel::Rgb8, ColorModel::YCbCr8, ColorModel::Cmyk8],
                &[ColorModel::Rgb8, ColorModel::Grayscale8, ColorModel::YCbCr8, ColorModel::Cmyk8],
            ),
            Format::WebP => (
                &[ColorModel::Rgb8, ColorModel::Rgba8],
                &[
                    ColorModel::Rgb8,
                    ColorModel::Rgba8,
                    ColorModel::Grayscale8,
                    ColorModel::GrayscaleAlpha8,
                ],
            ),
        };
        assert(dec@ =~= decodable_models(*self));
        assert(enc@ =~= encodable_models(*self));
        Capabilities {
            decodable: models_vec(dec),
            encodable: models_vec(enc),
            params: EncodeParams::defaults(),
        }
    }
}

impl Format {
    /// Whether the format's encoder accepts buffers of the model as they are.
    pub fn encodes(&self, m: ColorModel) -> (r: bool)
        ensures
            r == encodable_models(*self).contains(m),
    {
        let caps = self.capabilities();
        let mut i: usize = 0;
        while i < caps.encodable.len()
            invariant
                i <= caps.encodable@.len(),
                caps.encodable@ == encodable_models(*self),
                forall|j: int| 0 <= j < i ==> caps.encodable@[j] != m,
            decreases caps.encodable@.len() - i,
        {
            if caps.encodable[i] == m {
                return true;
            }
            i = i + 1;
        }
        false
    }
}

/// Resolving the token of any format gives that format back.
pub proof fn lemma_resolve_round_trip(f: Format)
    ensures
        named_format(token(f)) == Some(f),
{
    let a = token(Format::Avif);
    let p = token(Format::Png);
    let j = token(Format::Jpeg);
    let w = token(Format::WebP);
    assert(!same_letter(p[0], a[0]));
    assert(!same_letter(j[0], a[0]));
    assert(!same_letter(w[0], a[0]));
    assert(!same_letter(j[0], p[0]));
    assert(!same_letter(w[0], p[0]));
    assert(!same_letter(w[0], j[0]));
    assert(spells(token(f), token(f)));
}

} // verus!
