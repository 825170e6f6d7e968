use vstd::prelude::*;
use crate::model::{ColorModel, channels_of, channel_bytes_of, pixel_bytes_of};

verus! {

/// Length in bytes of a `width` × `height` image held in model `m`.
pub open spec fn layout_len(width: int, height: int, m: ColorModel) -> int {
    width * height * channels_of(m) * channel_bytes_of(m)
}

/// Every index byte names an entry of an RGB palette.
pub open spec fn indices_in_palette(indices: Seq<u8>, palette: Seq<u8>) -> bool {
    &&& palette.len() % 3 == 0
    &&& forall|i: int| 0 <= i < indices.len() ==> 3 * (#[trigger] indices[i] as int) < palette.len()
}

/// A fully decoded image: pixel bytes, row-major and packed, with the
/// dimensions and the model that say how to read them.
pub struct CanonicalBuffer {
    pub bytes: Vec<u8>,
    pub width: u32,
    pub height: u32,
    pub model: ColorModel,
    /// RGB triples that the bytes index when the model is `Indexed`;
    /// empty otherwise.
    pub palette: Vec<u8>,
}

/// What a buffer holds, as values.
pub struct Image {
    pub bytes: Seq<u8>,
    pub width: u32,
    pub height: u32,
    pub model: ColorModel,
    pub palette: Seq<u8>,
}

/// The image a well-formed buffer of these parts would hold.
pub open spec fn image_of(bytes: Seq<u8>, width: u32, height: u32, model: ColorModel, palette: Seq<u8>) -> Image {
    Image { bytes, width, height, model, palette }
}

/// Whether parts make a well-formed buffer.
pub open spec fn fits(img: Image) -> bool {
    &&& img.bytes.len() == layout_len(img.width as int, img.height as int, img.model)
    &&& img.model == ColorModel::Indexed ==> indices_in_palette(img.bytes, img.palette)
    &&& img.model != ColorModel::Indexed ==> img.palette.len() == 0
}

impl View for CanonicalBuffer {
    type V = Image;

    open spec fn view(&self) -> Image {
        Image {
            bytes: self.bytes@,
            width: self.width,
            height: self.height,
            model: self.model,
            palette: self.palette@,
        }
    }
}

impl CanonicalBuffer {
    /// The buffer holds exactly one image of its dimensions and model.
    pub open spec fn wf(&self) -> bool {
        fits(self@)
    }
}

/// The bytes on hand do not form an image of the announced shape.
#[derive(Clone, Copy, Debug, PartialEq, Eq, Structural)]
pub struct ShapeMismatch;

/// Checks that every index byte addresses an entry of the palette.
fn check_indices(indices: &Vec<u8>, palette: &Vec<u8>) -> (r: bool)
    ensures
        r == indices_in_palette(indices@, palette@),
{
    if palette.len() % 3 != 0 {
        return false;
    }
    let entries = palette.len() / 3;
    let mut i: usize = 0;
    while i < indices.len()
        invariant
            i <= indices@.len(),
            palette@.len() % 3 == 0,
            entries == palette@.len() / 3,
            forall|j: int| 0 <= j < i ==> 3 * (#[trigger] indices@[j] as int) < palette@.len(),
        decreases indices@.len() - i,
    {
        if indices[i] as usize >= entries {
            return false;
        }
        i = i + 1;
    }
    true
}

impl CanonicalBuffer {
    /// Builds a buffer from parts, checking the length against the
    /// dimensions and model, and the indices against the palette.
    pub fn from_parts(
        bytes: Vec<u8>,
        width: u32,
        height: u32,
        model: ColorModel,
        palette: Vec<u8>,
    ) -> (r: Result<CanonicalBuffer, ShapeMismatch>)
        ensures
            r is Ok <==> fits(image_of(bytes@, width, height, model, palette@)),
            r is Ok ==> r->Ok_0.wf() && r->Ok_0@ == image_of(bytes@, width, height, model, palette@),
    {
        let px = (model.channel_count() as u128) * (model.bytes_per_channel() as u128);
        let w = width as u128;
        let h = height as u128;
        assert(w * h <= 0xffff_ffff_u128 * 0xffff_ffff_u128) by (nonlinear_arith)
            requires w <= 0xffff_ffff_u128, h <= 0xffff_ffff_u128;
        let area = w * h;
        assert(area * px <= 0xffff_ffff_u128 * 0xffff_ffff_u128 * 4) by (nonlinear_arith)
            requires area <= 0xffff_ffff_u128 * 0xffff_ffff_u128, px <= 4;
        let expected = area * px;
        assert(expected == layout_len(width as int, height as int, model)) by (nonlinear_arith)
            requires expected == area * px, area == w * h,
                px == channels_of(model) * channel_bytes_of(model), w == width, h == height;
        if bytes.len() as u128 != expected {
            return Err(ShapeMismatch);
        }
        match model {
            ColorModel::Indexed => {
                if !check_indices(&bytes, &palette) {
                    return Err(ShapeMismatch);
                }
            },
            _ => {
                if palette.len() != 0 {
                    return Err(ShapeMismatch);
                }
            },
        }
        Ok(CanonicalBuffer { bytes, width, height, model, palette })
    }
}

} // verus!
