use vstd::prelude::*;
use crate::model::ColorModel;
use crate::buffer::CanonicalBuffer;
use crate::convert::{has_rule, is_conversion, rule_exists};
use crate::registry::{Format, encodable_models, named_format, mime, resolve};
use crate::decode::DecodeFailure;
use crate::codec::EncodeFailure;

verus! {

/// The largest upload accepted: 25 MiB.
pub const MAX_UPLOAD_BYTES: usize = 26214400;

/// Why a request was rejected.
#[derive(Clone, Copy, Debug, PartialEq, Eq, Structural)]
pub enum TranscodeError {
    /// The upload exceeds `MAX_UPLOAD_BYTES`; nothing was decoded.
    PayloadTooLarge,
    /// The input or the output identifier names no supported format.
    UnsupportedFormat,
    /// The input could not be decoded.
    Decode(DecodeFailure),
    /// No rule leads from the decoded model to one the output format encodes.
    UnsupportedConversion,
    /// The output could not be encoded.
    Encode(EncodeFailure),
}

/// The formats a request reads and writes.
#[derive(Clone, Copy, Debug, PartialEq, Eq, Structural)]
pub struct Route {
    pub input: Format,
    pub output: Format,
}

/// Where a request goes, or why it is turned away; the size is judged first.
pub open spec fn routing(payload_len: nat, input_hint: Seq<char>, output_type: Seq<char>) -> Result<Route, TranscodeError> {
    if payload_len > MAX_UPLOAD_BYTES {
        Err(TranscodeError::PayloadTooLarge)
    } else {
        match (named_format(input_hint), named_format(output_type)) {
            (Some(i), Some(o)) => Ok(Route { input: i, output: o }),
            _ => Err(TranscodeError::UnsupportedFormat),
        }
    }
}

/// Admits a request: checks the upload's size, then resolves the input's
/// MIME subtype and the requested output type.
pub fn identify(payload_len: usize, input_hint: &str, output_type: &str) -> (r: Result<Route, TranscodeError>)
    ensures
        r == routing(payload_len as nat, input_hint@, output_type@),
{
    if payload_len > MAX_UPLOAD_BYTES {
        return Err(TranscodeError::PayloadTooLarge);
    }
    let input = match resolve(input_hint) {
        Ok(f) => f,
        Err(_) => {
            return Err(TranscodeError::UnsupportedFormat);
        },
    };
    let output = match resolve(output_type) {
        Ok(f) => f,
        Err(_) => {
            return Err(TranscodeError::UnsupportedFormat);
        },
    };
    Ok(Route { input, output })
}

/// The first model of `models`, from position `i` on, that has a rule from
/// `from`.
pub open spec fn first_rule_from(from: ColorModel, models: Seq<ColorModel>, i: int) -> Option<ColorModel>
    decreases models.len() - i,
{
    if i < 0 || i >= models.len() {
        None
    } else if has_rule(from, models[i]) {
        Some(models[i])
    } else {
        first_rule_from(from, models, i + 1)
    }
}

/// The model a buffer of model `from` is converted to before format `f`
/// encodes it: none when `f` takes `from` as it is, else the first model
/// `f` encodes that the table reaches.
pub open spec fn normalization_target(from: ColorModel, f: Format) -> Option<ColorModel> {
    first_rule_from(from, encodable_models(f), 0)
}

/// A target found by the search has a rule and is encodable.
pub proof fn lemma_first_rule_from(from: ColorModel, models: Seq<ColorModel>, i: int)
    requires
        0 <= i,
    ensures
        first_rule_from(from, models, i) is Some ==> ({
            let t = first_rule_from(from, models, i)->0;
            &&& has_rule(from, t)
            &&& models.contains(t)
        }),
        first_rule_from(from, models, i) is None ==> forall|j: int|
            i <= j < models.len() ==> !has_rule(from, #[trigger] models[j]),
    decreases models.len() - i,
{
    if i < models.len() {
        lemma_first_rule_from(from, models, i + 1);
        if has_rule(from, models[i]) {
            assert(models.contains(models[i]));
        }
    }
}

/// A buffer whose model the output format neither encodes nor reaches by a
/// rule of the table is never reinterpreted: normalizing it fails with
/// `UnsupportedConversion`.
pub proof fn lemma_no_rule_no_conversion(from: ColorModel, output: Format)
    requires
        !encodable_models(output).contains(from),
        forall|t: ColorModel| encodable_models(output).contains(t) ==> !has_rule(from, t),
    ensures
        normalization_target(from, output) is None,
{
    lemma_first_rule_from(from, encodable_models(output), 0);
}

/// An upload over the cap is rejected for its size, whatever identifiers
/// come with it, before any format is looked up or any byte decoded.
pub proof fn lemma_oversized_rejected(payload_len: nat, input_hint: Seq<char>, output_type: Seq<char>)
    requires
        payload_len > MAX_UPLOAD_BYTES,
    ensures
        routing(payload_len, input_hint, output_type) == Err::<Route, TranscodeError>(TranscodeError::PayloadTooLarge),
{
}

/// Brings a buffer into a model the output format encodes: unchanged when it
/// already is one, else converted toward the first encodable model that the
/// table reaches from it.
pub fn normalize(buf: CanonicalBuffer, output: Format) -> (r: Result<CanonicalBuffer, TranscodeError>)
    requires
        buf.wf(),
    ensures
        encodable_models(output).contains(buf.model) ==> r is Ok && r->Ok_0@ == buf@,
        !encodable_models(output).contains(buf.model) ==> match normalization_target(buf.model, output) {
            None => r == Err::<CanonicalBuffer, TranscodeError>(TranscodeError::UnsupportedConversion),
            Some(t) => r is Ok && r->Ok_0.model == t && is_conversion(
                buf.model,
                t,
                buf.bytes@,
                buf.palette@,
                r->Ok_0.bytes@,
            ),
        },
        r is Ok ==> ({
            let b = r->Ok_0;
            &&& b.wf()
            &&& b.width == buf.width
            &&& b.height == buf.height
            &&& encodable_models(output).contains(b.model)
        }),
{
    if output.encodes(buf.model) {
        return Ok(buf);
    }
    let caps = output.capabilities();
    let models = &caps.encodable;
    let mut i: usize = 0;
    while i < models.len()
        invariant
            i <= models@.len(),
            models@ == encodable_models(output),
            buf.wf(),
            !encodable_models(output).contains(buf.model),
            first_rule_from(buf.model, models@, 0) == first_rule_from(buf.model, models@, i as int),
        decreases models@.len() - i,
    {
        let t = models[i];
        if rule_exists(buf.model, t) {
            proof { lemma_first_rule_from(buf.model, models@, i as int); }
            return match buf.convert(t) {
                Ok(b) => Ok(b),
                Err(_) => Err(TranscodeError::UnsupportedConversion),
            };
        }
        i = i + 1;
    }
    Err(TranscodeError::UnsupportedConversion)
}

/// Encoded bytes and the MIME type they are delivered with.
pub struct Delivered {
    pub bytes: Vec<u8>,
    pub mime_type: &'static str,
}

/// Packages the encoder's outcome for the output format.
pub fn deliver(output: Format, encoded: Result<Vec<u8>, EncodeFailure>) -> (r: Result<Delivered, TranscodeError>)
    ensures
        encoded is Ok <==> r is Ok,
        encoded is Ok ==> r->Ok_0.bytes@ == encoded->Ok_0@ && r->Ok_0.mime_type@ == mime(output),
        encoded is Err ==> r == Err::<Delivered, TranscodeError>(TranscodeError::Encode(encoded->Err_0)),
{
    match encoded {
        Ok(bytes) => Ok(Delivered { bytes, mime_type: output.mime_type() }),
        Err(e) => Err(TranscodeError::Encode(e)),
    }
}

/// Where a request stands between two pieces of codec work.
pub enum Stage {
    /// Both formats are known; the payload is to be decoded with the input
    /// format.
    FormatIdentified(Route),
    /// The buffer is in a model the format encodes; it is to be encoded.
    ColorNormalized(Format, CanonicalBuffer),
    /// Finished: bytes and MIME type.
    Delivered(Delivered),
    /// Finished: the reason the request was turned away.
    Rejected(TranscodeError),
}

/// The outcome of the codec work a stage asked for.
pub enum Event {
    Decoded(Result<CanonicalBuffer, DecodeFailure>),
    Encoded(Result<Vec<u8>, EncodeFailure>),
}

/// The first stage of a request.
pub fn start(payload_len: usize, input_hint: &str, output_type: &str) -> (r: Stage)
    ensures
        match routing(payload_len as nat, input_hint@, output_type@) {
            Ok(route) => r == Stage::FormatIdentified(route),
            Err(e) => r == Stage::Rejected(e),
        },
{
    match identify(payload_len, input_hint, output_type) {
        Ok(route) => Stage::FormatIdentified(route),
        Err(e) => Stage::Rejected(e),
    }
}

/// Moves a request on by the outcome of the codec work its stage asked for;
/// an outcome that answers no such request leaves the stage as it was.
pub fn advance(stage: Stage, event: Event) -> (r: Stage)
    requires
        event matches Event::Decoded(Ok(b)) ==> b.wf(),
    ensures
        match (stage, event) {
            (Stage::FormatIdentified(route), Event::Decoded(Err(e))) => r == Stage::Rejected(
                TranscodeError::Decode(e),
            ),
            (Stage::FormatIdentified(route), Event::Decoded(Ok(b))) => match r {
                Stage::ColorNormalized(f, nb) => f == route.output && nb.wf() && nb.width == b.width
                    && nb.height == b.height && encodable_models(f).contains(nb.model)
                    && (encodable_models(f).contains(b.model) ==> nb@ == b@)
                    && (!encodable_models(f).contains(b.model) ==> normalization_target(b.model, f)
                        == Some(nb.model) && is_conversion(
                        b.model,
                        nb.model,
                        b.bytes@,
                        b.palette@,
                        nb.bytes@,
                    )),
                Stage::Rejected(e) => e == TranscodeError::UnsupportedConversion
                    && !encodable_models(route.output).contains(b.model)
                    && normalization_target(b.model, route.output) is None,
                _ => false,
            },
            (Stage::ColorNormalized(f, _), Event::Encoded(Ok(bytes))) => match r {
                Stage::Delivered(d) => d.bytes@ == bytes@ && d.mime_type@ == mime(f),
                _ => false,
            },
            (Stage::ColorNormalized(f, _), Event::Encoded(Err(e))) => r == Stage::Rejected(
                TranscodeError::Encode(e),
            ),
            (s, _) => r == s,
        },
{
    match stage {
        Stage::FormatIdentified(route) => match event {
            Event::Decoded(Ok(b)) => match normalize(b, route.output) {
                Ok(nb) => Stage::ColorNormalized(route.output, nb),
                Err(e) => Stage::Rejected(e),
            },
            Event::Decoded(Err(e)) => Stage::Rejected(TranscodeError::Decode(e)),
            Event::Encoded(_) => Stage::FormatIdentified(route),
        },
        Stage::ColorNormalized(f, b) => match event {
            Event::Encoded(encoded) => match deliver(f, encoded) {
                Ok(d) => Stage::Delivered(d),
                Err(e) => Stage::Rejected(e),
            },
            Event::Decoded(_) => Stage::ColorNormalized(f, b),
        },
        other => other,
    }
}

} // verus!
