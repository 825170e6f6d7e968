//! Image transcoding: identify the formats of a request, decode the input
//! into a canonical pixel buffer, bring its colour model into one the output
//! format encodes, and encode it.
//!
//! - `model`: the closed set of colour models and their pixel sizes.
//! - `buffer`: the canonical buffer and its well-formedness.
//! - `registry`: formats, their identifiers, MIME types and capabilities.
//! - `convert`: the table of colour model conversions.
//! - `decode`: classification of what a codec reports into a buffer.
//! - `codec`: header checks and the PNG and WebP codecs.
//! - `pipeline`: admission, normalization and delivery of a request.

pub mod buffer;
pub mod codec;
pub mod convert;
pub mod decode;
pub mod model;
pub mod pipeline;
pub mod registry;
