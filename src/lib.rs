//! The configuration of one transcription job, with its decoding from and
//! encoding to JSON documents and its human-readable rendering.

pub mod json;
pub mod options;

pub use crate::json::{JsonNumber, JsonValue};
pub use crate::options::{
    decode, decode_value, encode, encode_value, render, Field, RenderError, SchemaError,
    TranscribeOptions,
};
