//! Streaming codec for sequences of GeoJSON documents framed as JSON text
//! sequences: each record is an ASCII record-separator byte, a JSON document,
//! and an optional trailing line feed. Reading and writing are delegated to
//! the `jsonseq` crate for framing and JSON parsing and to the `geojson`
//! crate for the domain model; this crate layers the record-by-record
//! decode/encode pipeline and the three-kind error taxonomy on top of them.

use vstd::prelude::*;

pub mod read;
pub mod write;

pub use read::GeoJsonSeqReader;
pub use write::GeoJsonSeqWriter;

use geojson::Error as GeoJsonFault;
use jsonseq::Error as JsonSeqFault;
use serde_json::Error as SerdeJsonFault;
use std::io::Error as IoFault;

verus! {

#[verifier::external_type_specification]
#[verifier::external_body]
pub struct ExIoError(IoFault);

#[verifier::external_type_specification]
#[verifier::external_body]
pub struct ExJsonError(SerdeJsonFault);

#[verifier::external_type_specification]
#[verifier::external_body]
pub struct ExJsonValue(serde_json::Value);

#[verifier::external_type_specification]
#[verifier::external_body]
pub struct ExGeoJson(geojson::GeoJson);

#[verifier::external_type_specification]
#[verifier::external_body]
pub struct ExGeoJsonError(GeoJsonFault);

#[verifier::external_type_specification]
#[verifier::external_body]
pub struct ExJsonSeqError(JsonSeqFault);

/// An error with reading or writing.
///
/// Exactly one kind per failure source: `IOError` when the underlying byte
/// stream failed, `JsonError` when the bytes were transported but are not
/// well-formed JSON, `GeoJsonError` when the JSON parsed but does not
/// satisfy the GeoJSON schema.
#[derive(Debug)]
pub enum Error {
    /// I/O Error from the underlying `Read`
    IOError(std::io::Error),
    /// Data was read OK, but there was a problem parsing as JSON
    JsonError(serde_json::Error),
    /// Valid JSON as read, but not valid as a GeoJSON object
    GeoJsonError(geojson::Error),
}

/// A failure reported by the framing layer, split into its two sources:
/// the byte stream itself failed, or the bytes were not well-formed JSON.
pub enum StreamError {
    /// The underlying byte source or sink failed.
    Transport(std::io::Error),
    /// The record's bytes are not a well-formed JSON document.
    Syntax(serde_json::Error),
}

/// Relies on `jsonseq::Error`: its `IOError` variant carries a failure of the
/// underlying stream and its `JsonError` variant a JSON parse failure. Each
/// arm only moves the carried value into the matching `StreamError` variant.
#[verifier::external_body]
fn split_jsonseq_error(e: jsonseq::Error) -> StreamError {
    match e {
        jsonseq::Error::IOError(io) => StreamError::Transport(io),
        jsonseq::Error::JsonError(js) => StreamError::Syntax(js),
    }
}

impl Error {
    /// Translate a split framing failure into the shared error type.
    ///
    /// The translation is lossless: the resulting kind is determined solely
    /// by which source raised the failure, transport failures become
    /// `IOError` and parse failures become `JsonError`, if and only if, and
    /// the carried error value passes through unchanged.
    pub fn from_stream_error(e: StreamError) -> (r: Error)
        ensures
            e is Transport <==> r is IOError,
            e is Syntax <==> r is JsonError,
            e matches StreamError::Transport(io) ==> r == Error::IOError(io),
            e matches StreamError::Syntax(js) ==> r == Error::JsonError(js),
    {
        match e {
            StreamError::Transport(io) => Error::IOError(io),
            StreamError::Syntax(js) => Error::JsonError(js),
        }
    }

    /// Translate a failure of the framing layer, keeping its kind.
    ///
    /// The framing layer never judges GeoJSON validity, so the result is
    /// never of the semantic-validity kind.
    pub fn from_jsonseq_error(e: jsonseq::Error) -> (r: Error)
        ensures
            r is IOError || r is JsonError,
    {
        Error::from_stream_error(split_jsonseq_error(e))
    }

    /// A fixed description of the error's kind.
    pub fn message(&self) -> (r: &'static str)
        ensures
            self is IOError ==> r@ == "I/O Error from the underlying `Read`"@,
            self is JsonError ==> r@ == "Data was read OK, but there was a problem parsing as JSON"@,
            self is GeoJsonError ==> r@ == "Valid JSON as read, but not valid as a GeoJSON object"@,
    {
        match self {
            Error::IOError(_) => "I/O Error from the underlying `Read`",
            Error::JsonError(_) => "Data was read OK, but there was a problem parsing as JSON",
            Error::GeoJsonError(_) => "Valid JSON as read, but not valid as a GeoJSON object",
        }
    }
}

} // verus!
