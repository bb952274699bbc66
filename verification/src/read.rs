//! Decoding: pull GeoJSON objects one record at a time from a byte source.

use vstd::prelude::*;

use crate::Error;

verus! {

/// Holds the framing layer's reader over the type-erased byte source.
///
/// The verifier accepts neither a declaration of `jsonseq::JsonSeqReader`
/// nor a struct of this crate that is generic over an `std::io::Read`
/// bound, so the source is boxed and the holder is opaque to it; only the
/// trusted helpers below touch its field.
#[verifier::external_body]
struct InnerReader {
    inner: jsonseq::JsonSeqReader<Box<dyn std::io::Read>>,
}

/// Reads GeoJSON objects from a `Read`.
///
/// Each pull consumes exactly one framed record from the stream: the framing
/// layer yields the record parsed as a generic JSON value, and the value is
/// then converted into a GeoJSON object. A failed record is reported as an
/// error of the matching kind and does not corrupt the reader: the next pull
/// moves on to the record after it.
pub struct GeoJsonSeqReader {
    inner: InnerReader,
    done: bool,
}

/// Turn the outcome of converting one parsed record into the decoder's
/// result: a converted object is yielded as the next item, and a conversion
/// failure is surfaced with the semantic-validity kind — the record was
/// well-formed JSON, but not a valid GeoJSON object.
pub fn record_to_item(parsed: Result<geojson::GeoJson, geojson::Error>) -> (r: Result<
    Option<geojson::GeoJson>,
    Error,
>)
    ensures
        parsed matches Ok(g) ==> r == Ok::<Option<geojson::GeoJson>, Error>(Some(g)),
        parsed is Err ==> (r matches Err(e) && e is GeoJsonError),
{
    match parsed {
        Ok(o) => Ok(Some(o)),
        Err(e) => Err(Error::GeoJsonError(e)),
    }
}

impl GeoJsonSeqReader {
    /// True once the stream has reported its end: every later pull returns
    /// no further items.
    pub closed spec fn exhausted(&self) -> bool {
        self.done
    }

    /// Relies on `jsonseq::JsonSeqReader::new`: wraps the byte source in the
    /// framing layer's reader.
    #[verifier::external_body]
    fn inner_new<R: std::io::Read + 'static>(inner: R) -> InnerReader {
        InnerReader { inner: jsonseq::JsonSeqReader::new(Box::new(inner)) }
    }

    /// Relies on `jsonseq::JsonSeqReader::next_item`: advances the stream
    /// past exactly one framed record and parses it as JSON, skipping empty
    /// records; yields `None` at end of input, and otherwise the parsed
    /// value, a transport failure, or a parse failure. What comes back
    /// depends on the wrapped byte source.
    #[verifier::external_body]
    fn inner_next(rd: &mut InnerReader) -> Result<Option<serde_json::Value>, jsonseq::Error> {
        rd.inner.next_item()
    }

    /// Relies on `geojson::GeoJson::from_json_value`: converts a parsed JSON
    /// value into a GeoJSON object, or reports why the value does not
    /// satisfy the GeoJSON schema.
    #[verifier::external_body]
    fn convert(v: serde_json::Value) -> Result<geojson::GeoJson, geojson::Error> {
        geojson::GeoJson::from_json_value(v)
    }

    /// Create from this reader
    pub fn new<R: std::io::Read + 'static>(inner: R) -> (r: Self)
        ensures
            !r.exhausted(),
    {
        GeoJsonSeqReader { inner: Self::inner_new(inner), done: false }
    }

    /// Read the next GeoJSON object from this.
    ///
    /// Returns `Ok(Some(_))` for a decoded record, `Ok(None)` once the
    /// stream is exhausted, and `Err(_)` with the failure's kind otherwise.
    /// Exhaustion is terminal and idempotent: once `Ok(None)` has been
    /// returned, every later call returns `Ok(None)` again, without touching
    /// the stream. An error is not terminal: the stream has already advanced
    /// past the failing record, so the next call attempts the record after
    /// it.
    pub fn next_item(&mut self) -> (r: Result<Option<geojson::GeoJson>, Error>)
        ensures
            old(self).exhausted() ==> ((r matches Ok(None)) && *final(self) == *old(self)),
            final(self).exhausted() <==> (r matches Ok(None)),
    {
        if self.done {
            return Ok(None);
        }
        match Self::inner_next(&mut self.inner) {
            Err(e) => Err(Error::from_jsonseq_error(e)),
            Ok(None) => {
                self.done = true;
                Ok(None)
            },
            Ok(Some(json_value)) => record_to_item(Self::convert(json_value)),
        }
    }

    /// Read the next GeoJSON object from this
    pub fn read_item(&mut self) -> (r: Result<Option<geojson::GeoJson>, Error>)
        ensures
            old(self).exhausted() ==> ((r matches Ok(None)) && *final(self) == *old(self)),
            final(self).exhausted() <==> (r matches Ok(None)),
    {
        self.next_item()
    }
}

} // verus!

