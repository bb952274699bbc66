//! Encoding: push GeoJSON objects one framed record at a time onto a byte
//! sink.

use vstd::prelude::*;

use crate::Error;

verus! {

/// Writes GeoJSON objects to a `Write`.
///
/// Each push emits exactly one framed record: the object is rendered to a
/// generic JSON value, the value is serialized to bytes in memory, and the
/// framing layer emits the leading separator, the payload and the trailing
/// line feed. A failure never leaves a partial record's delimiter without
/// its payload on the sink: the payload is fully serialized before any byte
/// of the record is written. The framing layer's writer keeps no state of
/// its own, so only the sink itself is held here.
pub struct GeoJsonSeqWriter<W> {
    sink: W,
}

impl<W: std::io::Write> GeoJsonSeqWriter<W> {
    /// The byte sink this writer wraps.
    pub closed spec fn handle(&self) -> W {
        self.sink
    }

    /// Relies on `serde_json::to_value`: renders a GeoJSON object to a
    /// generic JSON value, or reports that the object graph cannot be
    /// represented as one.
    #[verifier::external_body]
    fn to_value(o: geojson::GeoJson) -> Result<serde_json::Value, serde_json::Error> {
        serde_json::to_value(o)
    }

    /// Relies on `jsonseq::JsonSeqWriter::new` and
    /// `jsonseq::JsonSeqWriter::write_item`: the writer wraps the sink and
    /// holds no other state, and `write_item` serializes the value to bytes
    /// fully in memory, then writes the separator byte, the payload, and
    /// the line feed to the sink, reporting any failure as an I/O error.
    /// Serialized JSON escapes every control character, so the payload
    /// never contains the separator byte and the assertion inside
    /// `write_item` cannot fire.
    #[verifier::external_body]
    fn write_framed(sink: &mut W, v: &serde_json::Value) -> Result<(), std::io::Error> {
        jsonseq::JsonSeqWriter::new(sink).write_item(v)
    }

    /// Create from this writer
    pub fn new(inner: W) -> (r: Self)
        ensures
            r.handle() == inner,
    {
        GeoJsonSeqWriter { sink: inner }
    }

    /// Write a GeoJSON object to this, as one framed record.
    ///
    /// A failure to render the object to bytes is surfaced with the syntax
    /// kind and leaves the sink untouched: no delimiter is emitted without
    /// its payload. A failure of the underlying sink is surfaced with the
    /// I/O kind. The write path never judges GeoJSON validity, so the
    /// result is never of the semantic-validity kind.
    pub fn write_object(&mut self, o: geojson::GeoJson) -> (r: Result<(), Error>)
        ensures
            r matches Err(e) ==> (e is IOError || e is JsonError),
            (r matches Err(e) && e is JsonError) ==> *final(self) == *old(self),
    {
        let json_o = match Self::to_value(o) {
            Ok(v) => v,
            Err(e) => {
                return Err(Error::JsonError(e));
            },
        };
        match Self::write_framed(&mut self.sink, &json_o) {
            Ok(u) => Ok(u),
            Err(e) => Err(Error::IOError(e)),
        }
    }

    /// Reference to the inner `Write`
    pub fn get_ref(&self) -> (r: &W)
        ensures
            *r == self.handle(),
    {
        &self.sink
    }

    /// Mutable reference to the inner `Write`
    pub fn get_mut(&mut self) -> (r: &mut W)
        ensures
            *r == old(self).handle(),
            final(self).handle() == *final(r),
    {
        &mut self.sink
    }

    /// Consume & return the inner writer
    pub fn into_inner(self) -> (r: W)
        ensures
            r == self.handle(),
    {
        self.sink
    }
}

} // verus!
