use geojson::{Feature, GeoJson, Geometry, Value};
use geojsonseq::{Error, GeoJsonSeqReader};
use std::io::Cursor;

fn collect_items(input: Vec<u8>) -> Result<Vec<GeoJson>, Error> {
    let mut rdr = GeoJsonSeqReader::new(Cursor::new(input));
    let mut items: Vec<GeoJson> = Vec::new();
    loop {
        match rdr.next_item() {
            Ok(Some(o)) => items.push(o),
            Ok(None) => return Ok(items),
            Err(e) => return Err(e),
        }
    }
}

fn point_feature(x: f64, y: f64) -> GeoJson {
    GeoJson::Feature(Feature {
        bbox: None,
        geometry: Some(Geometry::new(Value::Point(vec![x, y]))),
        id: None,
        properties: Some(serde_json::Map::new()),
        foreign_members: None,
    })
}

#[test]
fn empty1() {
    let input: Vec<u8> = vec![];
    assert_eq!(collect_items(input).unwrap(), vec![]);
}

#[test]
fn empty2() {
    let input: Vec<u8> = vec![0x1e, 0x1e];
    assert_eq!(collect_items(input).unwrap(), vec![]);
}

#[test]
fn basic1() {
    let mut input: Vec<u8> = vec![0x1e];
    input.extend(
        r#"{"type":"Feature", "properties":{}, "geometry":{"type":"Point", "coordinates":[0, 0]}}"#
            .bytes(),
    );
    input.push(0x0a);
    assert_eq!(collect_items(input).unwrap(), vec![point_feature(0., 0.)]);
}

#[test]
fn basic2() {
    let mut input: Vec<u8> = vec![0x1e];
    input.extend(
        r#"{"type":"Feature", "properties":{}, "geometry":{"type":"Point", "coordinates":[0, 0]}}"#
            .bytes(),
    );
    input.push(0x0a);
    input.push(0x1e);
    input.extend(
        r#"{"type":"Feature", "properties":{}, "geometry":{"type":"Point", "coordinates":[10, 10]}}"#
            .bytes(),
    );
    input.push(0x0a);
    assert_eq!(
        collect_items(input).unwrap(),
        vec![point_feature(0., 0.), point_feature(10., 10.)]
    );
}

#[test]
fn basic3() {
    let mut input: Vec<u8> = vec![0x1e];
    input.extend(
        r#"{"type":"Feature", "properties":{}, "geometry":{"type":"Point", "coordinates":[0, 0]}}"#
            .bytes(),
    );
    assert_eq!(collect_items(input).unwrap(), vec![point_feature(0., 0.)]);
}

#[test]
fn error1() {
    let input: Vec<u8> = vec![0x1e, '{' as u8];
    let output = collect_items(input);
    assert!(matches!(output, Err(Error::JsonError { .. })));
}

#[test]
fn error2() {
    let input: Vec<u8> = vec![0x1e, '{' as u8, '}' as u8];
    let output = collect_items(input);
    assert!(matches!(output, Err(Error::GeoJsonError { .. })));
}

#[test]
fn exhaustion_is_idempotent() {
    let input: Vec<u8> = vec![0x1e, 0x1e];
    let mut rdr = GeoJsonSeqReader::new(Cursor::new(input));
    assert!(rdr.next_item().unwrap().is_none());
    assert!(rdr.next_item().unwrap().is_none());
    assert!(rdr.next_item().unwrap().is_none());
}

#[test]
fn reading_continues_after_bad_record() {
    let mut input: Vec<u8> = vec![0x1e, '{' as u8];
    input.push(0x1e);
    input.extend(
        r#"{"type":"Feature", "properties":{}, "geometry":{"type":"Point", "coordinates":[0, 0]}}"#
            .bytes(),
    );
    input.push(0x0a);
    let mut rdr = GeoJsonSeqReader::new(Cursor::new(input));
    assert!(matches!(rdr.next_item(), Err(Error::JsonError { .. })));
    assert_eq!(rdr.next_item().unwrap().unwrap(), point_feature(0., 0.));
    assert_eq!(rdr.next_item().unwrap(), None);
}

struct BrokenPipe;

impl std::io::Read for BrokenPipe {
    fn read(&mut self, _buf: &mut [u8]) -> std::io::Result<usize> {
        Err(std::io::Error::new(std::io::ErrorKind::BrokenPipe, "pipe closed"))
    }
}

#[test]
fn transport_failure_is_io_kind() {
    let mut rdr = GeoJsonSeqReader::new(BrokenPipe);
    let output = rdr.next_item();
    assert!(matches!(output, Err(Error::IOError { .. })));
}

#[test]
fn error_messages_name_the_kind() {
    let mut rdr = GeoJsonSeqReader::new(BrokenPipe);
    let io_err = rdr.next_item().unwrap_err();
    assert_eq!(io_err.message(), "I/O Error from the underlying `Read`");

    let syntax_err = collect_items(vec![0x1e, '{' as u8]).unwrap_err();
    assert_eq!(
        syntax_err.message(),
        "Data was read OK, but there was a problem parsing as JSON"
    );

    let validity_err = collect_items(vec![0x1e, '{' as u8, '}' as u8]).unwrap_err();
    assert_eq!(
        validity_err.message(),
        "Valid JSON as read, but not valid as a GeoJSON object"
    );
}
