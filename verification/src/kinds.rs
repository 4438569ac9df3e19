use vstd::prelude::*;

use crate::error::ConversionError;

verus! {

/// The closed set of geometry kinds a column can resolve to.
#[derive(Debug, Clone, Copy, PartialEq, Eq, Structural)]
pub enum GeometryKind {
    Point,
    LineString,
    Polygon,
    MultiPoint,
    MultiLineString,
    MultiPolygon,
}

/// The geometry kind that a declared geometry-type label denotes, if any.
/// Labels match case-sensitively against the six recognized names.
pub open spec fn kind_of_label(s: Seq<char>) -> Option<GeometryKind> {
    if s == "Point"@ {
        Some(GeometryKind::Point)
    } else if s == "LineString"@ {
        Some(GeometryKind::LineString)
    } else if s == "Polygon"@ {
        Some(GeometryKind::Polygon)
    } else if s == "MultiPoint"@ {
        Some(GeometryKind::MultiPoint)
    } else if s == "MultiLineString"@ {
        Some(GeometryKind::MultiLineString)
    } else if s == "MultiPolygon"@ {
        Some(GeometryKind::MultiPolygon)
    } else {
        None
    }
}

/// Resolve one declared geometry-type label to a geometry kind by exact,
/// case-sensitive match; an unrecognized label is a fatal condition.
pub fn resolve_label(label: &String) -> (r: Result<GeometryKind, ConversionError>)
    ensures
        match kind_of_label(label@) {
            Some(k) => r == Ok::<GeometryKind, ConversionError>(k),
            None => r == Err::<GeometryKind, ConversionError>(
                ConversionError::UnknownGeometryType,
            ),
        },
{
    if *label == String::from_str("Point") {
        Ok(GeometryKind::Point)
    } else if *label == String::from_str("LineString") {
        Ok(GeometryKind::LineString)
    } else if *label == String::from_str("Polygon") {
        Ok(GeometryKind::Polygon)
    } else if *label == String::from_str("MultiPoint") {
        Ok(GeometryKind::MultiPoint)
    } else if *label == String::from_str("MultiLineString") {
        Ok(GeometryKind::MultiLineString)
    } else if *label == String::from_str("MultiPolygon") {
        Ok(GeometryKind::MultiPolygon)
    } else {
        Err(ConversionError::UnknownGeometryType)
    }
}

} // verus!
