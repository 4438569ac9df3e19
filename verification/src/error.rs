use vstd::prelude::*;

verus! {

/// A fatal condition raised during a conversion. Every condition aborts the
/// conversion immediately: either a complete converted output is produced or
/// none is.
#[derive(Debug, PartialEq, Eq)]
pub enum ConversionError {
    /// The file's key-value side-table has no `"geo"` entry with a value.
    MissingGeoMetadata,
    /// The `"geo"` entry's JSON payload could not be read as a geometry
    /// metadata document.
    MalformedGeoMetadata,
    /// The document's primary column has no entry in its `columns` mapping.
    UnknownPrimaryColumn,
    /// The primary column declares a single geometry-type label outside the
    /// recognized set.
    UnknownGeometryType,
    /// The primary column declares zero or more than one geometry-type label;
    /// mixed columns are not resolved.
    UnsupportedMixedGeometry,
    /// No field of the tabular schema is named like the primary column.
    PrimaryColumnNotInSchema,
    /// The primary column's data is not the expected binary-blob array.
    GeometryColumnTypeMismatch,
    /// A condition passed through from the container or geometry codec.
    External(String),
}

} // verus!
