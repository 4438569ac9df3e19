//! Conversion of GeoParquet files into GeoArrow.
//!
//! A GeoParquet file is a Parquet file whose key-value side-table carries a
//! `"geo"` entry: a JSON document naming a primary geometry column whose rows
//! are WKB blobs. This crate parses that document, resolves the declared
//! geometry kind, locates the primary column in the Arrow schema, patches the
//! schema with the matching GeoArrow extension type, and rewrites each record
//! batch so the blob column becomes a typed geometry column, leaving every
//! other column untouched. The result is returned as an Arrow IPC stream.

pub mod chunk;
pub mod container;
pub mod error;
pub mod json;
pub mod kinds;
pub mod metadata;
pub mod pipeline;
pub mod schema;
