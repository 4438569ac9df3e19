//! The geometry metadata model: the `"geo"` document embedded in the file's
//! key-value side-table, and the resolution of the primary column's declared
//! geometry kind.
//!
//! What a payload text parses to is written down once, as the spec functions
//! `spec_parse_column` and `spec_parse_document` over the named results of
//! the JSON codec; the executable parsers are proved to return exactly that.

use vstd::prelude::*;

use crate::error::ConversionError;
use crate::json::{
    json_array_of, json_as_array, json_as_i64, json_as_str, json_entries_of, json_get,
    json_i64_of, json_is_null, json_is_null_v, json_is_number, json_is_number_v,
    json_member_of, json_object_entries, json_parse, json_str_of, json_text, json_text_of,
    json_value_of,
};
use crate::kinds::{kind_of_label, GeometryKind};

verus! {

/// Geometry metadata declared for one column. `crs` and `bbox` are carried
/// through as uninterpreted JSON text; nothing here reads their values.
pub struct GeoParquetColumnMetadata {
    pub encoding: String,
    pub geometry_types: Vec<String>,
    pub crs: Option<String>,
    pub orientation: String,
    pub edges: String,
    pub bbox: Vec<String>,
    pub epoch: i64,
}

/// The geometry metadata document parsed once per file.
pub struct GeoParquetMetadata {
    pub version: String,
    pub primary_column: String,
    pub columns: Vec<(String, GeoParquetColumnMetadata)>,
}

/// The mathematical content of one column's metadata.
#[verifier::ext_equal]
pub ghost struct GeoColumnView {
    pub encoding: Seq<char>,
    pub geometry_types: Seq<Seq<char>>,
    pub crs: Option<Seq<char>>,
    pub orientation: Seq<char>,
    pub edges: Seq<char>,
    pub bbox: Seq<Seq<char>>,
    pub epoch: i64,
}

/// The mathematical content of the document.
#[verifier::ext_equal]
pub ghost struct GeoDocView {
    pub version: Seq<char>,
    pub primary_column: Seq<char>,
    pub columns: Seq<(Seq<char>, GeoColumnView)>,
}

/// The content of a parsed column value.
pub open spec fn column_view(c: GeoParquetColumnMetadata) -> GeoColumnView {
    GeoColumnView {
        encoding: c.encoding@,
        geometry_types: c.geometry_types@.map_values(|s: String| s@),
        crs: match c.crs {
            Some(s) => Some(s@),
            None => None,
        },
        orientation: c.orientation@,
        edges: c.edges@,
        bbox: c.bbox@.map_values(|s: String| s@),
        epoch: c.epoch,
    }
}

/// The content of a parsed document value.
pub open spec fn doc_view(m: GeoParquetMetadata) -> GeoDocView {
    GeoDocView {
        version: m.version@,
        primary_column: m.primary_column@,
        columns: m.columns@.map_values(
            |p: (String, GeoParquetColumnMetadata)| (p.0@, column_view(p.1)),
        ),
    }
}

/// Whether every element of a JSON array is a string.
pub open spec fn all_strings(items: Seq<serde_json::Value>) -> bool {
    forall|j: int| 0 <= j < items.len() ==> json_str_of(#[trigger] items[j]) is Some
}

/// Whether every element of a JSON array is a number.
pub open spec fn all_numbers(items: Seq<serde_json::Value>) -> bool {
    forall|j: int| 0 <= j < items.len() ==> json_is_number_v(#[trigger] items[j])
}

/// What one member of the document's `columns` object parses to, if
/// anything: `encoding`, `orientation` and `edges` must be strings,
/// `geometry_types` an array of strings, `bbox` an array of numbers carried
/// through as text, `epoch` an integer, and `crs` is optional, carried
/// through as text when present and not null.
pub open spec fn spec_parse_column(v: serde_json::Value) -> Option<GeoColumnView> {
    match json_member_of(v, "encoding"@) {
        None => None,
        Some(ev) => match json_str_of(ev) {
            None => None,
            Some(encoding) => match json_member_of(v, "geometry_types"@) {
                None => None,
                Some(gv) => match json_array_of(gv) {
                    None => None,
                    Some(gitems) => if !all_strings(gitems) {
                        None
                    } else {
                        let crs = match json_member_of(v, "crs"@) {
                            None => None,
                            Some(cv) => if json_is_null_v(cv) {
                                None
                            } else {
                                Some(json_text_of(cv))
                            },
                        };
                        match json_member_of(v, "orientation"@) {
                            None => None,
                            Some(ov) => match json_str_of(ov) {
                                None => None,
                                Some(orientation) => match json_member_of(v, "edges"@) {
                                    None => None,
                                    Some(edv) => match json_str_of(edv) {
                                        None => None,
                                        Some(edges) => match json_member_of(v, "bbox"@) {
                                            None => None,
                                            Some(bv) => match json_array_of(bv) {
                                                None => None,
                                                Some(bitems) => if !all_numbers(bitems) {
                                                    None
                                                } else {
                                                    match json_member_of(v, "epoch"@) {
                                                        None => None,
                                                        Some(epv) => match json_i64_of(epv) {
                                                            None => None,
                                                            Some(epoch) => Some(
                                                                GeoColumnView {
                                                                    encoding,
                                                                    geometry_types: gitems.map_values(
                                                                        |x: serde_json::Value| json_str_of(x).unwrap(),
                                                                    ),
                                                                    crs,
                                                                    orientation,
                                                                    edges,
                                                                    bbox: bitems.map_values(
                                                                        |x: serde_json::Value| json_text_of(x),
                                                                    ),
                                                                    epoch,
                                                                },
                                                            ),
                                                        },
                                                    }
                                                },
                                            },
                                        },
                                    },
                                },
                            },
                        }
                    },
                },
            },
        },
    }
}

/// Whether every member of the `columns` object parses as a column.
pub open spec fn all_columns_parse(entries: Seq<(String, serde_json::Value)>) -> bool {
    forall|j: int|
        0 <= j < entries.len() ==> spec_parse_column(
            (#[trigger] entries[j]).1,
        ) is Some
}

/// What a payload text parses to, if anything: a JSON object with string
/// `version` and `primary_column` members and a `columns` object whose every
/// member parses as a column, in the object's order.
pub open spec fn spec_parse_document(s: Seq<char>) -> Option<GeoDocView> {
    match json_value_of(s) {
        None => None,
        Some(root) => match json_member_of(root, "version"@) {
            None => None,
            Some(vv) => match json_str_of(vv) {
                None => None,
                Some(version) => match json_member_of(root, "primary_column"@) {
                    None => None,
                    Some(pv) => match json_str_of(pv) {
                        None => None,
                        Some(primary_column) => match json_member_of(root, "columns"@) {
                            None => None,
                            Some(cv) => match json_entries_of(cv) {
                                None => None,
                                Some(entries) => if !all_columns_parse(entries) {
                                    None
                                } else {
                                    Some(
                                        GeoDocView {
                                            version,
                                            primary_column,
                                            columns: entries.map_values(
                                                |p: (String, serde_json::Value)| (
                                                    p.0@,
                                                    spec_parse_column(p.1).unwrap(),
                                                ),
                                            ),
                                        },
                                    )
                                },
                            },
                        },
                    },
                },
            },
        },
    }
}

/// Whether the key-value side-table holds a `"geo"` entry with a value.
pub open spec fn has_geo_payload(kv: Seq<(String, Option<String>)>) -> bool {
    exists|i: int| 0 <= i < kv.len() && kv[i].0@ == "geo"@ && kv[i].1 is Some
}

/// The payload of the first `"geo"` entry with a value.
pub open spec fn first_geo_payload(kv: Seq<(String, Option<String>)>) -> Seq<char>
    decreases kv.len(),
{
    if kv.len() == 0 {
        Seq::empty()
    } else if kv[0].0@ == "geo"@ && kv[0].1 is Some {
        kv[0].1.unwrap()@
    } else {
        first_geo_payload(kv.drop_first())
    }
}

/// Parse one member of the document's `columns` object.
#[verifier::loop_isolation(false)]
fn parse_column_metadata(v: &serde_json::Value) -> (r: Result<
    GeoParquetColumnMetadata,
    ConversionError,
>)
    ensures
        match spec_parse_column(*v) {
            Some(cv) => r matches Ok(c) && column_view(c) == cv,
            None => r == Err::<GeoParquetColumnMetadata, ConversionError>(
                ConversionError::MalformedGeoMetadata,
            ),
        },
{
    let encoding = match json_get(v, "encoding") {
        Some(x) => match json_as_str(x) {
            Some(s) => s,
            None => { return Err(ConversionError::MalformedGeoMetadata) },
        },
        None => { return Err(ConversionError::MalformedGeoMetadata) },
    };
    let gt_items = match json_get(v, "geometry_types") {
        Some(x) => match json_as_array(x) {
            Some(a) => a,
            None => { return Err(ConversionError::MalformedGeoMetadata) },
        },
        None => { return Err(ConversionError::MalformedGeoMetadata) },
    };
    let mut geometry_types: Vec<String> = Vec::new();
    let mut k: usize = 0;
    while k < gt_items.len()
        invariant
            k <= gt_items@.len(),
            geometry_types@.len() == k,
            forall|j: int| 0 <= j < k ==> json_str_of(#[trigger] gt_items@[j]) is Some,
            forall|j: int|
                0 <= j < k ==> (#[trigger] geometry_types@[j])@ == json_str_of(
                    gt_items@[j],
                ).unwrap(),
        decreases gt_items@.len() - k,
    {
        match json_as_str(&gt_items[k]) {
            Some(s) => geometry_types.push(s),
            None => { return Err(ConversionError::MalformedGeoMetadata) },
        }
        k += 1;
    }
    let crs = match json_get(v, "crs") {
        Some(c) => if json_is_null(c) {
            None
        } else {
            Some(json_text(c))
        },
        None => None,
    };
    let orientation = match json_get(v, "orientation") {
        Some(x) => match json_as_str(x) {
            Some(s) => s,
            None => { return Err(ConversionError::MalformedGeoMetadata) },
        },
        None => { return Err(ConversionError::MalformedGeoMetadata) },
    };
    let edges = match json_get(v, "edges") {
        Some(x) => match json_as_str(x) {
            Some(s) => s,
            None => { return Err(ConversionError::MalformedGeoMetadata) },
        },
        None => { return Err(ConversionError::MalformedGeoMetadata) },
    };
    let bbox_items = match json_get(v, "bbox") {
        Some(x) => match json_as_array(x) {
            Some(a) => a,
            None => { return Err(ConversionError::MalformedGeoMetadata) },
        },
        None => { return Err(ConversionError::MalformedGeoMetadata) },
    };
    let mut bbox: Vec<String> = Vec::new();
    let mut b: usize = 0;
    while b < bbox_items.len()
        invariant
            b <= bbox_items@.len(),
            bbox@.len() == b,
            forall|j: int| 0 <= j < b ==> json_is_number_v(#[trigger] bbox_items@[j]),
            forall|j: int|
                0 <= j < b ==> (#[trigger] bbox@[j])@ == json_text_of(bbox_items@[j]),
        decreases bbox_items@.len() - b,
    {
        if json_is_number(&bbox_items[b]) {
            bbox.push(json_text(&bbox_items[b]));
        } else {
            return Err(ConversionError::MalformedGeoMetadata);
        }
        b += 1;
    }
    let epoch = match json_get(v, "epoch") {
        Some(x) => match json_as_i64(x) {
            Some(n) => n,
            None => { return Err(ConversionError::MalformedGeoMetadata) },
        },
        None => { return Err(ConversionError::MalformedGeoMetadata) },
    };
    let c = GeoParquetColumnMetadata {
        encoding,
        geometry_types,
        crs,
        orientation,
        edges,
        bbox,
        epoch,
    };
    proof {
        assert(c.geometry_types@.map_values(|s: String| s@) =~= gt_items@.map_values(
            |x: serde_json::Value| json_str_of(x).unwrap(),
        ));
        assert(c.bbox@.map_values(|s: String| s@) =~= bbox_items@.map_values(
            |x: serde_json::Value| json_text_of(x),
        ));
        assert(column_view(c) =~= spec_parse_column(*v).unwrap());
    }
    Ok(c)
}

/// Deserialize the `"geo"` entry's JSON payload into the document structure:
/// the result is exactly what `spec_parse_document` says the text parses to,
/// and a payload it refuses is the one malformed-metadata condition.
#[verifier::loop_isolation(false)]
pub fn parse_geoparquet_document(payload: &String) -> (r: Result<
    GeoParquetMetadata,
    ConversionError,
>)
    ensures
        match spec_parse_document(payload@) {
            Some(dv) => r matches Ok(d) && doc_view(d) == dv,
            None => r == Err::<GeoParquetMetadata, ConversionError>(
                ConversionError::MalformedGeoMetadata,
            ),
        },
{
    let parsed = match json_parse(payload.as_str()) {
        Some(v) => v,
        None => { return Err(ConversionError::MalformedGeoMetadata) },
    };
    let version = match json_get(&parsed, "version") {
        Some(x) => match json_as_str(x) {
            Some(s) => s,
            None => { return Err(ConversionError::MalformedGeoMetadata) },
        },
        None => { return Err(ConversionError::MalformedGeoMetadata) },
    };
    let primary_column = match json_get(&parsed, "primary_column") {
        Some(x) => match json_as_str(x) {
            Some(s) => s,
            None => { return Err(ConversionError::MalformedGeoMetadata) },
        },
        None => { return Err(ConversionError::MalformedGeoMetadata) },
    };
    let entries = match json_get(&parsed, "columns") {
        Some(x) => match json_object_entries(x) {
            Some(m) => m,
            None => { return Err(ConversionError::MalformedGeoMetadata) },
        },
        None => { return Err(ConversionError::MalformedGeoMetadata) },
    };
    let mut columns: Vec<(String, GeoParquetColumnMetadata)> = Vec::new();
    let mut k: usize = 0;
    while k < entries.len()
        invariant
            k <= entries@.len(),
            columns@.len() == k,
            forall|j: int|
                0 <= j < k ==> spec_parse_column((#[trigger] entries@[j]).1) is Some,
            forall|j: int|
                0 <= j < k ==> (#[trigger] columns@[j]).0@ == entries@[j].0@ && column_view(
                    columns@[j].1,
                ) == spec_parse_column(entries@[j].1).unwrap(),
        decreases entries@.len() - k,
    {
        let name = entries[k].0.clone();
        match parse_column_metadata(&entries[k].1) {
            Ok(c) => columns.push((name, c)),
            Err(_) => { return Err(ConversionError::MalformedGeoMetadata) },
        }
        k += 1;
    }
    let d = GeoParquetMetadata { version, primary_column, columns };
    proof {
        assert(d.columns@.map_values(
            |p: (String, GeoParquetColumnMetadata)| (p.0@, column_view(p.1)),
        ) =~= entries@.map_values(
            |p: (String, serde_json::Value)| (p.0@, spec_parse_column(p.1).unwrap()),
        ));
        assert(doc_view(d) =~= spec_parse_document(payload@).unwrap());
    }
    Ok(d)
}

/// Locate the `"geo"` entry of the key-value side-table and deserialize its
/// payload. A table without such an entry is the missing-metadata condition,
/// exactly then; otherwise the result is the parse of the first valued
/// `"geo"` payload.
#[verifier::loop_isolation(false)]
pub fn parse_geoparquet_metadata(kv: &Vec<(String, Option<String>)>) -> (r: Result<
    GeoParquetMetadata,
    ConversionError,
>)
    ensures
        (r == Err::<GeoParquetMetadata, ConversionError>(ConversionError::MissingGeoMetadata))
            <==> !has_geo_payload(kv@),
        has_geo_payload(kv@) ==> match spec_parse_document(first_geo_payload(kv@)) {
            Some(dv) => r matches Ok(d) && doc_view(d) == dv,
            None => r == Err::<GeoParquetMetadata, ConversionError>(
                ConversionError::MalformedGeoMetadata,
            ),
        },
{
    let mut i: usize = 0;
    assert(kv@.skip(0) =~= kv@);
    while i < kv.len()
        invariant
            i <= kv@.len(),
            forall|j: int| 0 <= j < i ==> !((#[trigger] kv@[j]).0@ == "geo"@ && kv@[j].1 is Some),
            first_geo_payload(kv@) == first_geo_payload(kv@.skip(i as int)),
        decreases kv@.len() - i,
    {
        if kv[i].0 == String::from_str("geo") {
            match &kv[i].1 {
                Some(payload) => {
                    proof {
                        assert(has_geo_payload(kv@));
                        assert(kv@.skip(i as int).len() == kv@.len() - i);
                        assert(kv@.skip(i as int)[0] == kv@[i as int]);
                        assert(first_geo_payload(kv@) == payload@);
                    }
                    return parse_geoparquet_document(payload);
                },
                None => {},
            }
        }
        proof {
            assert(kv@.skip(i as int)[0] == kv@[i as int]);
            assert(kv@.skip(i as int).drop_first() =~= kv@.skip(i + 1));
        }
        i += 1;
    }
    Err(ConversionError::MissingGeoMetadata)
}

/// The column entry that the document declares under `name`, first match.
pub open spec fn find_column(
    cols: Seq<(Seq<char>, GeoColumnView)>,
    name: Seq<char>,
) -> Option<GeoColumnView>
    decreases cols.len(),
{
    if cols.len() == 0 {
        None
    } else if cols[0].0 == name {
        Some(cols[0].1)
    } else {
        find_column(cols.drop_first(), name)
    }
}

/// What resolving the document's primary column yields: its declared column
/// entry must exist, must declare exactly one geometry-type label, and that
/// label must be recognized.
pub open spec fn resolution_of(dv: GeoDocView) -> Result<GeometryKind, ConversionError> {
    match find_column(dv.columns, dv.primary_column) {
        None => Err(ConversionError::UnknownPrimaryColumn),
        Some(c) => if c.geometry_types.len() == 1 {
            match kind_of_label(c.geometry_types[0]) {
                Some(k) => Ok(k),
                None => Err(ConversionError::UnknownGeometryType),
            }
        } else {
            Err(ConversionError::UnsupportedMixedGeometry)
        },
    }
}

/// If the primary column's entry declares exactly one recognized label, the
/// resolution yields that label's kind and nothing else.
pub proof fn lemma_single_recognized_label_resolves(dv: GeoDocView, k: GeometryKind)
    requires
        find_column(dv.columns, dv.primary_column) matches Some(c) && c.geometry_types.len() == 1
            && kind_of_label(c.geometry_types[0]) == Some(k),
    ensures
        resolution_of(dv) == Ok::<GeometryKind, ConversionError>(k),
{
}

/// Resolve the declared geometry kind of the document's primary column.
#[verifier::loop_isolation(false)]
pub fn infer_geometry_type(meta: &GeoParquetMetadata) -> (r: Result<
    GeometryKind,
    ConversionError,
>)
    ensures
        r == resolution_of(doc_view(*meta)),
{
    let cols = &meta.columns;
    let ghost vcols = doc_view(*meta).columns;
    assert(vcols.skip(0) =~= vcols);
    let mut i: usize = 0;
    while i < cols.len()
        invariant
            cols@ == meta.columns@,
            vcols == doc_view(*meta).columns,
            vcols.len() == cols@.len(),
            i <= cols@.len(),
            forall|j: int| 0 <= j < i ==> (#[trigger] vcols[j]).0 != meta.primary_column@,
            find_column(vcols, meta.primary_column@) == find_column(
                vcols.skip(i as int),
                meta.primary_column@,
            ),
        decreases cols@.len() - i,
    {
        proof {
            assert(vcols[i as int] == (cols@[i as int].0@, column_view(cols@[i as int].1)));
        }
        if cols[i].0 == meta.primary_column {
            let gt = &cols[i].1.geometry_types;
            proof {
                assert(vcols.skip(i as int).len() == vcols.len() - i);
                assert(vcols.skip(i as int)[0] == vcols[i as int]);
                assert(find_column(vcols, meta.primary_column@) == Some(vcols[i as int].1));
            }
            if gt.len() == 1 {
                return crate::kinds::resolve_label(&gt[0]);
            } else {
                return Err(ConversionError::UnsupportedMixedGeometry);
            }
        }
        proof {
            assert(vcols.skip(i as int)[0] == vcols[i as int]);
            assert(vcols.skip(i as int).drop_first() =~= vcols.skip(i + 1));
        }
        i += 1;
    }
    assert(vcols.skip(i as int) =~= Seq::<(Seq<char>, GeoColumnView)>::empty());
    Err(ConversionError::UnknownPrimaryColumn)
}

} // verus!
