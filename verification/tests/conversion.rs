use std::sync::Arc;

use arrow_array::{Array, BinaryArray, RecordBatch, StringArray};
use arrow_schema::{DataType, Field, Schema};
use parquet::arrow::arrow_writer::ArrowWriter;
use parquet::file::metadata::KeyValue;
use parquet::file::properties::WriterProperties;

use geoparquet2geoarrow::error::ConversionError;
use geoparquet2geoarrow::kinds::{resolve_label, GeometryKind};
use geoparquet2geoarrow::metadata::{infer_geometry_type, parse_geoparquet_metadata};
use geoparquet2geoarrow::pipeline::read_geoparquet;

fn geo_json(primary: &str, labels: &[&str]) -> String {
    let quoted: Vec<String> = labels.iter().map(|l| format!("\"{l}\"")).collect();
    let head = format!("{{\"version\":\"1.0.0\",\"primary_column\":\"{primary}\",");
    let col = format!(
        "\"columns\":{{\"{}\":{{\"encoding\":\"WKB\",\"geometry_types\":[{}],\"crs\":null,",
        primary,
        quoted.join(",")
    );
    let tail = "\"orientation\":\"counterclockwise\",\"edges\":\"planar\",\
                \"bbox\":[0.0,0.0,40.0,40.0],\"epoch\":2020}}}";
    format!("{head}{col}{tail}")
}

fn wkb_polygon(ring: &[(f64, f64)]) -> Vec<u8> {
    let mut b: Vec<u8> = Vec::new();
    b.push(1u8);
    b.extend_from_slice(&3u32.to_le_bytes());
    b.extend_from_slice(&1u32.to_le_bytes());
    b.extend_from_slice(&(ring.len() as u32).to_le_bytes());
    for (x, y) in ring {
        b.extend_from_slice(&x.to_le_bytes());
        b.extend_from_slice(&y.to_le_bytes());
    }
    b
}

fn wkb_point(x: f64, y: f64) -> Vec<u8> {
    let mut b: Vec<u8> = Vec::new();
    b.push(1u8);
    b.extend_from_slice(&1u32.to_le_bytes());
    b.extend_from_slice(&x.to_le_bytes());
    b.extend_from_slice(&y.to_le_bytes());
    b
}

fn make_geoparquet(geo: Option<&str>, names: &[&str], blobs: &[Option<Vec<u8>>]) -> Vec<u8> {
    let schema = Arc::new(Schema::new(vec![
        Field::new("name", DataType::Utf8, false),
        Field::new("geometry", DataType::Binary, true),
    ]));
    let name_arr = StringArray::from(names.to_vec());
    let blob_refs: Vec<Option<&[u8]>> = blobs.iter().map(|o| o.as_deref()).collect();
    let geom_arr = BinaryArray::from_opt_vec(blob_refs);
    let batch =
        RecordBatch::try_new(schema.clone(), vec![Arc::new(name_arr), Arc::new(geom_arr)]).unwrap();
    let mut props = WriterProperties::builder();
    if let Some(doc) = geo {
        props = props
            .set_key_value_metadata(Some(vec![KeyValue::new("geo".to_string(), doc.to_string())]));
    }
    let mut buf: Vec<u8> = Vec::new();
    let mut writer = ArrowWriter::try_new(&mut buf, schema, Some(props.build())).unwrap();
    writer.write(&batch).unwrap();
    writer.close().unwrap();
    buf
}

fn read_ipc(bytes: &[u8]) -> (Arc<Schema>, Vec<RecordBatch>) {
    let reader =
        arrow_ipc::reader::StreamReader::try_new(std::io::Cursor::new(bytes.to_vec()), None)
            .unwrap();
    let schema = reader.schema();
    let batches: Vec<RecordBatch> = reader.map(|b| b.unwrap()).collect();
    (schema, batches)
}

#[test]
fn resolve_label_recognizes_all_six_kinds() {
    assert_eq!(resolve_label(&"Point".to_string()), Ok(GeometryKind::Point));
    assert_eq!(resolve_label(&"LineString".to_string()), Ok(GeometryKind::LineString));
    assert_eq!(resolve_label(&"Polygon".to_string()), Ok(GeometryKind::Polygon));
    assert_eq!(resolve_label(&"MultiPoint".to_string()), Ok(GeometryKind::MultiPoint));
    assert_eq!(resolve_label(&"MultiLineString".to_string()), Ok(GeometryKind::MultiLineString));
    assert_eq!(resolve_label(&"MultiPolygon".to_string()), Ok(GeometryKind::MultiPolygon));
}

#[test]
fn resolve_label_is_case_sensitive_and_closed() {
    assert_eq!(resolve_label(&"Circle".to_string()), Err(ConversionError::UnknownGeometryType));
    assert_eq!(resolve_label(&"point".to_string()), Err(ConversionError::UnknownGeometryType));
    assert_eq!(resolve_label(&"".to_string()), Err(ConversionError::UnknownGeometryType));
}

#[test]
fn missing_geo_entry_is_fatal() {
    let kv: Vec<(String, Option<String>)> =
        vec![("writer".to_string(), Some("test".to_string()))];
    assert!(matches!(
        parse_geoparquet_metadata(&kv),
        Err(ConversionError::MissingGeoMetadata)
    ));
}

#[test]
fn geo_entry_without_value_is_fatal() {
    let kv: Vec<(String, Option<String>)> = vec![("geo".to_string(), None)];
    assert!(matches!(
        parse_geoparquet_metadata(&kv),
        Err(ConversionError::MissingGeoMetadata)
    ));
}

#[test]
fn malformed_geo_payload_is_fatal() {
    let kv: Vec<(String, Option<String>)> =
        vec![("geo".to_string(), Some("not a json document".to_string()))];
    assert!(matches!(
        parse_geoparquet_metadata(&kv),
        Err(ConversionError::MalformedGeoMetadata)
    ));
    let kv2: Vec<(String, Option<String>)> =
        vec![("geo".to_string(), Some("{\"version\":\"1.0.0\"}".to_string()))];
    assert!(matches!(
        parse_geoparquet_metadata(&kv2),
        Err(ConversionError::MalformedGeoMetadata)
    ));
}

#[test]
fn first_geo_entry_with_a_value_wins() {
    // An entry without a value is passed over; the first one with a value is
    // the payload, even when a later entry would also parse.
    let kv: Vec<(String, Option<String>)> = vec![
        ("geo".to_string(), None),
        ("geo".to_string(), Some(geo_json("geometry", &["Point"]))),
    ];
    assert!(parse_geoparquet_metadata(&kv).is_ok());
    let kv2: Vec<(String, Option<String>)> = vec![
        ("geo".to_string(), Some("{broken".to_string())),
        ("geo".to_string(), Some(geo_json("geometry", &["Point"]))),
    ];
    assert!(matches!(
        parse_geoparquet_metadata(&kv2),
        Err(ConversionError::MalformedGeoMetadata)
    ));
}

#[test]
fn parses_document_fields() {
    let kv: Vec<(String, Option<String>)> =
        vec![("geo".to_string(), Some(geo_json("geometry", &["Polygon"])))];
    let doc = parse_geoparquet_metadata(&kv).unwrap();
    assert_eq!(doc.version, "1.0.0");
    assert_eq!(doc.primary_column, "geometry");
    assert_eq!(doc.columns.len(), 1);
    assert_eq!(doc.columns[0].0, "geometry");
    let col = &doc.columns[0].1;
    assert_eq!(col.encoding, "WKB");
    assert_eq!(col.geometry_types, vec!["Polygon".to_string()]);
    assert_eq!(col.crs, None);
    assert_eq!(col.orientation, "counterclockwise");
    assert_eq!(col.edges, "planar");
    assert_eq!(col.bbox.len(), 4);
    assert_eq!(col.epoch, 2020);
}

#[test]
fn single_recognized_label_resolves() {
    let kv: Vec<(String, Option<String>)> =
        vec![("geo".to_string(), Some(geo_json("geometry", &["MultiPolygon"])))];
    let doc = parse_geoparquet_metadata(&kv).unwrap();
    assert_eq!(infer_geometry_type(&doc), Ok(GeometryKind::MultiPolygon));
}

#[test]
fn unknown_label_is_fatal() {
    let kv: Vec<(String, Option<String>)> =
        vec![("geo".to_string(), Some(geo_json("geometry", &["Circle"])))];
    let doc = parse_geoparquet_metadata(&kv).unwrap();
    assert_eq!(infer_geometry_type(&doc), Err(ConversionError::UnknownGeometryType));
}

#[test]
fn unknown_primary_column_is_fatal() {
    let kv: Vec<(String, Option<String>)> =
        vec![("geo".to_string(), Some(geo_json("geometry", &["Polygon"])))];
    let mut doc = parse_geoparquet_metadata(&kv).unwrap();
    doc.primary_column = "elsewhere".to_string();
    assert_eq!(infer_geometry_type(&doc), Err(ConversionError::UnknownPrimaryColumn));
}

#[test]
fn mixed_or_empty_label_sets_are_fatal() {
    let kv: Vec<(String, Option<String>)> = vec![(
        "geo".to_string(),
        Some(geo_json("geometry", &["Polygon", "MultiPolygon"])),
    )];
    let doc = parse_geoparquet_metadata(&kv).unwrap();
    assert_eq!(infer_geometry_type(&doc), Err(ConversionError::UnsupportedMixedGeometry));
    let kv2: Vec<(String, Option<String>)> =
        vec![("geo".to_string(), Some(geo_json("geometry", &[])))];
    let doc2 = parse_geoparquet_metadata(&kv2).unwrap();
    assert_eq!(infer_geometry_type(&doc2), Err(ConversionError::UnsupportedMixedGeometry));
}

#[test]
fn converts_polygons_end_to_end() {
    let ring1 = [(0.0, 0.0), (10.0, 0.0), (10.0, 10.0), (0.0, 10.0), (0.0, 0.0)];
    let ring2 = [(20.0, 20.0), (40.0, 20.0), (30.0, 35.0), (20.0, 20.0)];
    let blobs = vec![Some(wkb_polygon(&ring1)), Some(wkb_polygon(&ring2))];
    let file = make_geoparquet(
        Some(&geo_json("geometry", &["Polygon"])),
        &["a", "b"],
        &blobs,
    );
    let out = read_geoparquet(&file).unwrap();
    let (schema, batches) = read_ipc(&out);

    assert_eq!(schema.fields().len(), 2);
    assert_eq!(schema.field(0).name(), "name");
    assert_eq!(schema.field(1).name(), "geometry");
    assert_eq!(
        schema.field(1).metadata().get("ARROW:extension:name").map(|s| s.as_str()),
        Some("geoarrow.polygon")
    );

    assert_eq!(batches.len(), 1);
    let batch = &batches[0];
    assert_eq!(batch.num_rows(), 2);
    assert_eq!(batch.num_columns(), 2);

    let names = batch.column(0).as_any().downcast_ref::<StringArray>().unwrap();
    assert_eq!(names.value(0), "a");
    assert_eq!(names.value(1), "b");

    let poly = geoarrow::array::PolygonArray::try_from((
        batch.column(1).as_ref(),
        schema.field(1),
    ))
    .unwrap();
    let wkb_back: geoarrow::array::GenericWkbArray<i32> =
        geoarrow::array::to_wkb(&poly).unwrap();
    assert_eq!(wkb_back.inner().value(0), &wkb_polygon(&ring1)[..]);
    assert_eq!(wkb_back.inner().value(1), &wkb_polygon(&ring2)[..]);
}

#[test]
fn mixed_type_conversion_yields_no_output() {
    let ring = [(0.0, 0.0), (10.0, 0.0), (10.0, 10.0), (0.0, 0.0)];
    let blobs = vec![Some(wkb_polygon(&ring))];
    let file = make_geoparquet(
        Some(&geo_json("geometry", &["Polygon", "MultiPolygon"])),
        &["a"],
        &blobs,
    );
    assert_eq!(read_geoparquet(&file), Err(ConversionError::UnsupportedMixedGeometry));
}

#[test]
fn conversion_preserves_rows_columns_and_nulls() {
    let blobs = vec![
        Some(wkb_point(1.0, 2.0)),
        None,
        Some(wkb_point(3.0, 4.0)),
        None,
    ];
    let file = make_geoparquet(
        Some(&geo_json("geometry", &["Point"])),
        &["a", "b", "c", "d"],
        &blobs,
    );
    let out = read_geoparquet(&file).unwrap();
    let (schema, batches) = read_ipc(&out);
    assert_eq!(
        schema.field(1).metadata().get("ARROW:extension:name").map(|s| s.as_str()),
        Some("geoarrow.point")
    );
    assert_eq!(batches.len(), 1);
    let batch = &batches[0];
    assert_eq!(batch.num_rows(), 4);
    assert_eq!(batch.num_columns(), 2);
    let geom = batch.column(1);
    assert!(!geom.is_null(0));
    assert!(geom.is_null(1));
    assert!(!geom.is_null(2));
    assert!(geom.is_null(3));
    let names = batch.column(0);
    for i in 0..4 {
        assert!(!names.is_null(i));
    }
}

#[test]
fn file_without_geo_entry_fails_conversion() {
    let blobs = vec![Some(wkb_point(1.0, 2.0))];
    let file = make_geoparquet(None, &["a"], &blobs);
    assert_eq!(read_geoparquet(&file), Err(ConversionError::MissingGeoMetadata));
}

#[test]
fn file_with_unknown_label_fails_conversion() {
    let blobs = vec![Some(wkb_point(1.0, 2.0))];
    let file = make_geoparquet(Some(&geo_json("geometry", &["Circle"])), &["a"], &blobs);
    assert_eq!(read_geoparquet(&file), Err(ConversionError::UnknownGeometryType));
}

#[test]
fn primary_column_absent_from_schema_fails_conversion() {
    let blobs = vec![Some(wkb_point(1.0, 2.0))];
    let file = make_geoparquet(Some(&geo_json("shape", &["Point"])), &["a"], &blobs);
    // The document's primary column is "shape" and has a columns entry, but
    // the tabular schema only has "name" and "geometry".
    let mut doc_kv: Vec<(String, Option<String>)> = Vec::new();
    doc_kv.push(("geo".to_string(), Some(geo_json("shape", &["Point"]))));
    assert!(parse_geoparquet_metadata(&doc_kv).is_ok());
    assert_eq!(read_geoparquet(&file), Err(ConversionError::PrimaryColumnNotInSchema));
}

#[test]
fn converts_multipolygons_end_to_end() {
    let ring1 = [(0.0, 0.0), (10.0, 0.0), (10.0, 10.0), (0.0, 0.0)];
    let ring2 = [(20.0, 20.0), (40.0, 20.0), (30.0, 35.0), (20.0, 20.0)];
    let mut mp: Vec<u8> = Vec::new();
    mp.push(1u8);
    mp.extend_from_slice(&6u32.to_le_bytes());
    mp.extend_from_slice(&2u32.to_le_bytes());
    mp.extend_from_slice(&wkb_polygon(&ring1));
    mp.extend_from_slice(&wkb_polygon(&ring2));
    let blobs = vec![Some(mp.clone())];
    let file = make_geoparquet(Some(&geo_json("geometry", &["MultiPolygon"])), &["a"], &blobs);
    let out = read_geoparquet(&file).unwrap();
    let (schema, batches) = read_ipc(&out);
    assert_eq!(
        schema.field(1).metadata().get("ARROW:extension:name").map(|s| s.as_str()),
        Some("geoarrow.multipolygon")
    );
    let batch = &batches[0];
    assert_eq!(batch.num_rows(), 1);
    let arr = geoarrow::array::MultiPolygonArray::try_from((
        batch.column(1).as_ref(),
        schema.field(1),
    ))
    .unwrap();
    let wkb_back: geoarrow::array::GenericWkbArray<i32> =
        geoarrow::array::to_wkb(&arr).unwrap();
    assert_eq!(wkb_back.inner().value(0), &mp[..]);
}

#[test]
fn conversion_keeps_chunk_order_across_batches() {
    let n: usize = 2500;
    let names: Vec<String> = (0..n).map(|i| format!("r{i}")).collect();
    let name_refs: Vec<&str> = names.iter().map(|s| s.as_str()).collect();
    let blobs: Vec<Option<Vec<u8>>> = (0..n)
        .map(|i| {
            if i % 7 == 3 {
                None
            } else {
                Some(wkb_point(i as f64, (2 * i) as f64))
            }
        })
        .collect();
    let file = make_geoparquet(Some(&geo_json("geometry", &["Point"])), &name_refs, &blobs);
    let out = read_geoparquet(&file).unwrap();
    let (_schema, batches) = read_ipc(&out);
    assert!(batches.len() >= 2);
    let mut seen: Vec<String> = Vec::new();
    let mut nulls: Vec<bool> = Vec::new();
    for batch in &batches {
        assert_eq!(batch.num_columns(), 2);
        let col_names = batch.column(0).as_any().downcast_ref::<StringArray>().unwrap();
        for i in 0..batch.num_rows() {
            seen.push(col_names.value(i).to_string());
            nulls.push(batch.column(1).is_null(i));
        }
    }
    assert_eq!(seen, names);
    let expected_nulls: Vec<bool> = (0..n).map(|i| i % 7 == 3).collect();
    assert_eq!(nulls, expected_nulls);
}

#[test]
fn non_binary_geometry_column_fails_conversion() {
    // The document points at the Utf8 "name" column, which is in the schema
    // but holds no binary blobs.
    let blobs = vec![Some(wkb_point(1.0, 2.0))];
    let file = make_geoparquet(Some(&geo_json("name", &["Point"])), &["a"], &blobs);
    assert_eq!(read_geoparquet(&file), Err(ConversionError::GeometryColumnTypeMismatch));
}

#[test]
fn undecodable_blob_fails_conversion() {
    let blobs = vec![Some(vec![0xFFu8, 0x00, 0x01])];
    let file = make_geoparquet(Some(&geo_json("geometry", &["Point"])), &["a"], &blobs);
    assert!(matches!(read_geoparquet(&file), Err(ConversionError::External(_))));
}

#[test]
fn garbage_bytes_fail_conversion() {
    let r = read_geoparquet(&[0u8, 1, 2, 3]);
    assert!(matches!(r, Err(ConversionError::External(_))));
}
