//! The conversion pipeline: read the file's metadata, resolve the primary
//! geometry column's kind, patch the schema, transform every chunk, and
//! return the converted stream. Any fatal condition aborts the whole
//! conversion; no partial output is produced, each typed condition is tied
//! to the named content of the file that raises it, and a successful
//! output is the IPC encoding of the file's transformed batch stream.

use vstd::prelude::*;

use crate::chunk::{parse_wkb_to_geoarrow, transformed_batch_of};
use crate::container::{
    batch_encodes_ok, file_batches_of, file_decodes_ok, file_schema_fields_of,
    file_schema_names_of, file_schema_of, infer_arrow_schema, ipc_schema_ok, ipc_stream_bytes_of,
    kv_table_of, next_batch, open_batch_reader, parquet_readable, read_key_value_metadata,
    sink_batches, sink_schema_of, stream_batches, stream_ok, IpcStreamSink,
};
use crate::error::ConversionError;
use crate::kinds::GeometryKind;
use crate::metadata::{
    first_geo_payload, has_geo_payload, infer_geometry_type, parse_geoparquet_metadata,
    resolution_of, spec_parse_document, GeoDocView,
};
use crate::schema::{
    extension_type_of, field_geo_kind_of, field_name_of, geo_kind_of, geoarrow_type_of,
    geometry_field_of, lemma_patched_names_preserved, locate_primary_column, patch_fields,
    schema_field_names_of, schema_fields, schema_fields_of, schema_from_fields,
    schema_with_fields_of, GeoExtensionType, TableSchema,
};

verus! {

/// The geometry metadata document a file carries: the parse of the first
/// valued `"geo"` payload of its key-value side-table.
pub open spec fn file_doc(bytes: Seq<u8>) -> Option<GeoDocView> {
    spec_parse_document(first_geo_payload(kv_table_of(bytes)))
}

/// Whether the document's primary column names a field of the file's
/// inferred schema.
pub open spec fn primary_in_file_schema(bytes: Seq<u8>, dv: GeoDocView) -> bool {
    exists|j: int|
        0 <= j < file_schema_names_of(bytes).len() && file_schema_names_of(bytes)[j]
            == dv.primary_column
}

/// The revised schema the conversion builds when the primary column stands
/// at position `i`: the file's inferred fields with the field at `i`
/// replaced by its geometry-typed revision.
pub open spec fn revised_schema_spec(pf: Seq<u8>, i: int, t: GeoExtensionType) -> TableSchema {
    schema_with_fields_of(
        file_schema_of(pf),
        file_schema_fields_of(pf).update(
            i,
            geometry_field_of(file_schema_fields_of(pf)[i], t),
        ),
    )
}

/// Everything a successful conversion of the file `pf` depends on, for the
/// resolved kind `k` and primary position `i`: `i` is the first position
/// named like the document's primary column, the IPC writer accepts the
/// revised schema, the file's batch stream decodes, and every batch both
/// transforms and encodes.
#[verifier::opaque]
pub open spec fn conversion_succeeds(pf: Seq<u8>, dv: GeoDocView, k: GeometryKind, i: int) -> bool {
    let t = extension_type_of(k);
    let s = revised_schema_spec(pf, i, t);
    &&& 0 <= i < file_schema_names_of(pf).len()
    &&& file_schema_names_of(pf)[i] == dv.primary_column
    &&& forall|j: int| 0 <= j < i ==> file_schema_names_of(pf)[j] != dv.primary_column
    &&& ipc_schema_ok(s)
    &&& file_decodes_ok(pf)
    &&& forall|j: int|
        0 <= j < file_batches_of(pf).len() ==> ((#[trigger] transformed_batch_of(
            s,
            file_batches_of(pf)[j],
            i,
            t,
        )) matches Some(nb) && batch_encodes_ok(s, nb))
}

/// One complete account of a successful conversion of the file `pf`
/// carrying the document `dv`: the extension type `t` is the one built for
/// the resolved kind; `i` is the first position where the schema names the
/// primary column; the revised schema `s` is the file's inferred schema
/// with the field at `i` revised — it declares the file's field names, the
/// primary column's name at `i`, and the resolved kind's extension type
/// there; every batch of the file's stream transforms under `s`, `i` and
/// `t`; and the output is the IPC encoding of that transformed stream
/// under `s`. These conditions determine `s`, `i` and `t`, so the output
/// bytes are a function of the file.
#[verifier::opaque]
pub open spec fn conversion_witness(
    pf: Seq<u8>,
    dv: GeoDocView,
    out: Seq<u8>,
    s: TableSchema,
    i: int,
    t: GeoExtensionType,
) -> bool {
    &&& resolution_of(dv) == Ok::<GeometryKind, ConversionError>(geo_kind_of(t))
    &&& t == extension_type_of(geo_kind_of(t))
    &&& 0 <= i < file_schema_names_of(pf).len()
    &&& file_schema_names_of(pf)[i] == dv.primary_column
    &&& forall|j: int| 0 <= j < i ==> file_schema_names_of(pf)[j] != dv.primary_column
    &&& s == revised_schema_spec(pf, i, t)
    &&& schema_field_names_of(s) == file_schema_names_of(pf)
    &&& schema_fields_of(s).len() == file_schema_fields_of(pf).len()
    &&& forall|k: int|
        0 <= k < schema_fields_of(s).len() && k != i ==> #[trigger] schema_fields_of(s)[k]
            == file_schema_fields_of(pf)[k]
    &&& field_name_of(schema_fields_of(s)[i]) == dv.primary_column
    &&& field_geo_kind_of(schema_fields_of(s)[i]) == Some(geo_kind_of(t))
    &&& forall|j: int|
        0 <= j < file_batches_of(pf).len() ==> transformed_batch_of(
            s,
            #[trigger] file_batches_of(pf)[j],
            i,
            t,
        ) is Some
    &&& out == ipc_stream_bytes_of(
        s,
        Seq::new(
            file_batches_of(pf).len(),
            |j: int| transformed_batch_of(s, file_batches_of(pf)[j], i, t).unwrap(),
        ),
    )
}

/// Whether `out` is a correctly converted output for the file `pf`: some
/// revised schema, column position and extension type account for it.
#[verifier::opaque]
pub open spec fn converted_output(pf: Seq<u8>, out: Seq<u8>) -> bool {
    match file_doc(pf) {
        Some(dv) => exists|s: TableSchema, i: int, t: GeoExtensionType|
            conversion_witness(pf, dv, out, s, i, t),
        None => false,
    }
}

/// Convert a complete in-memory GeoParquet file into an Arrow IPC stream
/// whose primary geometry column is a typed GeoArrow array. Either a
/// complete converted output is returned or a single fatal condition. On a
/// readable file, each typed condition is pinned to the file's content: no
/// valued `"geo"` entry, a payload the document grammar refuses, a
/// resolution failure of the declared labels, or a primary column absent
/// from the schema — in that order; and a successful output is accounted
/// for, batch by batch, by `conversion_witness`.
#[verifier::loop_isolation(false)]
#[verifier::rlimit(100)]
pub fn read_geoparquet(parquet_file: &[u8]) -> (r: Result<Vec<u8>, ConversionError>)
    ensures
        parquet_readable(parquet_file@) && !has_geo_payload(kv_table_of(parquet_file@)) ==> r
            == Err::<Vec<u8>, ConversionError>(ConversionError::MissingGeoMetadata),
        r == Err::<Vec<u8>, ConversionError>(ConversionError::MissingGeoMetadata)
            ==> !has_geo_payload(kv_table_of(parquet_file@)),
        parquet_readable(parquet_file@) && has_geo_payload(kv_table_of(parquet_file@))
            ==> match file_doc(parquet_file@) {
            None => r == Err::<Vec<u8>, ConversionError>(ConversionError::MalformedGeoMetadata),
            Some(dv) => match resolution_of(dv) {
                Err(e) => r == Err::<Vec<u8>, ConversionError>(e),
                Ok(_) => !primary_in_file_schema(parquet_file@, dv) ==> r == Err::<
                    Vec<u8>,
                    ConversionError,
                >(ConversionError::PrimaryColumnNotInSchema),
            },
        },
        r is Ok ==> parquet_readable(parquet_file@) && has_geo_payload(kv_table_of(parquet_file@))
            && (match file_doc(parquet_file@) {
            Some(dv) => resolution_of(dv) is Ok && primary_in_file_schema(parquet_file@, dv),
            None => false,
        }),
        r matches Ok(bytes) ==> converted_output(parquet_file@, bytes@),
        !parquet_readable(parquet_file@) ==> (r matches Err(e) && e is External),
        parquet_readable(parquet_file@) && has_geo_payload(kv_table_of(parquet_file@))
            ==> match file_doc(parquet_file@) {
            Some(dv) => match resolution_of(dv) {
                Ok(k) => forall|i: int|
                    (#[trigger] conversion_succeeds(parquet_file@, dv, k, i)) ==> r is Ok,
                Err(_) => true,
            },
            None => true,
        },
{
    let kv = match read_key_value_metadata(parquet_file) {
        Ok(v) => v,
        Err(m) => { return Err(ConversionError::External(m)) },
    };
    let geo_metadata = parse_geoparquet_metadata(&kv)?;
    let kind = infer_geometry_type(&geo_metadata)?;
    let arrow_schema = match infer_arrow_schema(parquet_file) {
        Ok(s) => s,
        Err(m) => { return Err(ConversionError::External(m)) },
    };
    let fields = schema_fields(&arrow_schema);
    let geometry_column_index = match locate_primary_column(&fields, &geo_metadata.primary_column) {
        Ok(idx) => {
            proof {
                assert(file_schema_names_of(parquet_file@)[idx as int] == field_name_of(
                    fields@[idx as int],
                ));
            }
            idx
        },
        Err(e) => {
            proof {
                assert forall|j: int|
                    0 <= j < file_schema_names_of(parquet_file@).len() implies file_schema_names_of(
                    parquet_file@,
                )[j] != file_doc(parquet_file@).unwrap().primary_column by {
                    assert(file_schema_names_of(parquet_file@)[j] == field_name_of(fields@[j]));
                }
                let dvg = file_doc(parquet_file@).unwrap();
                assert forall|i: int|
                    !(#[trigger] conversion_succeeds(parquet_file@, dvg, kind, i)) by {
                    reveal(conversion_succeeds);
                }
            }
            return Err(e);
        },
    };
    let extension_type = geoarrow_type_of(&kind);
    let new_fields = patch_fields(&fields, geometry_column_index, &extension_type);
    let new_schema = schema_from_fields(&arrow_schema, &new_fields);
    proof {
        lemma_patched_names_preserved(fields@, new_fields@, geometry_column_index as int);
        assert(schema_field_names_of(new_schema) =~= file_schema_names_of(parquet_file@));
        assert forall|j: int|
            0 <= j < fields@.len() implies #[trigger] file_schema_names_of(parquet_file@)[j]
            == field_name_of(fields@[j]) by {
            assert(fields@.map_values(|f: crate::schema::ColumnField| field_name_of(f))[j]
                == field_name_of(fields@[j]));
        }
        assert forall|i: int|
            (0 <= i < file_schema_names_of(parquet_file@).len() && file_schema_names_of(
                parquet_file@,
            )[i] == file_doc(parquet_file@).unwrap().primary_column && (forall|j: int|
                0 <= j < i ==> file_schema_names_of(parquet_file@)[j] != file_doc(
                    parquet_file@,
                ).unwrap().primary_column)) implies i == geometry_column_index by {
            if i < geometry_column_index {
                assert(file_schema_names_of(parquet_file@)[i] == field_name_of(fields@[i]));
            }
            if i > geometry_column_index {
                assert(file_schema_names_of(parquet_file@)[geometry_column_index as int]
                    == field_name_of(fields@[geometry_column_index as int]));
            }
        }
        assert(new_fields@ =~= file_schema_fields_of(parquet_file@).update(
            geometry_column_index as int,
            geometry_field_of(
                file_schema_fields_of(parquet_file@)[geometry_column_index as int],
                extension_type,
            ),
        ));
        assert(new_schema == revised_schema_spec(
            parquet_file@,
            geometry_column_index as int,
            extension_type_of(kind),
        ));
    }
    let mut sink = match IpcStreamSink::new(&new_schema) {
        Ok(s) => s,
        Err(m) => {
            proof {
                let dvg = file_doc(parquet_file@).unwrap();
                assert forall|i: int|
                    !(#[trigger] conversion_succeeds(parquet_file@, dvg, kind, i)) by {
                    reveal(conversion_succeeds);
                    if conversion_succeeds(parquet_file@, dvg, kind, i) {
                        assert(i == geometry_column_index);
                        assert(ipc_schema_ok(new_schema));
                    }
                }
            }
            return Err(ConversionError::External(m));
        },
    };
    let mut reader = match open_batch_reader(parquet_file) {
        Ok(rd) => rd,
        Err(m) => {
            proof {
                let dvg = file_doc(parquet_file@).unwrap();
                assert forall|i: int|
                    !(#[trigger] conversion_succeeds(parquet_file@, dvg, kind, i)) by {
                    reveal(conversion_succeeds);
                    assert(!file_decodes_ok(parquet_file@));
                }
            }
            return Err(ConversionError::External(m));
        },
    };
    let ghost total = file_batches_of(parquet_file@);
    let ghost mut done: int = 0;
    proof {
        assert(total.skip(0) =~= total);
        assert(sink_batches(sink) =~= Seq::new(0, |j: int| transformed_batch_of(
            new_schema,
            total[j],
            geometry_column_index as int,
            extension_type,
        ).unwrap()));
    }
    loop
        invariant
            0 <= done <= total.len(),
            stream_batches(reader) == total.skip(done),
            file_decodes_ok(parquet_file@) ==> stream_ok(reader),
            forall|j: int|
                0 <= j < done ==> transformed_batch_of(
                    new_schema,
                    #[trigger] total[j],
                    geometry_column_index as int,
                    extension_type,
                ) is Some,
            sink_batches(sink) == Seq::new(
                done as nat,
                |j: int| transformed_batch_of(
                    new_schema,
                    total[j],
                    geometry_column_index as int,
                    extension_type,
                ).unwrap(),
            ),
            sink_schema_of(sink) == new_schema,
        decreases stream_batches(reader).len(),
    {
        let nb = match next_batch(&mut reader) {
            Ok(x) => x,
            Err(m) => {
                proof {
                    let dvg = file_doc(parquet_file@).unwrap();
                    assert forall|i: int|
                        !(#[trigger] conversion_succeeds(parquet_file@, dvg, kind, i)) by {
                        reveal(conversion_succeeds);
                        assert(!file_decodes_ok(parquet_file@));
                    }
                }
                return Err(ConversionError::External(m));
            },
        };
        match nb {
            None => {
                proof {
                    assert(total.skip(done).len() == total.len() - done);
                    assert(done == total.len());
                }
                break;
            },
            Some(batch) => {
                proof {
                    assert(total.skip(done)[0] == total[done]);
                }
                let out = parse_wkb_to_geoarrow(
                    &new_schema,
                    &batch,
                    geometry_column_index,
                    &extension_type,
                );
                match out {
                    Ok(converted) => {
                        match sink.write_batch(&converted) {
                            Ok(_) => {},
                            Err(m) => {
                                proof {
                                    let dvg = file_doc(parquet_file@).unwrap();
                                    assert forall|i: int|
                                        !(#[trigger] conversion_succeeds(
                                            parquet_file@,
                                            dvg,
                                            kind,
                                            i,
                                        )) by {
                                        reveal(conversion_succeeds);
                                        if conversion_succeeds(parquet_file@, dvg, kind, i) {
                                            assert(i == geometry_column_index);
                                            assert(total[done] == file_batches_of(
                                                parquet_file@,
                                            )[done]);
                                            assert(batch_encodes_ok(new_schema, converted));
                                        }
                                    }
                                }
                                return Err(ConversionError::External(m));
                            },
                        }
                        proof {
                            assert(Seq::new(
                                (done + 1) as nat,
                                |j: int| transformed_batch_of(
                                    new_schema,
                                    total[j],
                                    geometry_column_index as int,
                                    extension_type,
                                ).unwrap(),
                            ) =~= Seq::new(
                                done as nat,
                                |j: int| transformed_batch_of(
                                    new_schema,
                                    total[j],
                                    geometry_column_index as int,
                                    extension_type,
                                ).unwrap(),
                            ).push(converted));
                            assert(total.skip(done).drop_first() =~= total.skip(done + 1));
                            done = done + 1;
                        }
                    },
                    Err(e) => {
                        proof {
                            let dvg = file_doc(parquet_file@).unwrap();
                            assert forall|i: int|
                                !(#[trigger] conversion_succeeds(parquet_file@, dvg, kind, i)) by {
                                reveal(conversion_succeeds);
                                if conversion_succeeds(parquet_file@, dvg, kind, i) {
                                    assert(i == geometry_column_index);
                                    assert(total[done] == file_batches_of(parquet_file@)[done]);
                                    assert(transformed_batch_of(
                                        new_schema,
                                        total[done],
                                        geometry_column_index as int,
                                        extension_type,
                                    ) is None);
                                }
                            }
                        }
                        return Err(e);
                    },
                }
            },
        }
    }
    match sink.finish() {
        Ok(bytes) => {
            proof {
                let dv = file_doc(parquet_file@).unwrap();
                assert(conversion_witness(
                    parquet_file@,
                    dv,
                    bytes@,
                    new_schema,
                    geometry_column_index as int,
                    extension_type,
                )) by {
                    reveal(conversion_witness);
                }
                assert(converted_output(parquet_file@, bytes@)) by {
                    reveal(converted_output);
                }
            }
            Ok(bytes)
        },
        Err(m) => Err(ConversionError::External(m)),
    }
}

} // verus!
