//! Trusted boundary to the columnar container: reading the Parquet footer's
//! key-value side-table, inferring the Arrow schema, iterating record
//! batches, and writing the converted stream out as Arrow IPC.

use vstd::prelude::*;

use crate::chunk::Batch;
use crate::schema::{schema_field_names_of, TableSchema};

verus! {

/// The stream of record batches decoded from a Parquet file, carried
/// between the trusted calls below.
#[verifier::external_body]
pub struct BatchStream {
    pub(crate) inner: parquet::arrow::arrow_reader::ParquetRecordBatchReader,
}

/// Whether a byte sequence parses as a Parquet file; footer parsing is a
/// pure function of the bytes.
pub uninterp spec fn parquet_readable(bytes: Seq<u8>) -> bool;

/// The key-value side-table a Parquet file's footer carries, in table
/// order, the empty sequence when it carries none; a pure function of the
/// bytes.
pub uninterp spec fn kv_table_of(bytes: Seq<u8>) -> Seq<(String, Option<String>)>;

/// Relies on parquet's ParquetRecordBatchReaderBuilder: the key-value
/// side-table of the file's footer, as pairs in table order; an empty list
/// when the file carries none; an error exactly when the bytes are no
/// Parquet file.
#[verifier::external_body]
pub(crate) fn read_key_value_metadata(bytes: &[u8]) -> (r: Result<
    Vec<(String, Option<String>)>,
    String,
>)
    ensures
        r is Ok <==> parquet_readable(bytes@),
        r matches Ok(v) ==> v@ == kv_table_of(bytes@),
{
    let b = parquet::arrow::arrow_reader::ParquetRecordBatchReaderBuilder::try_new(
        bytes::Bytes::copy_from_slice(bytes),
    ).map_err(|e| format!("{e}"))?;
    let kv = b.metadata().file_metadata().key_value_metadata();
    Ok(kv.map(|v| v.iter().map(|p| (p.key.clone(), p.value.clone())).collect()).unwrap_or_default())
}

/// The field names of the Arrow schema inferred from a Parquet file's
/// physical column types; a pure function of the bytes.
pub uninterp spec fn file_schema_names_of(bytes: Seq<u8>) -> Seq<Seq<char>>;

/// The fields of that inferred schema, in order; a pure function of the
/// bytes.
pub uninterp spec fn file_schema_fields_of(bytes: Seq<u8>) -> Seq<crate::schema::ColumnField>;

/// That inferred schema itself; a pure function of the bytes.
pub uninterp spec fn file_schema_of(bytes: Seq<u8>) -> TableSchema;

/// Whether the file's batch stream opens and every batch decodes, at the
/// reader's default settings; a pure function of the bytes.
pub uninterp spec fn file_decodes_ok(bytes: Seq<u8>) -> bool;

/// Whether every remaining yield of a stream succeeds.
pub uninterp spec fn stream_ok(st: BatchStream) -> bool;

/// Relies on parquet's ParquetRecordBatchReaderBuilder::schema: the Arrow
/// schema inferred from the container's physical column types; an error
/// exactly when the bytes are no Parquet file.
#[verifier::external_body]
pub(crate) fn infer_arrow_schema(bytes: &[u8]) -> (r: Result<TableSchema, String>)
    ensures
        r is Ok <==> parquet_readable(bytes@),
        r matches Ok(s) ==> s == file_schema_of(bytes@),
        r matches Ok(s) ==> schema_field_names_of(s) == file_schema_names_of(bytes@),
        r matches Ok(s) ==> crate::schema::schema_fields_of(s) == file_schema_fields_of(bytes@),
{
    let b = parquet::arrow::arrow_reader::ParquetRecordBatchReaderBuilder::try_new(
        bytes::Bytes::copy_from_slice(bytes),
    ).map_err(|e| format!("{e}"))?;
    Ok(TableSchema { inner: b.schema().as_ref().clone() })
}

/// Relies on parquet's ParquetRecordBatchReaderBuilder::build: the stream of
/// record batches decoded from the file; bytes that are no Parquet file are
/// an error.
#[verifier::external_body]
pub(crate) fn open_batch_reader(bytes: &[u8]) -> (r: Result<BatchStream, String>)
    ensures
        !parquet_readable(bytes@) ==> r is Err,
        parquet_readable(bytes@) && file_decodes_ok(bytes@) ==> r is Ok,
        r matches Ok(st) ==> stream_batches(st) == file_batches_of(bytes@),
        r matches Ok(st) ==> (file_decodes_ok(bytes@) ==> stream_ok(st)),
{
    let b = parquet::arrow::arrow_reader::ParquetRecordBatchReaderBuilder::try_new(
        bytes::Bytes::copy_from_slice(bytes),
    ).map_err(|e| format!("{e}"))?;
    match b.build() {
        Ok(inner) => Ok(BatchStream { inner }),
        Err(e) => Err(format!("{e}")),
    }
}

/// The batches a stream will yield from its current state, in file order;
/// the reader decodes a fixed, finite selection of row groups
/// deterministically.
pub uninterp spec fn stream_batches(r: BatchStream) -> Seq<Batch>;

/// The record batches a Parquet file decodes to, in file order, at the
/// reader's default settings; a pure function of the bytes.
pub uninterp spec fn file_batches_of(bytes: Seq<u8>) -> Seq<Batch>;

/// Relies on the Iterator impl of ParquetRecordBatchReader: the next batch
/// in file order, `None` at the end of the stream.
#[verifier::external_body]
pub(crate) fn next_batch(r: &mut BatchStream) -> (nb: Result<Option<Batch>, String>)
    ensures
        stream_ok(*old(r)) ==> nb is Ok,
        nb matches Ok(b) ==> match b {
            None => stream_batches(*old(r)).len() == 0,
            Some(bt) => stream_batches(*old(r)).len() > 0 && bt == stream_batches(*old(r))[0]
                && stream_batches(*final(r)) == stream_batches(*old(r)).drop_first() && (stream_ok(
                *old(r),
            ) ==> stream_ok(*final(r))),
        },
{
    match r.inner.next() {
        None => Ok(None),
        Some(Ok(b)) => Ok(Some(Batch { inner: b })),
        Some(Err(e)) => Err(format!("{e}")),
    }
}

/// An Arrow IPC stream being written to an in-memory buffer. The writer
/// itself comes from the arrow-ipc crate; this type only carries it between
/// the trusted calls below.
#[verifier::external_body]
pub struct IpcStreamSink {
    inner: arrow_ipc::writer::StreamWriter<Vec<u8>>,
}

/// The batches a sink has taken so far, in order.
pub uninterp spec fn sink_batches(s: IpcStreamSink) -> Seq<Batch>;

/// The schema a sink's stream declares.
pub uninterp spec fn sink_schema_of(s: IpcStreamSink) -> TableSchema;

/// The Arrow IPC stream encoding of a schema and a batch sequence, at the
/// writer's default settings; a pure function of both.
pub uninterp spec fn ipc_stream_bytes_of(schema: TableSchema, batches: Seq<Batch>) -> Seq<u8>;

/// Whether the IPC writer accepts a schema at all.
pub uninterp spec fn ipc_schema_ok(s: TableSchema) -> bool;

/// Whether the IPC encoder accepts a batch under a schema. Dictionary
/// replacement is allowed at the writer's default settings, so the outcome
/// does not depend on earlier batches.
pub uninterp spec fn batch_encodes_ok(s: TableSchema, b: Batch) -> bool;

impl IpcStreamSink {
    /// Relies on arrow_ipc's StreamWriter::try_new: a sink whose stream
    /// declares the given schema and holds no batches yet. It fails exactly
    /// when the writer refuses the schema; writing the stream header to an
    /// in-memory buffer cannot fail.
    #[verifier::external_body]
    pub fn new(schema: &TableSchema) -> (r: Result<IpcStreamSink, String>)
        ensures
            r is Ok <==> ipc_schema_ok(*schema),
            r matches Ok(s) ==> sink_batches(s) == Seq::<Batch>::empty() && sink_schema_of(s)
                == *schema,
    {
        match arrow_ipc::writer::StreamWriter::try_new(Vec::new(), &schema.inner) {
            Ok(w) => Ok(IpcStreamSink { inner: w }),
            Err(e) => Err(format!("{e}")),
        }
    }

    /// Relies on arrow_ipc's StreamWriter::write: appends one batch to the
    /// stream; a batch its encoder accepts is appended without fail, the
    /// buffer being in memory.
    #[verifier::external_body]
    pub fn write_batch(&mut self, b: &Batch) -> (r: Result<(), String>)
        ensures
            batch_encodes_ok(sink_schema_of(*old(self)), *b) ==> r is Ok,
            r is Ok ==> sink_batches(*final(self)) == sink_batches(*old(self)).push(*b)
                && sink_schema_of(*final(self)) == sink_schema_of(*old(self)),
    {
        self.inner.write(&b.inner).map_err(|e| format!("{e}"))
    }

    /// Relies on arrow_ipc's StreamWriter::finish and into_inner: closes the
    /// stream and hands the encoded bytes out — the deterministic IPC
    /// encoding of the declared schema and the batches taken. Writing the
    /// end-of-stream marker to an in-memory buffer cannot fail, and a sink
    /// is finished at most once, since finishing consumes it.
    #[verifier::external_body]
    pub fn finish(self) -> (r: Result<Vec<u8>, String>)
        ensures
            r is Ok,
            r matches Ok(bytes) ==> bytes@ == ipc_stream_bytes_of(
                sink_schema_of(self),
                sink_batches(self),
            ),
    {
        let mut w = self.inner;
        w.finish().map_err(|e| format!("{e}"))?;
        w.into_inner().map_err(|e| format!("{e}"))
    }
}

} // verus!
