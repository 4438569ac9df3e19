//! Chunk transformer: replace the binary-blob geometry column of one record
//! batch with the decoded typed geometry column, leaving every other column
//! untouched — same row count, same column count, same null positions, and
//! every other column's content passed through unchanged.
//!
//! The record batch and the column arrays are opaque here: they are carried
//! in trusted holders. Extraction, decoding and rebuilding are pure
//! functions of their arguments, so each result bears a name, and the
//! transformer's contract composes those names.

use vstd::prelude::*;

use arrow_array::cast::AsArray;
use geoarrow::array::GeoArrowArray;

use crate::error::ConversionError;
use crate::schema::{GeoExtensionType, TableSchema};

verus! {

/// One batch of row data spanning all columns.
#[verifier::external_body]
pub struct Batch {
    pub(crate) inner: arrow_array::RecordBatch,
}

/// One column's array data, detached from a batch.
#[verifier::external_body]
pub struct ColumnData {
    pub(crate) inner: arrow_data::ArrayData,
}

/// The number of rows a batch holds.
pub uninterp spec fn batch_rows(b: Batch) -> usize;

/// The number of columns a batch holds.
pub uninterp spec fn batch_cols(b: Batch) -> usize;

/// Whether the row at `row` of the column at `col` is null; false outside
/// the batch's bounds.
pub uninterp spec fn batch_col_null(b: Batch, col: int, row: int) -> bool;

/// The content of the column at `col` of a batch.
pub uninterp spec fn batch_column_of(b: Batch, col: int) -> ColumnData;

/// The blobs of the column at `col`, one per row in row order, `None` at the
/// null rows — when that column is a binary-blob array with 32-bit offsets;
/// nothing when it is any other array, or when `col` is out of bounds.
pub uninterp spec fn blob_column_of(b: Batch, col: int) -> Option<Seq<Option<Seq<u8>>>>;

/// The bytes the blobs of a column hold in all, nulls counting nothing.
pub open spec fn total_blob_bytes(blobs: Seq<Option<Seq<u8>>>) -> int
    decreases blobs.len(),
{
    if blobs.len() == 0 {
        0
    } else {
        (match blobs[0] {
            Some(b) => b.len() as int,
            None => 0,
        }) + total_blob_bytes(blobs.drop_first())
    }
}

/// What decoding a blob column as WKB into the typed geometry array of the
/// given type yields; nothing when some blob cannot be read as a geometry
/// the codec will place into that array. A pure function of the blobs and
/// the type.
pub uninterp spec fn wkb_decoding_of(blobs: Seq<Option<Seq<u8>>>, t: GeoExtensionType) -> Option<
    ColumnData,
>;

/// The error text the WKB decoding reports when it refuses a blob column;
/// a pure function of the blobs and the type.
pub uninterp spec fn wkb_decode_error_of(blobs: Seq<Option<Seq<u8>>>, t: GeoExtensionType) -> Seq<
    char,
>;

/// The error text batch rebuilding reports when the schema does not match;
/// a pure function of its arguments.
pub uninterp spec fn rebuild_error_of(s: TableSchema, b: Batch, col: int, d: ColumnData) -> Seq<
    char,
>;

/// What rebuilding a batch with the column at `col` replaced by `d` and the
/// given schema attached yields; nothing when the schema does not match the
/// columns. A pure function of its arguments.
pub uninterp spec fn rebuilt_batch_of(s: TableSchema, b: Batch, col: int, d: ColumnData) -> Option<
    Batch,
>;

/// What transforming one batch yields, as a whole: the rebuilt batch, when
/// the column at `i` is a blob column, every blob decodes as `t`, and the
/// schema matches.
pub open spec fn transformed_batch_of(s: TableSchema, b: Batch, i: int, t: GeoExtensionType) -> Option<
    Batch,
> {
    match blob_column_of(b, i) {
        None => None,
        Some(blobs) => match wkb_decoding_of(blobs, t) {
            None => None,
            Some(d) => rebuilt_batch_of(s, b, i, d),
        },
    }
}

/// The number of elements a detached column holds.
pub uninterp spec fn data_len(d: ColumnData) -> usize;

/// Whether the element at `row` of a detached column is null; false outside
/// its bounds.
pub uninterp spec fn data_null(d: ColumnData, row: int) -> bool;

impl Batch {
    /// Relies on arrow_array::RecordBatch::num_rows.
    #[verifier::external_body]
    pub fn num_rows(&self) -> (n: usize)
        ensures
            n == batch_rows(*self),
    {
        self.inner.num_rows()
    }

    /// Relies on arrow_array::RecordBatch::num_columns; a position outside
    /// the batch's columns holds no blob column.
    #[verifier::external_body]
    pub fn num_columns(&self) -> (n: usize)
        ensures
            n == batch_cols(*self),
            forall|j: int| j < 0 || n <= j ==> (#[trigger] blob_column_of(*self, j)) is None,
    {
        self.inner.num_columns()
    }
}

/// Relies on RecordBatch::column and AsArray::as_binary_opt of arrow: hands
/// the blob column out as plain values, one per row in row order, `None` at
/// exactly the null rows; no result when that column is not a binary-blob
/// array with 32-bit offsets.
#[verifier::external_body]
pub(crate) fn extract_blob_column(b: &Batch, i: usize) -> (r: Option<Vec<Option<Vec<u8>>>>)
    requires
        i < batch_cols(*b),
    ensures
        r is Some <==> blob_column_of(*b, i as int) is Some,
        r matches Some(v) ==> Some(v.deep_view()) == blob_column_of(*b, i as int),
        r matches Some(v) ==> total_blob_bytes(v.deep_view()) <= i32::MAX,
        r matches Some(v) ==> v@.len() == batch_rows(*b) && (forall|j: int|
            0 <= j < v@.len() ==> ((v@[j] is None) <==> batch_col_null(*b, i as int, j))),
{
    let arr = b.inner.column(i).as_binary_opt::<i32>()?;
    Some(arr.iter().map(|o| o.map(|s| s.to_vec())).collect())
}

/// Relies on geoarrow's from_wkb and the typed geometry builders: decodes
/// each WKB blob into the typed geometry array of the target type. The
/// result has one element per blob, null at exactly the null rows; a blob
/// the codec cannot place into that array is an error, not a panic. The
/// bound on the total bytes keeps the blobs within what a binary array
/// with 32-bit offsets can hold, which building one requires.
#[verifier::external_body]
pub(crate) fn decode_blob_column(blobs: &Vec<Option<Vec<u8>>>, t: &GeoExtensionType) -> (r: Result<
    ColumnData,
    String,
>)
    requires
        total_blob_bytes(blobs.deep_view()) <= i32::MAX,
    ensures
        r is Ok <==> wkb_decoding_of(blobs.deep_view(), *t) is Some,
        r matches Ok(d) ==> Some(d) == wkb_decoding_of(blobs.deep_view(), *t),
        r matches Err(m) ==> m@ == wkb_decode_error_of(blobs.deep_view(), *t),
        r matches Ok(d) ==> data_len(d) == blobs@.len() && (forall|j: int|
            0 <= j < blobs@.len() ==> (data_null(d, j) <==> (blobs@[j] is None))),
{
    let bin = arrow_array::array::BinaryArray::from_opt_vec(
        blobs.iter().map(|o| o.as_deref()).collect(),
    );
    let wkb = geoarrow::array::GenericWkbArray::new(bin, Default::default());
    match geoarrow::array::from_wkb(&wkb, t.inner.clone()) {
        Ok(a) => Ok(ColumnData { inner: a.to_array_ref().to_data() }),
        Err(e) => Err(format!("{e}")),
    }
}

/// Relies on arrow's make_array and RecordBatch::try_new: the batch with the
/// column at `i` replaced by the given array and the given schema attached;
/// every other column is passed through by reference, its content unchanged.
/// `try_new` fails when the schema does not match the columns, exactly then.
#[verifier::external_body]
pub(crate) fn replace_batch_column(
    schema: &TableSchema,
    b: &Batch,
    i: usize,
    d: ColumnData,
) -> (r: Result<Batch, String>)
    requires
        i < batch_cols(*b),
        data_len(d) == batch_rows(*b),
    ensures
        r is Ok <==> rebuilt_batch_of(*schema, *b, i as int, d) is Some,
        r matches Ok(nb) ==> Some(nb) == rebuilt_batch_of(*schema, *b, i as int, d),
        r matches Err(m) ==> m@ == rebuild_error_of(*schema, *b, i as int, d),
        r matches Ok(nb) ==> batch_column_of(nb, i as int) == d && (forall|k: int|
            0 <= k < batch_cols(*b) && k != i ==> batch_column_of(nb, k) == batch_column_of(
                *b,
                k,
            )),
        r matches Ok(nb) ==> batch_rows(nb) == batch_rows(*b) && batch_cols(nb) == batch_cols(*b)
            && (forall|j: int|
            0 <= j < batch_rows(*b) ==> batch_col_null(nb, i as int, j) == data_null(d, j)) && (
        forall|k: int, j: int|
            0 <= k < batch_cols(*b) && k != i && 0 <= j < batch_rows(*b) ==> batch_col_null(
                nb,
                k,
                j,
            ) == batch_col_null(*b, k, j)),
{
    let mut cols = b.inner.columns().to_vec();
    cols[i] = arrow_array::array::make_array(d.inner);
    match arrow_array::RecordBatch::try_new(std::sync::Arc::new(schema.inner.clone()), cols) {
        Ok(nb) => Ok(Batch { inner: nb }),
        Err(e) => Err(format!("{e}")),
    }
}

/// Transform one chunk: decode the WKB blob column at the primary column's
/// position into the typed geometry column, substituting it in place. The
/// transformation succeeds exactly when that column is a blob column, every
/// blob decodes as the target type, and the revised schema matches; the
/// output is then the rebuilt batch holding the decode of the blobs at `i`,
/// every other column's content unchanged, with the input's row count,
/// column count, and null positions.
pub fn parse_wkb_to_geoarrow(schema: &TableSchema, batch: &Batch, i: usize, t: &GeoExtensionType) -> (r:
    Result<Batch, ConversionError>)
    ensures
        r is Ok <==> transformed_batch_of(*schema, *batch, i as int, *t) is Some,
        r matches Ok(nb) ==> Some(nb) == transformed_batch_of(*schema, *batch, i as int, *t),
        r matches Ok(nb) ==> Some(nb) == rebuilt_batch_of(
            *schema,
            *batch,
            i as int,
            wkb_decoding_of(blob_column_of(*batch, i as int).unwrap(), *t).unwrap(),
        ),
        r matches Ok(nb) ==> batch_column_of(nb, i as int) == wkb_decoding_of(
            blob_column_of(*batch, i as int).unwrap(),
            *t,
        ).unwrap() && (forall|k: int|
            0 <= k < batch_cols(*batch) && k != i ==> batch_column_of(nb, k) == batch_column_of(
                *batch,
                k,
            )),
        r matches Ok(nb) ==> batch_rows(nb) == batch_rows(*batch) && batch_cols(nb) == batch_cols(
            *batch,
        ) && (forall|j: int|
            0 <= j < batch_rows(*batch) ==> (batch_col_null(nb, i as int, j) <==> batch_col_null(
                *batch,
                i as int,
                j,
            ))) && (forall|k: int, j: int|
            0 <= k < batch_cols(*batch) && k != i && 0 <= j < batch_rows(*batch)
                ==> batch_col_null(nb, k, j) == batch_col_null(*batch, k, j)),
        (r == Err::<Batch, ConversionError>(ConversionError::GeometryColumnTypeMismatch))
            <==> blob_column_of(*batch, i as int) is None,
        r matches Err(e) ==> (e is GeometryColumnTypeMismatch || e is External),
        match blob_column_of(*batch, i as int) {
            None => true,
            Some(blobs) => match wkb_decoding_of(blobs, *t) {
                None => (r matches Err(e) && e matches ConversionError::External(m) && m@
                    == wkb_decode_error_of(blobs, *t)),
                Some(d) => rebuilt_batch_of(*schema, *batch, i as int, d) is None ==> (r matches
                    Err(e) && e matches ConversionError::External(m) && m@ == rebuild_error_of(
                    *schema,
                    *batch,
                    i as int,
                    d,
                )),
            },
        },
{
    let n = batch.num_columns();
    if i >= n {
        return Err(ConversionError::GeometryColumnTypeMismatch);
    }
    let blobs = match extract_blob_column(batch, i) {
        Some(v) => v,
        None => { return Err(ConversionError::GeometryColumnTypeMismatch) },
    };
    let data = match decode_blob_column(&blobs, t) {
        Ok(d) => d,
        Err(m) => { return Err(ConversionError::External(m)) },
    };
    let ghost decoded = data;
    match replace_batch_column(schema, batch, i, data) {
        Ok(nb) => {
            proof {
                assert forall|j: int|
                    0 <= j < batch_rows(*batch) implies (batch_col_null(nb, i as int, j)
                    <==> batch_col_null(*batch, i as int, j)) by {
                    assert(data_null(decoded, j) <==> (blobs@[j] is None));
                    assert((blobs@[j] is None) <==> batch_col_null(*batch, i as int, j));
                }
            }
            Ok(nb)
        },
        Err(m) => Err(ConversionError::External(m)),
    }
}

} // verus!
