//! Schema column locator and patcher: find the primary geometry column by
//! name and produce a revised field list where only that field's declared
//! type is replaced with the GeoArrow extension type of the resolved kind.
//!
//! The Arrow schema and field values themselves are opaque here: they are
//! carried in trusted holders, and everything the logic reads of them — the
//! field names — is handed out as plain values.

use vstd::prelude::*;

use geoarrow::datatypes as gd;

use crate::error::ConversionError;
use crate::kinds::GeometryKind;

verus! {

/// An Arrow schema, carried between the trusted calls below.
#[verifier::external_body]
pub struct TableSchema {
    pub(crate) inner: arrow_schema::Schema,
}

/// One named, typed field of an Arrow schema.
#[verifier::external_body]
pub struct ColumnField {
    pub(crate) inner: arrow_schema::Field,
}

/// A GeoArrow extension type: the typed declaration the revised schema gives
/// the primary geometry column.
#[verifier::external_body]
pub struct GeoExtensionType {
    pub(crate) inner: gd::GeoArrowType,
}

/// The name of a schema field.
pub uninterp spec fn field_name_of(f: ColumnField) -> Seq<char>;

/// The geometry kind a GeoArrow extension type carries.
pub uninterp spec fn geo_kind_of(t: GeoExtensionType) -> GeometryKind;

/// The geometry kind whose GeoArrow extension type a field declares, if it
/// declares one.
pub uninterp spec fn field_geo_kind_of(f: ColumnField) -> Option<GeometryKind>;

/// The field names a schema declares, in order.
pub uninterp spec fn schema_field_names_of(s: TableSchema) -> Seq<Seq<char>>;

/// The fields a schema declares, in order.
pub uninterp spec fn schema_fields_of(s: TableSchema) -> Seq<ColumnField>;

/// The GeoArrow extension type built for a kind; a pure function of it.
pub uninterp spec fn extension_type_of(k: GeometryKind) -> GeoExtensionType;

/// The geometry-typed revision of a field; a pure function of the field and
/// the extension type.
pub uninterp spec fn geometry_field_of(f: ColumnField, t: GeoExtensionType) -> ColumnField;

/// The schema declaring the given fields with a base schema's metadata; a
/// pure function of both.
pub uninterp spec fn schema_with_fields_of(base: TableSchema, fields: Seq<ColumnField>) -> TableSchema;

/// Relies on arrow_schema::Schema::fields: hands the schema's field list out
/// in declaration order.
#[verifier::external_body]
pub(crate) fn schema_fields(s: &TableSchema) -> (v: Vec<ColumnField>)
    ensures
        v@ == schema_fields_of(*s),
        v@.map_values(|f: ColumnField| field_name_of(f)) == schema_field_names_of(*s),
{
    s.inner.fields().iter().map(|f| ColumnField { inner: f.as_ref().clone() }).collect()
}

/// Relies on arrow_schema::Field::name.
#[verifier::external_body]
pub(crate) fn field_name(f: &ColumnField) -> (n: String)
    ensures
        n@ == field_name_of(*f),
{
    f.inner.name().clone()
}

/// Relies on the derived Clone of arrow_schema::Field: the copy is the same
/// field.
#[verifier::external_body]
pub(crate) fn clone_field(f: &ColumnField) -> (r: ColumnField)
    ensures
        r == *f,
{
    ColumnField { inner: f.inner.clone() }
}

/// Relies on arrow_schema::Schema::new_with_metadata: a schema declaring
/// exactly the given fields, keeping the base schema's own metadata.
#[verifier::external_body]
pub(crate) fn schema_from_fields(base: &TableSchema, fields: &Vec<ColumnField>) -> (s: TableSchema)
    ensures
        s == schema_with_fields_of(*base, fields@),
        schema_fields_of(s) == fields@,
        schema_field_names_of(s) == fields@.map_values(|f: ColumnField| field_name_of(f)),
{
    let refs: Vec<std::sync::Arc<arrow_schema::Field>> = fields.iter().map(
        |f| std::sync::Arc::new(f.inner.clone()),
    ).collect();
    TableSchema { inner: arrow_schema::Schema::new_with_metadata(refs, base.inner.metadata().clone()) }
}

/// Relies on the GeoArrowType constructors of geoarrow: the GeoArrow
/// extension type for a geometry kind, planar with two-dimensional
/// coordinates.
#[verifier::external_body]
pub(crate) fn geoarrow_type_of(kind: &GeometryKind) -> (t: GeoExtensionType)
    ensures
        t == extension_type_of(*kind),
        geo_kind_of(t) == *kind,
{
    let d = gd::Dimension::XY;
    let inner = match kind {
        GeometryKind::Point => gd::GeoArrowType::Point(gd::PointType::new(d, Default::default())),
        GeometryKind::LineString => gd::GeoArrowType::LineString(gd::LineStringType::new(d, Default::default())),
        GeometryKind::Polygon => gd::GeoArrowType::Polygon(gd::PolygonType::new(d, Default::default())),
        GeometryKind::MultiPoint => gd::GeoArrowType::MultiPoint(gd::MultiPointType::new(d, Default::default())),
        GeometryKind::MultiLineString => gd::GeoArrowType::MultiLineString(gd::MultiLineStringType::new(d, Default::default())),
        GeometryKind::MultiPolygon => gd::GeoArrowType::MultiPolygon(gd::MultiPolygonType::new(d, Default::default())),
    };
    GeoExtensionType { inner }
}

/// Relies on GeoArrowType::to_field of geoarrow: a field with the same name
/// and nullability as the given one, declaring the extension type.
#[verifier::external_body]
pub(crate) fn geometry_field(f: &ColumnField, t: &GeoExtensionType) -> (r: ColumnField)
    ensures
        r == geometry_field_of(*f, *t),
        field_name_of(r) == field_name_of(*f),
        field_geo_kind_of(r) == Some(geo_kind_of(*t)),
{
    ColumnField { inner: t.inner.to_field(f.inner.name(), f.inner.is_nullable()) }
}

/// Find the unique field whose name equals the primary column name; absence
/// is the primary-column-not-in-schema condition, exactly then.
pub fn locate_primary_column(fields: &Vec<ColumnField>, primary: &String) -> (r: Result<
    usize,
    ConversionError,
>)
    ensures
        match r {
            Ok(i) => i < fields@.len() && field_name_of(fields@[i as int]) == primary@ && (forall|
                j: int,
            |
                0 <= j < i ==> field_name_of(fields@[j]) != primary@),
            Err(e) => e == ConversionError::PrimaryColumnNotInSchema && (forall|j: int|
                0 <= j < fields@.len() ==> field_name_of(fields@[j]) != primary@),
        },
{
    let mut i: usize = 0;
    while i < fields.len()
        invariant
            i <= fields@.len(),
            forall|j: int| 0 <= j < i ==> field_name_of(fields@[j]) != primary@,
        decreases fields@.len() - i,
    {
        let n = field_name(&fields[i]);
        if n == *primary {
            return Ok(i);
        }
        i += 1;
    }
    Err(ConversionError::PrimaryColumnNotInSchema)
}

/// A revised field list that differs from the original only at one position,
/// and keeps even that position's name, declares exactly the original's name
/// sequence: same length, same field name at every position.
pub proof fn lemma_patched_names_preserved(fields: Seq<ColumnField>, r: Seq<ColumnField>, i: int)
    requires
        0 <= i < fields.len(),
        r.len() == fields.len(),
        forall|k: int| 0 <= k < fields.len() && k != i ==> r[k] == fields[k],
        field_name_of(r[i]) == field_name_of(fields[i]),
    ensures
        r.map_values(|f: ColumnField| field_name_of(f)) =~= fields.map_values(
            |f: ColumnField| field_name_of(f),
        ),
{
}

/// The revised field list: identical to the input except that the field at
/// the primary column's position now declares the geometry extension type
/// of the resolved kind. Field count, order, every other field, and the
/// patched field's name are preserved exactly.
pub fn patch_fields(fields: &Vec<ColumnField>, i: usize, t: &GeoExtensionType) -> (r: Vec<
    ColumnField,
>)
    requires
        i < fields@.len(),
    ensures
        r@.len() == fields@.len(),
        forall|k: int| 0 <= k < fields@.len() && k != i ==> r@[k] == fields@[k],
        r@[i as int] == geometry_field_of(fields@[i as int], *t),
        field_name_of(r@[i as int]) == field_name_of(fields@[i as int]),
        field_geo_kind_of(r@[i as int]) == Some(geo_kind_of(*t)),
{
    let mut out: Vec<ColumnField> = Vec::new();
    let mut k: usize = 0;
    while k < fields.len()
        invariant
            i < fields@.len(),
            k <= fields@.len(),
            out@.len() == k,
            forall|j: int| 0 <= j < k && j != i ==> out@[j] == fields@[j],
            k > i ==> out@[i as int] == geometry_field_of(fields@[i as int], *t)
                && field_name_of(out@[i as int]) == field_name_of(fields@[i as int])
                && field_geo_kind_of(out@[i as int]) == Some(geo_kind_of(*t)),
        decreases fields@.len() - k,
    {
        if k == i {
            out.push(geometry_field(&fields[k], t));
        } else {
            out.push(clone_field(&fields[k]));
        }
        k += 1;
    }
    out
}

} // verus!
