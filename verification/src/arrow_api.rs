//! The trusted boundary to the `arrow` crate: opaque holders for its typed
//! column builders, finished column arrays, schemas and record batches, with
//! contracts over uninterpreted content functions. Every other function of
//! this library is verified against these contracts alone.

use vstd::prelude::*;
use crate::typesys::{cell_of_bool, cell_of_date, cell_of_i32, cell_of_i64, cell_of_str,
    cell_of_time, cell_of_timestamp, cell_fits, str_data_len, CellV, ColType, FieldV, TimeUnit,
    TypeTag};
use std::sync::Arc;

verus! {

/// Holds arrow's `BooleanBuilder`; opaque to verification.
#[verifier::external_body]
pub struct BoolColBuilder {
    inner: arrow::array::BooleanBuilder,
}

/// Holds arrow's `Int32Builder`; opaque to verification.
#[verifier::external_body]
pub struct I32ColBuilder {
    inner: arrow::array::Int32Builder,
}

/// Holds arrow's `Int64Builder`; opaque to verification.
#[verifier::external_body]
pub struct I64ColBuilder {
    inner: arrow::array::Int64Builder,
}

/// Holds arrow's `Date32Builder`; opaque to verification.
#[verifier::external_body]
pub struct Date32ColBuilder {
    inner: arrow::array::Date32Builder,
}

/// Holds arrow's `TimestampMicrosecondBuilder`; opaque to verification.
#[verifier::external_body]
pub struct TimestampColBuilder {
    inner: arrow::array::TimestampMicrosecondBuilder,
}

/// Holds arrow's `Time64MicrosecondBuilder`; opaque to verification.
#[verifier::external_body]
pub struct TimeColBuilder {
    inner: arrow::array::Time64MicrosecondBuilder,
}

/// Holds arrow's `StringBuilder`; opaque to verification.
#[verifier::external_body]
pub struct StrColBuilder {
    inner: arrow::array::StringBuilder,
}

/// Holds one finished arrow column array.
#[verifier::external_body]
pub struct ColArray {
    inner: arrow::array::ArrayRef,
}

/// Holds one arrow schema field.
#[verifier::external_body]
pub struct ColField {
    inner: arrow::datatypes::Field,
}

/// Holds a shared, immutable arrow schema. The inner value is public so that
/// unverified callers can hand it to arrow-consuming code.
#[verifier::external_body]
pub struct SchemaHandle {
    pub inner: Arc<arrow::datatypes::Schema>,
}

/// Holds one sealed arrow record batch. The inner value is public so that
/// unverified callers can hand it to arrow-consuming code; verified code sees
/// only the contents functions below.
#[verifier::external_body]
pub struct ArrowBatch {
    pub inner: arrow::record_batch::RecordBatch,
}

pub uninterp spec fn bool_builder_cells(b: BoolColBuilder) -> Seq<CellV>;

pub uninterp spec fn i32_builder_cells(b: I32ColBuilder) -> Seq<CellV>;

pub uninterp spec fn i64_builder_cells(b: I64ColBuilder) -> Seq<CellV>;

pub uninterp spec fn date32_builder_cells(b: Date32ColBuilder) -> Seq<CellV>;

pub uninterp spec fn timestamp_builder_cells(b: TimestampColBuilder) -> Seq<CellV>;

pub uninterp spec fn time_builder_cells(b: TimeColBuilder) -> Seq<CellV>;

pub uninterp spec fn str_builder_cells(b: StrColBuilder) -> Seq<CellV>;

pub uninterp spec fn col_cells(c: ColArray) -> Seq<CellV>;

pub uninterp spec fn col_dtype(c: ColArray) -> TypeTag;

pub uninterp spec fn field_view(f: ColField) -> FieldV;

pub uninterp spec fn schema_fields(s: SchemaHandle) -> Seq<FieldV>;

pub uninterp spec fn batch_cols(b: ArrowBatch) -> Seq<Seq<CellV>>;

pub uninterp spec fn batch_fields(b: ArrowBatch) -> Seq<FieldV>;

/// Relies on arrow's `BooleanBuilder::with_capacity`: a fresh, empty builder.
#[verifier::external_body]
pub fn bool_builder_new(capacity: usize) -> (b: BoolColBuilder)
    ensures
        bool_builder_cells(b) == Seq::<CellV>::empty(),
{
    BoolColBuilder { inner: arrow::array::BooleanBuilder::with_capacity(capacity) }
}

/// Relies on arrow's `BooleanBuilder::append_option`: appends one value slot,
/// a null slot for `None`.
#[verifier::external_body]
pub fn bool_builder_push(b: &mut BoolColBuilder, v: Option<bool>)
    ensures
        bool_builder_cells(*final(b)) == bool_builder_cells(*old(b)).push(cell_of_bool(v)),
{
    b.inner.append_option(v);
}

/// Relies on arrow's `BooleanBuilder::finish`: the finished array holds the
/// appended slots, in order, as a `Boolean`-typed column.
#[verifier::external_body]
pub fn bool_builder_finish(b: BoolColBuilder) -> (c: ColArray)
    ensures
        col_cells(c) == bool_builder_cells(b),
        col_dtype(c) == TypeTag::Boolean,
{
    let mut b = b;
    ColArray { inner: Arc::new(b.inner.finish()) }
}

/// Relies on arrow's `PrimitiveBuilder::with_capacity`: a fresh, empty builder.
#[verifier::external_body]
pub fn i32_builder_new(capacity: usize) -> (b: I32ColBuilder)
    ensures
        i32_builder_cells(b) == Seq::<CellV>::empty(),
{
    I32ColBuilder { inner: arrow::array::Int32Builder::with_capacity(capacity) }
}

/// Relies on arrow's `PrimitiveBuilder::append_option`: appends one value
/// slot, a null slot for `None`.
#[verifier::external_body]
pub fn i32_builder_push(b: &mut I32ColBuilder, v: Option<i32>)
    ensures
        i32_builder_cells(*final(b)) == i32_builder_cells(*old(b)).push(cell_of_i32(v)),
{
    b.inner.append_option(v);
}

/// Relies on arrow's `PrimitiveBuilder::finish`: the finished array holds the
/// appended slots, in order, as an `Int32`-typed column.
#[verifier::external_body]
pub fn i32_builder_finish(b: I32ColBuilder) -> (c: ColArray)
    ensures
        col_cells(c) == i32_builder_cells(b),
        col_dtype(c) == TypeTag::Int32,
{
    let mut b = b;
    ColArray { inner: Arc::new(b.inner.finish()) }
}

/// Relies on arrow's `PrimitiveBuilder::with_capacity`: a fresh, empty builder.
#[verifier::external_body]
pub fn i64_builder_new(capacity: usize) -> (b: I64ColBuilder)
    ensures
        i64_builder_cells(b) == Seq::<CellV>::empty(),
{
    I64ColBuilder { inner: arrow::array::Int64Builder::with_capacity(capacity) }
}

/// Relies on arrow's `PrimitiveBuilder::append_option`: appends one value
/// slot, a null slot for `None`.
#[verifier::external_body]
pub fn i64_builder_push(b: &mut I64ColBuilder, v: Option<i64>)
    ensures
        i64_builder_cells(*final(b)) == i64_builder_cells(*old(b)).push(cell_of_i64(v)),
{
    b.inner.append_option(v);
}

/// Relies on arrow's `PrimitiveBuilder::finish`: the finished array holds the
/// appended slots, in order, as an `Int64`-typed column.
#[verifier::external_body]
pub fn i64_builder_finish(b: I64ColBuilder) -> (c: ColArray)
    ensures
        col_cells(c) == i64_builder_cells(b),
        col_dtype(c) == TypeTag::Int64,
{
    let mut b = b;
    ColArray { inner: Arc::new(b.inner.finish()) }
}

/// Relies on arrow's `PrimitiveBuilder::with_capacity`: a fresh, empty builder.
#[verifier::external_body]
pub fn date32_builder_new(capacity: usize) -> (b: Date32ColBuilder)
    ensures
        date32_builder_cells(b) == Seq::<CellV>::empty(),
{
    Date32ColBuilder { inner: arrow::array::Date32Builder::with_capacity(capacity) }
}

/// Relies on arrow's `PrimitiveBuilder::append_option`: appends one value
/// slot, a null slot for `None`.
#[verifier::external_body]
pub fn date32_builder_push(b: &mut Date32ColBuilder, v: Option<i32>)
    ensures
        date32_builder_cells(*final(b)) == date32_builder_cells(*old(b)).push(cell_of_date(v)),
{
    b.inner.append_option(v);
}

/// Relies on arrow's `PrimitiveBuilder::finish`: the finished array holds the
/// appended slots, in order, as a `Date32`-typed column.
#[verifier::external_body]
pub fn date32_builder_finish(b: Date32ColBuilder) -> (c: ColArray)
    ensures
        col_cells(c) == date32_builder_cells(b),
        col_dtype(c) == TypeTag::Date32,
{
    let mut b = b;
    ColArray { inner: Arc::new(b.inner.finish()) }
}

/// Relies on arrow's `PrimitiveBuilder::with_capacity`: a fresh, empty builder.
#[verifier::external_body]
pub fn timestamp_builder_new(capacity: usize) -> (b: TimestampColBuilder)
    ensures
        timestamp_builder_cells(b) == Seq::<CellV>::empty(),
{
    TimestampColBuilder { inner: arrow::array::TimestampMicrosecondBuilder::with_capacity(capacity) }
}

/// Relies on arrow's `PrimitiveBuilder::append_option`: appends one value
/// slot, a null slot for `None`.
#[verifier::external_body]
pub fn timestamp_builder_push(b: &mut TimestampColBuilder, v: Option<i64>)
    ensures
        timestamp_builder_cells(*final(b)) == timestamp_builder_cells(*old(b)).push(
            cell_of_timestamp(v),
        ),
{
    b.inner.append_option(v);
}

/// Relies on arrow's `PrimitiveBuilder::finish`: the finished array holds the
/// appended slots, in order, as a microsecond-`Timestamp`-typed column with
/// no time zone.
#[verifier::external_body]
pub fn timestamp_builder_finish(b: TimestampColBuilder) -> (c: ColArray)
    ensures
        col_cells(c) == timestamp_builder_cells(b),
        col_dtype(c) == TypeTag::Timestamp(TimeUnit::Microsecond),
{
    let mut b = b;
    ColArray { inner: Arc::new(b.inner.finish()) }
}

/// Relies on arrow's `PrimitiveBuilder::with_capacity`: a fresh, empty builder.
#[verifier::external_body]
pub fn time_builder_new(capacity: usize) -> (b: TimeColBuilder)
    ensures
        time_builder_cells(b) == Seq::<CellV>::empty(),
{
    TimeColBuilder { inner: arrow::array::Time64MicrosecondBuilder::with_capacity(capacity) }
}

/// Relies on arrow's `PrimitiveBuilder::append_option`: appends one value
/// slot, a null slot for `None`.
#[verifier::external_body]
pub fn time_builder_push(b: &mut TimeColBuilder, v: Option<i64>)
    ensures
        time_builder_cells(*final(b)) == time_builder_cells(*old(b)).push(cell_of_time(v)),
{
    b.inner.append_option(v);
}

/// Relies on arrow's `PrimitiveBuilder::finish`: the finished array holds the
/// appended slots, in order, as a microsecond-`Time64`-typed column.
#[verifier::external_body]
pub fn time_builder_finish(b: TimeColBuilder) -> (c: ColArray)
    ensures
        col_cells(c) == time_builder_cells(b),
        col_dtype(c) == TypeTag::Time64(TimeUnit::Microsecond),
{
    let mut b = b;
    ColArray { inner: Arc::new(b.inner.finish()) }
}

/// Relies on arrow's `GenericStringBuilder::with_capacity`: a fresh, empty
/// builder.
#[verifier::external_body]
pub fn str_builder_new(capacity: usize) -> (b: StrColBuilder)
    ensures
        str_builder_cells(b) == Seq::<CellV>::empty(),
{
    StrColBuilder { inner: arrow::array::StringBuilder::with_capacity(capacity, 0) }
}

/// Relies on arrow's `GenericStringBuilder::append_option`: appends one value
/// slot, a null slot for `None`. The builder's `i32` value offsets overflow
/// past `i32::MAX` bytes of string data; the precondition excludes that.
#[verifier::external_body]
pub fn str_builder_push(b: &mut StrColBuilder, v: Option<&str>)
    requires
        str_data_len(str_builder_cells(*old(b)).push(cell_of_str(
            match v {
                Option::None => Option::None,
                Option::Some(s) => Option::Some(s@),
            },
        ))) <= 0x7fff_ffff,
    ensures
        str_builder_cells(*final(b)) == str_builder_cells(*old(b)).push(cell_of_str(
            match v {
                Option::None => Option::None,
                Option::Some(s) => Option::Some(s@),
            },
        )),
{
    b.inner.append_option(v);
}

/// Relies on arrow's `GenericStringBuilder::finish`: the finished array holds
/// the appended slots, in order, as a `Utf8`-typed column.
#[verifier::external_body]
pub fn str_builder_finish(b: StrColBuilder) -> (c: ColArray)
    ensures
        col_cells(c) == str_builder_cells(b),
        col_dtype(c) == TypeTag::Utf8,
{
    let mut b = b;
    ColArray { inner: Arc::new(b.inner.finish()) }
}

/// Relies on arrow's `Field::new` with `DataType::Boolean`.
#[verifier::external_body]
pub fn field_new_bool(name: &str, nullable: bool) -> (f: ColField)
    ensures
        field_view(f) == (FieldV {
            name: name@,
            col: ColType { tag: TypeTag::Boolean, nullable },
        }),
{
    ColField {
        inner: arrow::datatypes::Field::new(name, arrow::datatypes::DataType::Boolean, nullable),
    }
}

/// Relies on arrow's `Field::new` with `DataType::Int32`.
#[verifier::external_body]
pub fn field_new_i32(name: &str, nullable: bool) -> (f: ColField)
    ensures
        field_view(f) == (FieldV { name: name@, col: ColType { tag: TypeTag::Int32, nullable } }),
{
    ColField {
        inner: arrow::datatypes::Field::new(name, arrow::datatypes::DataType::Int32, nullable),
    }
}

/// Relies on arrow's `Field::new` with `DataType::Int64`.
#[verifier::external_body]
pub fn field_new_i64(name: &str, nullable: bool) -> (f: ColField)
    ensures
        field_view(f) == (FieldV { name: name@, col: ColType { tag: TypeTag::Int64, nullable } }),
{
    ColField {
        inner: arrow::datatypes::Field::new(name, arrow::datatypes::DataType::Int64, nullable),
    }
}

/// Relies on arrow's `Field::new` with `DataType::Date32`.
#[verifier::external_body]
pub fn field_new_date32(name: &str, nullable: bool) -> (f: ColField)
    ensures
        field_view(f) == (FieldV { name: name@, col: ColType { tag: TypeTag::Date32, nullable } }),
{
    ColField {
        inner: arrow::datatypes::Field::new(name, arrow::datatypes::DataType::Date32, nullable),
    }
}

/// Relies on arrow's `Field::new` with a microsecond `DataType::Timestamp`
/// and no time zone.
#[verifier::external_body]
pub fn field_new_timestamp_micro(name: &str, nullable: bool) -> (f: ColField)
    ensures
        field_view(f) == (FieldV {
            name: name@,
            col: ColType { tag: TypeTag::Timestamp(TimeUnit::Microsecond), nullable },
        }),
{
    ColField {
        inner: arrow::datatypes::Field::new(
            name,
            arrow::datatypes::DataType::Timestamp(arrow::datatypes::TimeUnit::Microsecond, None),
            nullable,
        ),
    }
}

/// Relies on arrow's `Field::new` with a microsecond `DataType::Time64`.
#[verifier::external_body]
pub fn field_new_time64_micro(name: &str, nullable: bool) -> (f: ColField)
    ensures
        field_view(f) == (FieldV {
            name: name@,
            col: ColType { tag: TypeTag::Time64(TimeUnit::Microsecond), nullable },
        }),
{
    ColField {
        inner: arrow::datatypes::Field::new(
            name,
            arrow::datatypes::DataType::Time64(arrow::datatypes::TimeUnit::Microsecond),
            nullable,
        ),
    }
}

/// Relies on arrow's `Field::new` with `DataType::Utf8`.
#[verifier::external_body]
pub fn field_new_utf8(name: &str, nullable: bool) -> (f: ColField)
    ensures
        field_view(f) == (FieldV { name: name@, col: ColType { tag: TypeTag::Utf8, nullable } }),
{
    ColField {
        inner: arrow::datatypes::Field::new(name, arrow::datatypes::DataType::Utf8, nullable),
    }
}

/// Relies on arrow's `Schema::new`: the schema holds exactly the given fields,
/// in order.
#[verifier::external_body]
pub fn schema_new(fields: Vec<ColField>) -> (s: SchemaHandle)
    ensures
        schema_fields(s) == fields@.map_values(|f: ColField| field_view(f)),
{
    let fs: Vec<arrow::datatypes::Field> = fields.into_iter().map(|f| f.inner).collect();
    SchemaHandle { inner: Arc::new(arrow::datatypes::Schema::new(fs)) }
}

/// Relies on `Arc::clone`: both handles denote the same immutable schema.
#[verifier::external_body]
pub fn schema_clone(s: &SchemaHandle) -> (r: SchemaHandle)
    ensures
        schema_fields(r) == schema_fields(*s),
{
    SchemaHandle { inner: Arc::clone(&s.inner) }
}

/// Relies on arrow's `RecordBatch::try_new`, which succeeds exactly when the
/// column count matches the schema, at least one column is present, all
/// columns have equal length, each column's data type equals its field's, and
/// no column holds nulls under a non-nullable field; the preconditions
/// restate those requirements, so the call cannot fail. The batch holds the
/// given schema and columns unchanged.
#[verifier::external_body]
pub fn batch_new(schema: &SchemaHandle, cols: Vec<ColArray>) -> (b: ArrowBatch)
    requires
        cols@.len() == schema_fields(*schema).len(),
        cols@.len() >= 1,
        forall|j: int, k: int|
            0 <= j < cols@.len() && 0 <= k < cols@.len() ==> col_cells(cols@[j]).len() == col_cells(
                cols@[k],
            ).len(),
        forall|j: int|
            0 <= j < cols@.len() ==> col_dtype(cols@[j]) == schema_fields(*schema)[j].col.tag,
        forall|j: int, i: int|
            0 <= j < cols@.len() && 0 <= i < col_cells(cols@[j]).len() ==> cell_fits(
                col_cells(cols@[j])[i],
                schema_fields(*schema)[j].col,
            ),
    ensures
        batch_cols(b) == cols@.map_values(|c: ColArray| col_cells(c)),
        batch_fields(b) == schema_fields(*schema),
{
    let arrays: Vec<arrow::array::ArrayRef> = cols.into_iter().map(|c| c.inner).collect();
    ArrowBatch {
        inner: arrow::record_batch::RecordBatch::try_new(Arc::clone(&schema.inner), arrays)
            .unwrap(),
    }
}
} // verus!
