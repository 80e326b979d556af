//! The canonical type system: a closed set of logical column types, each
//! column carrying a nullability bit, together with the runtime cell values
//! that flow through the pipeline and their mathematical views.

use vstd::prelude::*;

verus! {

/// Resolution of a timestamp-like type.
#[derive(Clone, Copy, Debug, PartialEq, Eq, Structural)]
pub enum TimeUnit {
    Second,
    Millisecond,
    Microsecond,
    Nanosecond,
}

/// The canonical, closed set of logical column types.
#[derive(Clone, Copy, Debug, PartialEq, Eq, Structural)]
pub enum TypeTag {
    Null,
    Boolean,
    Int8,
    Int16,
    Int32,
    Int64,
    UInt8,
    UInt16,
    UInt32,
    UInt64,
    Float16,
    Float32,
    Float64,
    Timestamp(TimeUnit),
    Date32,
    Date64,
    Time32(TimeUnit),
    Time64(TimeUnit),
    Duration(TimeUnit),
    Interval,
    Binary,
    FixedSizeBinary(i32),
    LargeBinary,
    Utf8,
    LargeUtf8,
    List,
    FixedSizeList,
    LargeList,
    Struct,
    Union,
    Dictionary,
    Decimal128(u8, i8),
    Decimal256(u8, i8),
    NestedMap,
    RunEndEncoded,
}

/// A column's logical type: a canonical tag plus the nullability bit.
#[derive(Clone, Copy, Debug, PartialEq, Eq, Structural)]
pub struct ColType {
    pub tag: TypeTag,
    pub nullable: bool,
}

/// Whether values are produced or consumed row-major or column-major.
#[derive(Clone, Copy, Debug, PartialEq, Eq, Structural)]
pub enum DataOrder {
    RowMajor,
    ColumnMajor,
}

/// A runtime cell value, as transferred between a producer and a consumer.
/// The destination supports the tags `Boolean`, `Int32`, `Int64`, `Date32`
/// (days since the epoch), microsecond timestamps and times of day, and
/// `Utf8`; `Null` is accepted by any nullable column.
#[derive(Clone, Debug, PartialEq)]
pub enum Value {
    Null,
    Bool(bool),
    Int32(i32),
    Int64(i64),
    Date32(i32),
    TimestampMicros(i64),
    TimeMicros(i64),
    Str(String),
}

/// The mathematical view of a cell value.
pub enum CellV {
    Null,
    Bool(bool),
    Int32(i32),
    Int64(i64),
    Date32(i32),
    TimestampMicros(i64),
    TimeMicros(i64),
    Str(Seq<char>),
}

impl View for Value {
    type V = CellV;

    open spec fn view(&self) -> CellV {
        match self {
            Value::Null => CellV::Null,
            Value::Bool(b) => CellV::Bool(*b),
            Value::Int32(n) => CellV::Int32(*n),
            Value::Int64(n) => CellV::Int64(*n),
            Value::Date32(n) => CellV::Date32(*n),
            Value::TimestampMicros(n) => CellV::TimestampMicros(*n),
            Value::TimeMicros(n) => CellV::TimeMicros(*n),
            Value::Str(s) => CellV::Str(s@),
        }
    }
}

/// The mathematical view of a schema field: its name and its column type.
pub struct FieldV {
    pub name: Seq<char>,
    pub col: ColType,
}

/// The cell stored by appending an optional boolean.
pub open spec fn cell_of_bool(v: Option<bool>) -> CellV {
    match v {
        Option::None => CellV::Null,
        Option::Some(b) => CellV::Bool(b),
    }
}

/// The cell stored by appending an optional 32-bit integer.
pub open spec fn cell_of_i32(v: Option<i32>) -> CellV {
    match v {
        Option::None => CellV::Null,
        Option::Some(n) => CellV::Int32(n),
    }
}

/// The cell stored by appending an optional 64-bit integer.
pub open spec fn cell_of_i64(v: Option<i64>) -> CellV {
    match v {
        Option::None => CellV::Null,
        Option::Some(n) => CellV::Int64(n),
    }
}

/// The cell stored by appending an optional day number.
pub open spec fn cell_of_date(v: Option<i32>) -> CellV {
    match v {
        Option::None => CellV::Null,
        Option::Some(n) => CellV::Date32(n),
    }
}

/// The cell stored by appending an optional microsecond timestamp.
pub open spec fn cell_of_timestamp(v: Option<i64>) -> CellV {
    match v {
        Option::None => CellV::Null,
        Option::Some(n) => CellV::TimestampMicros(n),
    }
}

/// The cell stored by appending an optional microsecond time of day.
pub open spec fn cell_of_time(v: Option<i64>) -> CellV {
    match v {
        Option::None => CellV::Null,
        Option::Some(n) => CellV::TimeMicros(n),
    }
}

/// The cell stored by appending an optional string.
pub open spec fn cell_of_str(v: Option<Seq<char>>) -> CellV {
    match v {
        Option::None => CellV::Null,
        Option::Some(s) => CellV::Str(s),
    }
}

/// How many bytes of string data a cell contributes to a `Utf8` column's
/// value buffer: the UTF-8 encoding length for a string cell, zero otherwise.
pub open spec fn cell_bytes(c: CellV) -> nat {
    match c {
        CellV::Str(s) => vstd::utf8::encode_utf8(s).len(),
        _ => 0,
    }
}

/// The total string data held by a sequence of cells.
pub open spec fn str_data_len(cells: Seq<CellV>) -> nat
    decreases cells.len(),
{
    if cells.len() == 0 {
        0
    } else {
        str_data_len(cells.drop_last()) + cell_bytes(cells.last())
    }
}

/// Appending one cell adds exactly that cell's string data.
pub proof fn lemma_str_data_len_push(cells: Seq<CellV>, c: CellV)
    ensures
        str_data_len(cells.push(c)) == str_data_len(cells) + cell_bytes(c),
{
    assert(cells.push(c).drop_last() =~= cells);
    assert(cells.push(c).last() == c);
}

/// Whether a (non-null) cell value has the given canonical tag.
pub open spec fn cell_has_tag(v: CellV, tag: TypeTag) -> bool {
    match v {
        CellV::Null => false,
        CellV::Bool(_) => tag == TypeTag::Boolean,
        CellV::Int32(_) => tag == TypeTag::Int32,
        CellV::Int64(_) => tag == TypeTag::Int64,
        CellV::Date32(_) => tag == TypeTag::Date32,
        CellV::TimestampMicros(_) => tag == TypeTag::Timestamp(TimeUnit::Microsecond),
        CellV::TimeMicros(_) => tag == TypeTag::Time64(TimeUnit::Microsecond),
        CellV::Str(_) => tag == TypeTag::Utf8,
    }
}

/// Whether a cell value may be stored in a column of the given type:
/// a null is accepted exactly by nullable columns, any other value must
/// carry the column's tag.
pub open spec fn cell_fits(v: CellV, col: ColType) -> bool {
    match v {
        CellV::Null => col.nullable,
        _ => cell_has_tag(v, col.tag),
    }
}

/// The tags for which the destination can realize fields and builders.
pub open spec fn spec_tag_supported(tag: TypeTag) -> bool {
    tag == TypeTag::Boolean || tag == TypeTag::Int32 || tag == TypeTag::Int64 || tag
        == TypeTag::Date32 || tag == TypeTag::Timestamp(TimeUnit::Microsecond) || tag
        == TypeTag::Time64(TimeUnit::Microsecond) || tag == TypeTag::Utf8
}

/// Runtime check that a tag is in the destination's supported set.
pub fn tag_supported(tag: TypeTag) -> (r: bool)
    ensures
        r == spec_tag_supported(tag),
{
    match tag {
        TypeTag::Boolean => true,
        TypeTag::Int32 => true,
        TypeTag::Int64 => true,
        TypeTag::Date32 => true,
        TypeTag::Timestamp(TimeUnit::Microsecond) => true,
        TypeTag::Time64(TimeUnit::Microsecond) => true,
        TypeTag::Utf8 => true,
        _ => false,
    }
}

impl Value {
    /// Verify that this value is compatible with the column type `col`,
    /// reporting which way the check failed.
    pub fn check(&self, col: ColType) -> (r: Result<(), crate::errors::ConnectorError>)
        ensures
            r is Ok <==> cell_fits(self@, col),
            !cell_fits(self@, col) ==> r == Result::<(), crate::errors::ConnectorError>::Err(
                if self@ is Null {
                    crate::errors::ConnectorError::UnexpectedNull
                } else {
                    crate::errors::ConnectorError::TypeMismatch {
                        expected: col.tag,
                        got: cell_tag(self@),
                    }
                },
            ),
    {
        match self {
            Value::Null => {
                if col.nullable {
                    Ok(())
                } else {
                    Err(crate::errors::ConnectorError::UnexpectedNull)
                }
            },
            Value::Bool(_) => {
                if col.tag == TypeTag::Boolean {
                    Ok(())
                } else {
                    Err(crate::errors::ConnectorError::TypeMismatch { expected: col.tag, got: TypeTag::Boolean })
                }
            },
            Value::Int32(_) => {
                if col.tag == TypeTag::Int32 {
                    Ok(())
                } else {
                    Err(crate::errors::ConnectorError::TypeMismatch { expected: col.tag, got: TypeTag::Int32 })
                }
            },
            Value::Int64(_) => {
                if col.tag == TypeTag::Int64 {
                    Ok(())
                } else {
                    Err(crate::errors::ConnectorError::TypeMismatch { expected: col.tag, got: TypeTag::Int64 })
                }
            },
            Value::Date32(_) => {
                if col.tag == TypeTag::Date32 {
                    Ok(())
                } else {
                    Err(crate::errors::ConnectorError::TypeMismatch { expected: col.tag, got: TypeTag::Date32 })
                }
            },
            Value::TimestampMicros(_) => {
                if col.tag == TypeTag::Timestamp(TimeUnit::Microsecond) {
                    Ok(())
                } else {
                    Err(crate::errors::ConnectorError::TypeMismatch {
                        expected: col.tag,
                        got: TypeTag::Timestamp(TimeUnit::Microsecond),
                    })
                }
            },
            Value::TimeMicros(_) => {
                if col.tag == TypeTag::Time64(TimeUnit::Microsecond) {
                    Ok(())
                } else {
                    Err(crate::errors::ConnectorError::TypeMismatch {
                        expected: col.tag,
                        got: TypeTag::Time64(TimeUnit::Microsecond),
                    })
                }
            },
            Value::Str(_) => {
                if col.tag == TypeTag::Utf8 {
                    Ok(())
                } else {
                    Err(crate::errors::ConnectorError::TypeMismatch { expected: col.tag, got: TypeTag::Utf8 })
                }
            },
        }
    }
}

impl Value {
    /// An explicit copy with a contract (the derived clone of a non-`Copy`
    /// enum carries none).
    pub fn clone_value(&self) -> (r: Value)
        ensures
            r@ == self@,
    {
        match self {
            Value::Null => Value::Null,
            Value::Bool(b) => Value::Bool(*b),
            Value::Int32(n) => Value::Int32(*n),
            Value::Int64(n) => Value::Int64(*n),
            Value::Date32(n) => Value::Date32(*n),
            Value::TimestampMicros(n) => Value::TimestampMicros(*n),
            Value::TimeMicros(n) => Value::TimeMicros(*n),
            Value::Str(s) => Value::Str(s.clone()),
        }
    }
}

/// An ordered sequence of named, typed columns, shared by every partition of
/// one query.
#[derive(Clone, Debug)]
pub struct Schema {
    pub names: Vec<String>,
    pub types: Vec<ColType>,
}

/// The canonical tag a cell value carries; a null cell carries `Null`.
pub open spec fn cell_tag(v: CellV) -> TypeTag {
    match v {
        CellV::Null => TypeTag::Null,
        CellV::Bool(_) => TypeTag::Boolean,
        CellV::Int32(_) => TypeTag::Int32,
        CellV::Int64(_) => TypeTag::Int64,
        CellV::Date32(_) => TypeTag::Date32,
        CellV::TimestampMicros(_) => TypeTag::Timestamp(TimeUnit::Microsecond),
        CellV::TimeMicros(_) => TypeTag::Time64(TimeUnit::Microsecond),
        CellV::Str(_) => TypeTag::Utf8,
    }
}

/// The fields a schema describes: name and column type, position by position.
pub open spec fn fields_of_schema(s: Schema) -> Seq<FieldV> {
    Seq::new(s.types@.len(), |j: int| FieldV { name: s.names@[j]@, col: s.types@[j] })
}

impl Schema {
    /// Whether the name and type lists describe the same columns.
    pub open spec fn wf(self) -> bool {
        self.names@.len() == self.types@.len()
    }

    pub open spec fn spec_len(self) -> nat {
        self.types@.len()
    }

    pub fn empty() -> (r: Schema)
        ensures
            r.wf(),
            r.spec_len() == 0,
    {
        Schema { names: Vec::new(), types: Vec::new() }
    }

    pub fn len(&self) -> (r: usize)
        ensures
            r == self.spec_len(),
    {
        self.types.len()
    }
}

} // verus!
