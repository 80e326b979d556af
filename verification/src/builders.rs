//! Realization dispatch: given a runtime type tag out of the supported set,
//! select the statically typed field constructor, column builder and builder
//! finalizer. The dispatch is an exhaustive match, so it is total over the
//! supported tags.

use vstd::prelude::*;
use crate::arrow_api::{bool_builder_cells, bool_builder_finish, bool_builder_new,
    bool_builder_push, col_cells, col_dtype, date32_builder_cells, date32_builder_finish,
    date32_builder_new, date32_builder_push, field_new_bool, field_new_date32, field_new_i32,
    field_new_i64, field_new_time64_micro, field_new_timestamp_micro, field_new_utf8, field_view,
    i32_builder_cells, i32_builder_finish, i32_builder_new, i32_builder_push, i64_builder_cells,
    i64_builder_finish, i64_builder_new, i64_builder_push, str_builder_cells, str_builder_finish,
    str_builder_new, str_builder_push, time_builder_cells, time_builder_finish, time_builder_new,
    time_builder_push, timestamp_builder_cells, timestamp_builder_finish, timestamp_builder_new,
    timestamp_builder_push, BoolColBuilder, ColArray, ColField, Date32ColBuilder, I32ColBuilder,
    I64ColBuilder, StrColBuilder, TimeColBuilder, TimestampColBuilder};
use crate::typesys::{cell_bytes, cell_has_tag, lemma_str_data_len_push, spec_tag_supported,
    str_data_len, CellV, ColType, FieldV, TimeUnit, TypeTag, Value};

verus! {

broadcast use vstd::slice::axiom_spec_len;

/// The largest number of string data bytes a `Utf8` column of one batch can
/// hold: its value offsets are 32-bit.
pub const UTF8_DATA_MAX: u64 = 0x7fff_ffff;

/// A typed column builder, dispatched from the column's runtime tag.
pub enum ColBuilder {
    Bool(BoolColBuilder),
    I32(I32ColBuilder),
    I64(I64ColBuilder),
    Date32(Date32ColBuilder),
    Timestamp(TimestampColBuilder),
    Time(TimeColBuilder),
    /// The string builder together with the number of string data bytes it
    /// holds, kept so that offset overflow is detected before appending.
    Str(StrColBuilder, u64),
}

impl ColBuilder {
    /// The cells appended to this builder so far.
    pub open spec fn cells(self) -> Seq<CellV> {
        match self {
            ColBuilder::Bool(b) => bool_builder_cells(b),
            ColBuilder::I32(b) => i32_builder_cells(b),
            ColBuilder::I64(b) => i64_builder_cells(b),
            ColBuilder::Date32(b) => date32_builder_cells(b),
            ColBuilder::Timestamp(b) => timestamp_builder_cells(b),
            ColBuilder::Time(b) => time_builder_cells(b),
            ColBuilder::Str(b, _) => str_builder_cells(b),
        }
    }

    /// The canonical tag of the column this builder builds.
    pub open spec fn tag(self) -> TypeTag {
        match self {
            ColBuilder::Bool(_) => TypeTag::Boolean,
            ColBuilder::I32(_) => TypeTag::Int32,
            ColBuilder::I64(_) => TypeTag::Int64,
            ColBuilder::Date32(_) => TypeTag::Date32,
            ColBuilder::Timestamp(_) => TypeTag::Timestamp(TimeUnit::Microsecond),
            ColBuilder::Time(_) => TypeTag::Time64(TimeUnit::Microsecond),
            ColBuilder::Str(_, _) => TypeTag::Utf8,
        }
    }

    /// Internal consistency: every cell is a null or carries the builder's
    /// tag, and the string byte counter is exact and within offset range.
    pub open spec fn wf(self) -> bool {
        &&& forall|i: int|
            0 <= i < self.cells().len() ==> (self.cells()[i] is Null || cell_has_tag(
                #[trigger] self.cells()[i],
                self.tag(),
            ))
        &&& match self {
            ColBuilder::Str(b, bytes) => bytes == str_data_len(str_builder_cells(b)) && bytes
                <= UTF8_DATA_MAX,
            _ => true,
        }
    }
}

/// Cells that are not string cells carry no string data.
proof fn lemma_str_data_len_of_stringless(cells: Seq<CellV>)
    requires
        forall|i: int| 0 <= i < cells.len() ==> !(#[trigger] cells[i] is Str),
    ensures
        str_data_len(cells) == 0,
    decreases cells.len(),
{
    if cells.len() > 0 {
        lemma_str_data_len_of_stringless(cells.drop_last());
    }
}

/// Realize the schema field for a supported tag.
pub fn new_field(name: &str, col: ColType) -> (f: ColField)
    requires
        spec_tag_supported(col.tag),
    ensures
        field_view(f) == (FieldV { name: name@, col }),
{
    match col.tag {
        TypeTag::Boolean => field_new_bool(name, col.nullable),
        TypeTag::Int32 => field_new_i32(name, col.nullable),
        TypeTag::Int64 => field_new_i64(name, col.nullable),
        TypeTag::Date32 => field_new_date32(name, col.nullable),
        TypeTag::Timestamp(TimeUnit::Microsecond) => field_new_timestamp_micro(
            name,
            col.nullable,
        ),
        TypeTag::Time64(TimeUnit::Microsecond) => field_new_time64_micro(name, col.nullable),
        _ => field_new_utf8(name, col.nullable),
    }
}

/// Realize a fresh builder for a supported tag, with a capacity hint.
pub fn new_builder(tag: TypeTag, capacity: usize) -> (b: ColBuilder)
    requires
        spec_tag_supported(tag),
    ensures
        b.cells() == Seq::<CellV>::empty(),
        b.tag() == tag,
        b.wf(),
{
    let b = match tag {
        TypeTag::Boolean => ColBuilder::Bool(bool_builder_new(capacity)),
        TypeTag::Int32 => ColBuilder::I32(i32_builder_new(capacity)),
        TypeTag::Int64 => ColBuilder::I64(i64_builder_new(capacity)),
        TypeTag::Date32 => ColBuilder::Date32(date32_builder_new(capacity)),
        TypeTag::Timestamp(TimeUnit::Microsecond) => ColBuilder::Timestamp(timestamp_builder_new(
            capacity,
        )),
        TypeTag::Time64(TimeUnit::Microsecond) => ColBuilder::Time(time_builder_new(capacity)),
        _ => ColBuilder::Str(str_builder_new(capacity), 0),
    };
    proof {
        lemma_str_data_len_of_stringless(b.cells());
    }
    b
}

/// Realize the builder finalizer: seal the builder into a typed column array.
pub fn finish_builder(b: ColBuilder) -> (c: ColArray)
    ensures
        col_cells(c) == b.cells(),
        col_dtype(c) == b.tag(),
{
    match b {
        ColBuilder::Bool(inner) => bool_builder_finish(inner),
        ColBuilder::I32(inner) => i32_builder_finish(inner),
        ColBuilder::I64(inner) => i64_builder_finish(inner),
        ColBuilder::Date32(inner) => date32_builder_finish(inner),
        ColBuilder::Timestamp(inner) => timestamp_builder_finish(inner),
        ColBuilder::Time(inner) => time_builder_finish(inner),
        ColBuilder::Str(inner, _) => str_builder_finish(inner),
    }
}

/// The string data bytes this builder holds; zero unless it is a string
/// builder.
pub fn str_bytes(b: &ColBuilder) -> (r: u64)
    requires
        b.wf(),
    ensures
        r == str_data_len(b.cells()),
{
    match b {
        ColBuilder::Str(_, bytes) => *bytes,
        _ => {
            proof {
                lemma_str_data_len_of_stringless(b.cells());
            }
            0
        },
    }
}

/// Append one checked cell value to the builder. The value must carry the
/// builder's tag (or be a null), and a string value must fit the remaining
/// offset range; both are the caller's obligations.
pub fn append_value(b: ColBuilder, value: Value) -> (r: ColBuilder)
    requires
        b.wf(),
        value@ is Null || cell_has_tag(value@, b.tag()),
        value@ is Str ==> cell_bytes(value@) + str_data_len(b.cells()) <= UTF8_DATA_MAX,
    ensures
        r.wf(),
        r.tag() == b.tag(),
        r.cells() == b.cells().push(value@),
{
    let ghost b0 = b;
    let r = match b {
        ColBuilder::Bool(mut inner) => {
            match value {
                Value::Null => bool_builder_push(&mut inner, None),
                Value::Bool(x) => bool_builder_push(&mut inner, Some(x)),
                _ => {
                    proof {
                        assert(false);
                    }
                },
            }
            ColBuilder::Bool(inner)
        },
        ColBuilder::I32(mut inner) => {
            match value {
                Value::Null => i32_builder_push(&mut inner, None),
                Value::Int32(x) => i32_builder_push(&mut inner, Some(x)),
                _ => {
                    proof {
                        assert(false);
                    }
                },
            }
            ColBuilder::I32(inner)
        },
        ColBuilder::I64(mut inner) => {
            match value {
                Value::Null => i64_builder_push(&mut inner, None),
                Value::Int64(x) => i64_builder_push(&mut inner, Some(x)),
                _ => {
                    proof {
                        assert(false);
                    }
                },
            }
            ColBuilder::I64(inner)
        },
        ColBuilder::Date32(mut inner) => {
            match value {
                Value::Null => date32_builder_push(&mut inner, None),
                Value::Date32(x) => date32_builder_push(&mut inner, Some(x)),
                _ => {
                    proof {
                        assert(false);
                    }
                },
            }
            ColBuilder::Date32(inner)
        },
        ColBuilder::Timestamp(mut inner) => {
            match value {
                Value::Null => timestamp_builder_push(&mut inner, None),
                Value::TimestampMicros(x) => timestamp_builder_push(&mut inner, Some(x)),
                _ => {
                    proof {
                        assert(false);
                    }
                },
            }
            ColBuilder::Timestamp(inner)
        },
        ColBuilder::Time(mut inner) => {
            match value {
                Value::Null => time_builder_push(&mut inner, None),
                Value::TimeMicros(x) => time_builder_push(&mut inner, Some(x)),
                _ => {
                    proof {
                        assert(false);
                    }
                },
            }
            ColBuilder::Time(inner)
        },
        ColBuilder::Str(mut inner, bytes) => {
            let new_bytes: u64 = match &value {
                Value::Null => {
                    proof {
                        lemma_str_data_len_push(str_builder_cells(inner), CellV::Null);
                    }
                    str_builder_push(&mut inner, None);
                    bytes
                },
                Value::Str(s) => {
                    let l: usize = s.as_str().as_bytes().len();
                    proof {
                        lemma_str_data_len_push(str_builder_cells(inner), CellV::Str(s@));
                    }
                    str_builder_push(&mut inner, Some(s.as_str()));
                    bytes + (l as u64)
                },
                _ => {
                    proof {
                        assert(false);
                    }
                    bytes
                },
            };
            ColBuilder::Str(inner, new_bytes)
        },
    };
    proof {
        lemma_str_data_len_push(b0.cells(), value@);
    }
    r
}

} // verus!
