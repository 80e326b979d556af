//! Orchestration: drive complete rows of typed cell values through a
//! partition writer in row-major order. The contracts here carry the
//! pipeline's counting laws: no row is lost or duplicated, and a partition of
//! `R` rows with batch bound `B` seals exactly `R / B` full batches, with the
//! remaining `R % B` rows buffered until the writer is finalized.

use vstd::prelude::*;
use crate::bigquery::{BigQuerySourceParser, CellText};
use crate::builders::UTF8_DATA_MAX;
use crate::destination::ArrowPartitionWriter;
use crate::errors::ConnectorError;
use crate::parse::{datetime_micros, days_since_epoch, spec_datetime_micros, spec_epoch_days,
    spec_parse_bool, spec_parse_date, spec_parse_datetime, spec_parse_i64, spec_parse_time,
    spec_time_micros, time_micros};
use crate::typesys::{cell_fits, lemma_str_data_len_push, str_data_len, CellV, ColType, TimeUnit,
    TypeTag, Value};
use vstd::arithmetic::div_mod::lemma_fundamental_div_mod_converse;

verus! {

/// Column `j` of a row-major sequence of rows.
pub open spec fn col_of_rows(rows: Seq<Vec<Value>>, j: int) -> Seq<CellV> {
    Seq::new(rows.len(), |i: int| rows[i]@[j]@)
}

/// String data adds up over concatenation.
pub proof fn lemma_str_data_len_concat(a: Seq<CellV>, b: Seq<CellV>)
    ensures
        str_data_len(a + b) == str_data_len(a) + str_data_len(b),
    decreases b.len(),
{
    if b.len() == 0 {
        assert(a + b =~= a);
    } else {
        lemma_str_data_len_concat(a, b.drop_last());
        assert((a + b).drop_last() =~= a + b.drop_last());
        assert((a + b).last() == b.last());
    }
}

/// The string data of any slice is bounded by the whole sequence's.
pub proof fn lemma_str_data_len_subrange(s: Seq<CellV>, a: int, b: int)
    requires
        0 <= a <= b <= s.len(),
    ensures
        str_data_len(s.subrange(a, b)) <= str_data_len(s),
{
    let pre = s.subrange(0, a);
    let mid = s.subrange(a, b);
    let post = s.subrange(b, s.len() as int);
    assert(s =~= (pre + mid) + post);
    lemma_str_data_len_concat(pre + mid, post);
    lemma_str_data_len_concat(pre, mid);
}

/// Rows acceptable to a writer: each row has one cell per column, each cell
/// fits its column's type, and no column carries more string data than one
/// batch can hold.
pub open spec fn rows_conform(rows: Seq<Vec<Value>>, w: ArrowPartitionWriter) -> bool {
    &&& forall|i: int| 0 <= i < rows.len() ==> (#[trigger] rows[i])@.len() == w.spec_ncols()
    &&& forall|i: int, j: int|
        0 <= i < rows.len() && 0 <= j < w.spec_ncols() ==> cell_fits(
            (#[trigger] rows[i]@[j])@,
            w.fields()[j].col,
        )
    &&& forall|j: int|
        0 <= j < w.spec_ncols() ==> str_data_len(#[trigger] col_of_rows(rows, j)) <= UTF8_DATA_MAX
}

/// Consume every cell of `rows`, row by row and column by column, into a
/// fresh writer. Afterwards each column holds exactly the rows' cells in
/// order, `R / B` full batches are sealed, and `R % B` rows stay buffered.
#[verifier::rlimit(50)]
pub fn write_rows(w: &mut ArrowPartitionWriter, rows: &Vec<Vec<Value>>) -> (r: Result<
    (),
    ConnectorError,
>)
    requires
        old(w).inv(),
        old(w).is_fresh(),
        rows_conform(rows@, *old(w)),
    ensures
        r is Ok,
        final(w).inv(),
        final(w).fields() == old(w).fields(),
        final(w).spec_batch_size() == old(w).spec_batch_size(),
        final(w).spec_ncols() == old(w).spec_ncols(),
        forall|j: int|
            0 <= j < old(w).spec_ncols() ==> #[trigger] final(w).col_content(j) == col_of_rows(
                rows@,
                j,
            ),
        final(w).pending_batches().len() == rows@.len() as int / old(w).spec_batch_size() as int,
        final(w).spec_cursor_row() == rows@.len() as int % old(w).spec_batch_size() as int,
        final(w).spec_cursor_col() == 0,
        final(w).buffered() <==> rows@.len() as int % old(w).spec_batch_size() as int != 0,
        final(w).rows_committed() == rows@.len() - rows@.len() as int % old(
            w,
        ).spec_batch_size() as int,
{
    let ghost w0 = *old(w);
    proof {
        w0.lemma_inv_facts();
        assert forall|j: int| 0 <= j < w0.spec_ncols() implies #[trigger] w0.col_content(j)
            == col_of_rows(rows@, j).subrange(0, 0) by {
        assert(w0.col_content(j) =~= col_of_rows(rows@, j).subrange(0, 0));
        }
    }
    let nrows = rows.len();
    let ncols = w.column_count();
    let ghost b = w0.spec_batch_size() as int;
    let mut i: usize = 0;
    while i < nrows
        invariant
            i <= nrows,
            nrows == rows@.len(),
            ncols == w.spec_ncols(),
            ncols >= 1,
            w.inv(),
            w.fields() == w0.fields(),
            w.spec_batch_size() == w0.spec_batch_size(),
            w.spec_ncols() == w0.spec_ncols(),
            b == w0.spec_batch_size() as int,
            b >= 1,
            rows_conform(rows@, w0),
            forall|j: int|
                0 <= j < w0.spec_ncols() ==> #[trigger] w.col_content(j) == col_of_rows(
                    rows@,
                    j,
                ).subrange(0, i as int),
            w.pending_batches().len() == i as int / b,
            w.spec_cursor_row() == i as int % b,
            w.spec_cursor_col() == 0,
            w.buffered() <==> i as int % b != 0,
            w.rows_committed() == i - i as int % b,
        decreases nrows - i,
    {
        let row: &Vec<Value> = &rows[i];
        let mut j: usize = 0;
        while j < ncols
            invariant
                j <= ncols,
                i < nrows,
                nrows == rows@.len(),
                ncols == w.spec_ncols(),
                ncols >= 1,
                w.inv(),
                w.fields() == w0.fields(),
                w.spec_batch_size() == w0.spec_batch_size(),
                w.spec_ncols() == w0.spec_ncols(),
                b == w0.spec_batch_size() as int,
                b >= 1,
                rows_conform(rows@, w0),
                row == rows@[i as int],
                forall|jj: int|
                    0 <= jj < w0.spec_ncols() ==> #[trigger] w.col_content(jj) == col_of_rows(
                        rows@,
                        jj,
                    ).subrange(0, i as int) + (if jj < j {
                        seq![rows@[i as int]@[jj]@]
                    } else {
                        Seq::<CellV>::empty()
                    }),
                j < ncols ==> {
                    &&& w.spec_cursor_col() == j
                    &&& w.spec_cursor_row() == i as int % b
                    &&& w.pending_batches().len() == i as int / b
                    &&& w.rows_committed() == i - i as int % b
                    &&& (w.buffered() <==> (i as int % b != 0 || j > 0))
                },
                j == ncols ==> {
                    &&& w.spec_cursor_col() == 0
                    &&& w.spec_cursor_row() == (i + 1) as int % b
                    &&& w.pending_batches().len() == (i + 1) as int / b
                    &&& w.rows_committed() == (i + 1) - (i + 1) as int % b
                    &&& (w.buffered() <==> (i + 1) as int % b != 0)
                },
            decreases ncols - j,
        {
            let value: Value = row[j].clone_value();
            proof {
                let jI = j as int;
                let iI = i as int;
                let colseq = col_of_rows(rows@, jI);
                assert(w.col_content(jI) =~= colseq.subrange(0, iI));
                w.lemma_buf_decomposition(jI);
                let start = iI - iI % b;
                assert(w.buf(jI).len() == iI % b);
                assert(w.buf(jI) =~= colseq.subrange(start, iI));
                if value@ is Str {
                    lemma_str_data_len_subrange(colseq, start, iI + 1);
                    assert(colseq.subrange(start, iI + 1) =~= colseq.subrange(start, iI).push(
                        colseq[iI],
                    ));
                    lemma_str_data_len_push(colseq.subrange(start, iI), colseq[iI]);
                    assert(colseq[iI] == value@);
                }
                assert(cell_fits(value@, w.cur_col_type()));
                assert(!w.consume_overflows(value@));
            }
            let ghost w_pre = *w;
            w.consume(value)?;
            proof {
                let jI = j as int;
                let iI = i as int;
                if jI + 1 == ncols {
                    // A completed row: the cursor wrapped; division facts for
                    // the row counter and batch count.
                    let q = iI / b;
                    let r0 = iI % b;
                    vstd::arithmetic::div_mod::lemma_fundamental_div_mod(iI, b);
                    vstd::arithmetic::div_mod::lemma_mod_bound(iI, b);
                    assert(iI == b * q + r0);
                    if r0 + 1 == b {
                        assert(iI + 1 == (q + 1) * b + 0) by (nonlinear_arith)
                            requires
                                iI == b * q + r0,
                                r0 + 1 == b,
                        ;
                        lemma_fundamental_div_mod_converse(iI + 1, b, q + 1, 0);
                    } else {
                        assert(iI + 1 == q * b + (r0 + 1)) by (nonlinear_arith)
                            requires
                                iI == b * q + r0,
                        ;
                        lemma_fundamental_div_mod_converse(iI + 1, b, q, r0 + 1);
                    }
                }
                assert forall|jj: int| 0 <= jj < w0.spec_ncols() implies #[trigger] w.col_content(
                    jj,
                ) == col_of_rows(rows@, jj).subrange(0, iI) + (if jj < jI + 1 {
                    seq![rows@[iI]@[jj]@]
                } else {
                    Seq::<CellV>::empty()
                }) by {
                    if jj == jI {
                        assert(w.col_content(jj) == w_pre.col_content(jj).push(value@));
                        assert(w_pre.col_content(jj) == col_of_rows(rows@, jj).subrange(0, iI));
                        assert(col_of_rows(rows@, jj).subrange(0, iI).push(value@) =~= col_of_rows(
                            rows@,
                            jj,
                        ).subrange(0, iI) + seq![rows@[iI]@[jj]@]);
                    } else {
                        assert(w.col_content(jj) == w_pre.col_content(jj));
                    }
                }
            }
            j = j + 1;
        }
        i = i + 1;
        proof {
            assert forall|jj: int| 0 <= jj < w0.spec_ncols() implies #[trigger] w.col_content(jj)
                == col_of_rows(rows@, jj).subrange(0, i as int) by {
                assert(col_of_rows(rows@, jj).subrange(0, i as int) =~= col_of_rows(
                    rows@,
                    jj,
                ).subrange(0, i as int - 1) + seq![rows@[i as int - 1]@[jj]@]);
            }
        }
    }
    proof {
        assert forall|j: int| 0 <= j < w0.spec_ncols() implies #[trigger] w.col_content(j)
            == col_of_rows(rows@, j) by {
            assert(col_of_rows(rows@, j).subrange(0, nrows as int) =~= col_of_rows(rows@, j));
        }
    }
    Ok(())
}

/// The null mask survives the pipeline: after rows are written, a column's
/// null positions are exactly the positions of the rows' null cells.
pub proof fn lemma_null_mask_preserved(rows: Seq<Vec<Value>>, w: ArrowPartitionWriter, j: int)
    requires
        w.col_content(j) == col_of_rows(rows, j),
    ensures
        w.col_content(j).len() == rows.len(),
        forall|i: int|
            0 <= i < rows.len() ==> (#[trigger] w.col_content(j)[i] is Null <==> rows[i]@[j]@
                is Null),
{
}

/// The batching bound: the full batches a partition of `n` rows seals, plus
/// one for a non-empty remainder, make exactly the round-up of `n / b`.
pub proof fn lemma_batch_count_is_ceil(n: int, b: int)
    requires
        b >= 1,
        n >= 0,
    ensures
        n / b + (if n % b != 0 {
            1int
        } else {
            0int
        }) == (n + b - 1) / b,
{
    let q = n / b;
    let r = n % b;
    vstd::arithmetic::div_mod::lemma_fundamental_div_mod(n, b);
    vstd::arithmetic::div_mod::lemma_mod_bound(n, b);
    if r == 0 {
        assert(n + b - 1 == q * b + (b - 1)) by (nonlinear_arith)
            requires
                n == b * q + r,
                r == 0,
        ;
        lemma_fundamental_div_mod_converse(n + b - 1, b, q, b - 1);
    } else {
        assert(n + b - 1 == (q + 1) * b + (r - 1)) by (nonlinear_arith)
            requires
                n == b * q + r,
        ;
        lemma_fundamental_div_mod_converse(n + b - 1, b, q + 1, r - 1);
    }
}

/// Whether the typed transfer supports a tag: the tags for which the source
/// can produce and the destination can build.
pub open spec fn transfer_supported(tag: TypeTag) -> bool {
    tag == TypeTag::Boolean || tag == TypeTag::Int64 || tag == TypeTag::Date32 || tag
        == TypeTag::Timestamp(TimeUnit::Microsecond) || tag == TypeTag::Time64(
        TimeUnit::Microsecond,
    ) || tag == TypeTag::Utf8
}

/// The cell value a typed transfer stores for a given source cell under a
/// given column type, or nothing if the transfer must fail.
pub open spec fn transfer_result(cell: CellText, col: ColType) -> Option<CellV> {
    match cell {
        CellText::Missing => Option::None,
        CellText::NullCell => if col.nullable {
            Option::Some(CellV::Null)
        } else {
            Option::None
        },
        CellText::Text(s) => match col.tag {
            TypeTag::Boolean => match spec_parse_bool(s) {
                Option::Some(b) => Option::Some(CellV::Bool(b)),
                Option::None => Option::None,
            },
            TypeTag::Int64 => match spec_parse_i64(s) {
                Option::Some(v) => Option::Some(CellV::Int64(v)),
                Option::None => Option::None,
            },
            TypeTag::Date32 => match spec_parse_date(s) {
                Option::Some(d) => Option::Some(CellV::Date32(spec_epoch_days(d) as i32)),
                Option::None => Option::None,
            },
            TypeTag::Timestamp(TimeUnit::Microsecond) => match spec_parse_datetime(s) {
                Option::Some(dt) => Option::Some(
                    CellV::TimestampMicros(spec_datetime_micros(dt) as i64),
                ),
                Option::None => Option::None,
            },
            TypeTag::Time64(TimeUnit::Microsecond) => match spec_parse_time(s) {
                Option::Some(t) => Option::Some(CellV::TimeMicros(spec_time_micros(t) as i64)),
                Option::None => Option::None,
            },
            TypeTag::Utf8 => Option::Some(CellV::Str(s)),
            _ => Option::None,
        },
    }
}

/// The single point of typed dispatch per cell: select the produce/consume
/// pair for the column type at the writer's cursor, pull one cell out of the
/// parser and append it to the writer.
pub fn transfer_cell(parser: &mut BigQuerySourceParser, w: &mut ArrowPartitionWriter) -> (r:
    Result<(), ConnectorError>)
    requires
        old(parser).wf(),
        old(parser).has_row(),
        old(w).inv(),
    ensures
        final(parser).wf(),
        final(w).inv(),
        final(w).fields() == old(w).fields(),
        final(w).spec_batch_size() == old(w).spec_batch_size(),
        final(w).spec_ncols() == old(w).spec_ncols(),
        ({
            let col = old(w).cur_col_type();
            let res = transfer_result(old(parser).cur_cell(), col);
            &&& transfer_supported(col.tag) ==> (r is Ok <==> res is Some && !old(
                w,
            ).consume_overflows(res->0))
            &&& !transfer_supported(col.tag) ==> r == Result::<(), ConnectorError>::Err(
                ConnectorError::UnsupportedType(col.tag),
            ) && *final(parser) == *old(parser)
            &&& r is Err ==> *final(w) == *old(w)
            &&& r is Ok ==> {
                let c = old(w).spec_cursor_col() as int;
                let wrapped = c + 1 == old(w).spec_ncols();
                let filled = wrapped && old(w).spec_cursor_row() + 1 == old(w).spec_batch_size();
                &&& final(parser).advanced_from(*old(parser))
                &&& final(w).col_content(c) == old(w).col_content(c).push(res->0)
                &&& forall|j: int|
                    0 <= j < old(w).spec_ncols() && j != c ==> final(w).col_content(j)
                        == #[trigger] old(w).col_content(j)
                &&& final(w).spec_cursor_col() == (if wrapped {
                    0int
                } else {
                    c + 1
                })
                &&& final(w).pending_batches().len() == old(w).pending_batches().len() + (
                if filled {
                    1int
                } else {
                    0int
                })
            }
        }),
{
    let col: ColType = w.current_column_type();
    match col.tag {
        TypeTag::Boolean => {
            if col.nullable {
                match parser.produce_opt_bool() {
                    Err(e) => Err(e),
                    Ok(None) => w.consume(Value::Null),
                    Ok(Some(b)) => w.consume(Value::Bool(b)),
                }
            } else {
                match parser.produce_bool() {
                    Err(e) => Err(e),
                    Ok(b) => w.consume(Value::Bool(b)),
                }
            }
        },
        TypeTag::Int64 => {
            if col.nullable {
                match parser.produce_opt_i64() {
                    Err(e) => Err(e),
                    Ok(None) => w.consume(Value::Null),
                    Ok(Some(v)) => w.consume(Value::Int64(v)),
                }
            } else {
                match parser.produce_i64() {
                    Err(e) => Err(e),
                    Ok(v) => w.consume(Value::Int64(v)),
                }
            }
        },
        TypeTag::Date32 => {
            if col.nullable {
                match parser.produce_opt_date() {
                    Err(e) => Err(e),
                    Ok(None) => w.consume(Value::Null),
                    Ok(Some(d)) => w.consume(Value::Date32(days_since_epoch(d))),
                }
            } else {
                match parser.produce_date() {
                    Err(e) => Err(e),
                    Ok(d) => w.consume(Value::Date32(days_since_epoch(d))),
                }
            }
        },
        TypeTag::Timestamp(TimeUnit::Microsecond) => {
            if col.nullable {
                match parser.produce_opt_datetime() {
                    Err(e) => Err(e),
                    Ok(None) => w.consume(Value::Null),
                    Ok(Some(dt)) => w.consume(Value::TimestampMicros(datetime_micros(dt))),
                }
            } else {
                match parser.produce_datetime() {
                    Err(e) => Err(e),
                    Ok(dt) => w.consume(Value::TimestampMicros(datetime_micros(dt))),
                }
            }
        },
        TypeTag::Time64(TimeUnit::Microsecond) => {
            if col.nullable {
                match parser.produce_opt_time() {
                    Err(e) => Err(e),
                    Ok(None) => w.consume(Value::Null),
                    Ok(Some(t)) => w.consume(Value::TimeMicros(time_micros(t))),
                }
            } else {
                match parser.produce_time() {
                    Err(e) => Err(e),
                    Ok(t) => w.consume(Value::TimeMicros(time_micros(t))),
                }
            }
        },
        TypeTag::Utf8 => {
            if col.nullable {
                match parser.produce_opt_string() {
                    Err(e) => Err(e),
                    Ok(None) => w.consume(Value::Null),
                    Ok(Some(s)) => w.consume(Value::Str(s)),
                }
            } else {
                match parser.produce_string() {
                    Err(e) => Err(e),
                    Ok(s) => w.consume(Value::Str(s)),
                }
            }
        },
        _ => Err(ConnectorError::UnsupportedType(col.tag)),
    }
}

} // verus!
