//! The columnar destination: per-partition writers consume typed cells in
//! row-major order into column builders, seal them into bounded-size record
//! batches, and the destination accumulates the sealed batches.

use vstd::prelude::*;
use crate::arrow_api::{batch_cols, batch_fields, batch_new, col_cells, col_dtype, field_view,
    schema_clone, schema_fields, schema_new, ArrowBatch, ColArray, ColField, SchemaHandle};
use crate::builders::{append_value, finish_builder, new_builder, new_field, str_bytes, ColBuilder,
    UTF8_DATA_MAX};
use crate::errors::ConnectorError;
use crate::typesys::{cell_bytes, cell_fits, cell_tag, fields_of_schema, spec_tag_supported,
    str_data_len, tag_supported, CellV, ColType, DataOrder, FieldV, Schema, Value};

verus! {

broadcast use vstd::slice::axiom_spec_len;

/// The default number of rows per sealed record batch.
pub const RECORD_BATCH_SIZE: usize = 65536;

/// The number of rows of a sealed batch (every column has this length when
/// the batch conforms to its schema).
pub open spec fn batch_rows(b: ArrowBatch) -> nat {
    batch_cols(b)[0].len()
}

/// A sealed batch conforming to the given fields: rectangular, non-empty,
/// bounded by `batch_size`, every cell fitting its column's type.
pub open spec fn batch_ok(b: ArrowBatch, fields: Seq<FieldV>, batch_size: nat) -> bool {
    &&& batch_fields(b) == fields
    &&& batch_cols(b).len() == fields.len()
    &&& 1 <= batch_rows(b) <= batch_size
    &&& forall|j: int| 0 <= j < fields.len() ==> #[trigger] batch_cols(b)[j].len() == batch_rows(b)
    &&& forall|j: int, i: int|
        0 <= j < fields.len() && 0 <= i < batch_rows(b) ==> cell_fits(
            #[trigger] batch_cols(b)[j][i],
            fields[j].col,
        )
}

/// Column `j` of a sequence of batches, concatenated in push order.
pub open spec fn flat_col(batches: Seq<ArrowBatch>, j: int) -> Seq<CellV>
    decreases batches.len(),
{
    if batches.len() == 0 {
        Seq::empty()
    } else {
        flat_col(batches.drop_last(), j) + batch_cols(batches.last())[j]
    }
}

/// The total number of rows over a sequence of batches.
pub open spec fn sum_rows(batches: Seq<ArrowBatch>) -> nat
    decreases batches.len(),
{
    if batches.len() == 0 {
        0
    } else {
        sum_rows(batches.drop_last()) + batch_rows(batches.last())
    }
}

pub proof fn lemma_flat_col_push(batches: Seq<ArrowBatch>, b: ArrowBatch, j: int)
    ensures
        flat_col(batches.push(b), j) == flat_col(batches, j) + batch_cols(b)[j],
{
    assert(batches.push(b).drop_last() =~= batches);
}

pub proof fn lemma_sum_rows_push(batches: Seq<ArrowBatch>, b: ArrowBatch)
    ensures
        sum_rows(batches.push(b)) == sum_rows(batches) + batch_rows(b),
{
    assert(batches.push(b).drop_last() =~= batches);
}

/// Over batches that all conform to the same fields, every column of the
/// concatenation has one cell per row: what the batches hold per column is
/// exactly as long as the rows they were sealed from. Nothing is lost or
/// duplicated between rows consumed and batch contents.
pub proof fn lemma_row_conservation(
    batches: Seq<ArrowBatch>,
    fields: Seq<FieldV>,
    batch_size: nat,
    j: int,
)
    requires
        forall|k: int| 0 <= k < batches.len() ==> batch_ok(#[trigger] batches[k], fields, batch_size),
        0 <= j < fields.len(),
    ensures
        flat_col(batches, j).len() == sum_rows(batches),
    decreases batches.len(),
{
    if batches.len() > 0 {
        lemma_row_conservation(batches.drop_last(), fields, batch_size, j);
    }
}

/// A per-partition writer: owns its in-flight column builders and the batches
/// it has sealed; cells arrive in strict row-major, column-by-column order.
pub struct ArrowPartitionWriter {
    types: Vec<ColType>,
    arrow_schema: SchemaHandle,
    batch_size: usize,
    builders: Option<Vec<ColBuilder>>,
    current_row: usize,
    current_col: usize,
    pending: Vec<ArrowBatch>,
}

impl ArrowPartitionWriter {
    /// The fields of the canonical schema this writer conforms to.
    pub closed spec fn fields(self) -> Seq<FieldV> {
        schema_fields(self.arrow_schema)
    }

    pub closed spec fn spec_ncols(self) -> nat {
        self.types@.len()
    }

    pub closed spec fn spec_batch_size(self) -> nat {
        self.batch_size as nat
    }

    /// The batches this writer has sealed so far, in order.
    pub closed spec fn pending_batches(self) -> Seq<ArrowBatch> {
        self.pending@
    }

    /// Whether builders are currently allocated (a batch is in progress).
    pub closed spec fn buffered(self) -> bool {
        self.builders is Some
    }

    pub closed spec fn spec_cursor_row(self) -> nat {
        self.current_row as nat
    }

    pub closed spec fn spec_cursor_col(self) -> nat {
        self.current_col as nat
    }

    /// The cells buffered for column `j` of the batch in progress.
    pub closed spec fn buf(self, j: int) -> Seq<CellV> {
        match self.builders {
            Option::Some(bs) => bs@[j].cells(),
            Option::None => Seq::empty(),
        }
    }

    /// Everything consumed for column `j`: sealed cells then buffered cells.
    pub open spec fn col_content(self, j: int) -> Seq<CellV> {
        flat_col(self.pending_batches(), j) + self.buf(j)
    }

    /// The rows already sealed into batches.
    pub open spec fn rows_committed(self) -> nat {
        sum_rows(self.pending_batches())
    }

    /// The column type at the cursor.
    pub open spec fn cur_col_type(self) -> ColType {
        self.fields()[self.spec_cursor_col() as int].col
    }

    /// Appending this value to the column at the cursor would exceed the
    /// string-offset range of the batch in progress.
    pub open spec fn consume_overflows(self, v: CellV) -> bool {
        v is Str && cell_bytes(v) + str_data_len(self.buf(self.spec_cursor_col() as int))
            > UTF8_DATA_MAX
    }

    /// The writer invariant.
    pub closed spec fn inv(self) -> bool {
        &&& self.types@.len() >= 1
        &&& self.batch_size >= 1
        &&& self.fields().len() == self.types@.len()
        &&& forall|j: int|
            0 <= j < self.types@.len() ==> (#[trigger] self.fields()[j]).col == self.types@[j]
        &&& forall|j: int|
            0 <= j < self.types@.len() ==> spec_tag_supported((#[trigger] self.types@[j]).tag)
        &&& self.current_col < self.types@.len()
        &&& match self.builders {
            Option::None => self.current_row == 0 && self.current_col == 0,
            Option::Some(bs) => {
                &&& bs@.len() == self.types@.len()
                &&& self.current_row < self.batch_size
                &&& self.current_row > 0 || self.current_col > 0
                &&& forall|j: int|
                    0 <= j < bs@.len() ==> (#[trigger] bs@[j]).wf() && bs@[j].tag()
                        == self.types@[j].tag
                &&& forall|j: int|
                    0 <= j < bs@.len() ==> (#[trigger] bs@[j]).cells().len() == self.current_row
                        + (if j < self.current_col {
                        1int
                    } else {
                        0int
                    })
                &&& forall|j: int, i: int|
                    0 <= j < bs@.len() && 0 <= i < bs@[j].cells().len() ==> cell_fits(
                        #[trigger] bs@[j].cells()[i],
                        self.types@[j],
                    )
            },
        }
        &&& forall|k: int|
            0 <= k < self.pending@.len() ==> batch_ok(
                #[trigger] self.pending@[k],
                self.fields(),
                self.batch_size as nat,
            )
    }

    /// What `flush` needs: a complete row boundary; the row counter may have
    /// just reached `batch_size`.
    spec fn flush_ready(self) -> bool {
        &&& self.types@.len() >= 1
        &&& self.batch_size >= 1
        &&& self.fields().len() == self.types@.len()
        &&& forall|j: int|
            0 <= j < self.types@.len() ==> (#[trigger] self.fields()[j]).col == self.types@[j]
        &&& forall|j: int|
            0 <= j < self.types@.len() ==> spec_tag_supported((#[trigger] self.types@[j]).tag)
        &&& self.current_col == 0
        &&& match self.builders {
            Option::None => self.current_row == 0,
            Option::Some(bs) => {
                &&& bs@.len() == self.types@.len()
                &&& 1 <= self.current_row <= self.batch_size
                &&& forall|j: int|
                    0 <= j < bs@.len() ==> (#[trigger] bs@[j]).wf() && bs@[j].tag()
                        == self.types@[j].tag
                &&& forall|j: int|
                    0 <= j < bs@.len() ==> (#[trigger] bs@[j]).cells().len() == self.current_row
                &&& forall|j: int, i: int|
                    0 <= j < bs@.len() && 0 <= i < bs@[j].cells().len() ==> cell_fits(
                        #[trigger] bs@[j].cells()[i],
                        self.types@[j],
                    )
            },
        }
        &&& forall|k: int|
            0 <= k < self.pending@.len() ==> batch_ok(
                #[trigger] self.pending@[k],
                self.fields(),
                self.batch_size as nat,
            )
    }

    /// A writer that has not consumed anything yet.
    pub open spec fn is_fresh(self) -> bool {
        &&& !self.buffered()
        &&& self.pending_batches().len() == 0
        &&& self.spec_cursor_row() == 0
        &&& self.spec_cursor_col() == 0
    }

    fn new(types: Vec<ColType>, arrow_schema: SchemaHandle, batch_size: usize) -> (w:
        ArrowPartitionWriter)
        requires
            types@.len() >= 1,
            batch_size >= 1,
            schema_fields(arrow_schema).len() == types@.len(),
            forall|j: int|
                0 <= j < types@.len() ==> (#[trigger] schema_fields(arrow_schema)[j]).col
                    == types@[j],
            forall|j: int|
                0 <= j < types@.len() ==> spec_tag_supported((#[trigger] types@[j]).tag),
        ensures
            w.inv(),
            w.is_fresh(),
            w.fields() == schema_fields(arrow_schema),
            w.spec_batch_size() == batch_size,
            w.spec_ncols() == types@.len(),
    {
        ArrowPartitionWriter {
            types,
            arrow_schema,
            batch_size,
            builders: None,
            current_row: 0,
            current_col: 0,
            pending: Vec::new(),
        }
    }

    pub fn column_count(&self) -> (r: usize)
        ensures
            r == self.spec_ncols(),
    {
        self.types.len()
    }

    /// Facts every well-formed writer satisfies, for callers outside this
    /// module (the invariant itself is closed).
    pub proof fn lemma_inv_facts(self)
        requires
            self.inv(),
        ensures
            self.spec_ncols() >= 1,
            self.spec_batch_size() >= 1,
            self.fields().len() == self.spec_ncols(),
            self.spec_cursor_col() < self.spec_ncols(),
            self.spec_cursor_row() < self.spec_batch_size(),
            !self.buffered() ==> forall|j: int| self.buf(j) == Seq::<CellV>::empty(),
    {
        assert forall|j: int| !self.buffered() implies self.buf(j) == Seq::<CellV>::empty() by {
            assert(self.buf(j) =~= Seq::<CellV>::empty());
        }
    }

    /// The buffered part of a column is the tail of everything consumed for
    /// it: `cursor_row` cells, one more for columns left of the cursor.
    pub proof fn lemma_buf_decomposition(self, j: int)
        requires
            self.inv(),
            0 <= j < self.spec_ncols(),
        ensures
            self.buf(j).len() == self.spec_cursor_row() + (if j < self.spec_cursor_col() {
                1int
            } else {
                0int
            }),
            self.buf(j) == self.col_content(j).subrange(
                self.col_content(j).len() - self.buf(j).len(),
                self.col_content(j).len() as int,
            ),
    {
        assert(self.buf(j) =~= self.col_content(j).subrange(
            self.col_content(j).len() - self.buf(j).len(),
            self.col_content(j).len() as int,
        ));
    }

    /// The column type at the cursor: the type the next consumed cell must
    /// carry.
    pub fn current_column_type(&self) -> (r: ColType)
        requires
            self.inv(),
        ensures
            r == self.cur_col_type(),
    {
        self.types[self.current_col]
    }

    /// Surrender the sealed batches, consuming the writer.
    fn into_pending(self) -> (r: Vec<ArrowBatch>)
        ensures
            r@ == self.pending_batches(),
    {
        self.pending
    }

    /// Seal the batch in progress (if any) into the pending list and release
    /// the builders. Requires a complete row boundary.
    fn flush(&mut self)
        requires
            old(self).flush_ready(),
        ensures
            final(self).inv(),
            final(self).fields() == old(self).fields(),
            final(self).spec_batch_size() == old(self).spec_batch_size(),
            final(self).spec_ncols() == old(self).spec_ncols(),
            !final(self).buffered(),
            final(self).spec_cursor_row() == 0,
            final(self).spec_cursor_col() == 0,
            forall|j: int|
                0 <= j < old(self).spec_ncols() ==> final(self).col_content(j) == #[trigger] old(
                    self,
                ).col_content(j),
            final(self).pending_batches().len() == old(self).pending_batches().len() + (
            if old(self).buffered() {
                1int
            } else {
                0int
            }),
            final(self).rows_committed() == old(self).rows_committed() + old(
                self,
            ).spec_cursor_row(),
            forall|k: int|
                0 <= k < old(self).pending_batches().len() ==> final(self).pending_batches()[k]
                    == #[trigger] old(self).pending_batches()[k],
    {
        let ghost w0 = *self;
        let mut bs_opt: Option<Vec<ColBuilder>> = None;
        core::mem::swap(&mut bs_opt, &mut self.builders);
        let mut bs: Vec<ColBuilder> = match bs_opt {
            Option::None => {
                return ;
            },
            Option::Some(bs) => bs,
        };
        let ghost bs0 = bs@;
        let n = self.types.len();
        let mut cols: Vec<ColArray> = Vec::new();
        let mut j: usize = 0;
        while j < n
            invariant
                j <= n,
                n == bs0.len(),
                bs@ =~= bs0.subrange(j as int, n as int),
                cols@.len() == j,
                forall|k: int|
                    0 <= k < j ==> col_cells(#[trigger] cols@[k]) == bs0[k].cells() && col_dtype(
                        cols@[k],
                    ) == bs0[k].tag(),
            decreases n - j,
        {
            let cb = bs.remove(0);
            assert(cb == bs0[j as int]);
            cols.push(finish_builder(cb));
            j = j + 1;
        }
        let b = batch_new(&self.arrow_schema, cols);
        proof {
            assert(batch_rows(b) == w0.current_row);
            lemma_flat_col_push(w0.pending@, b, 0);
            lemma_sum_rows_push(w0.pending@, b);
        }
        self.pending.push(b);
        self.current_row = 0;
        self.current_col = 0;
        proof {
            assert forall|jj: int| 0 <= jj < w0.spec_ncols() implies #[trigger] (*self).col_content(
                jj,
            ) == w0.col_content(jj) by {
                lemma_flat_col_push(w0.pending@, b, jj);
                assert(batch_cols(b)[jj] == w0.buf(jj));
                assert((*self).buf(jj) =~= Seq::<CellV>::empty());
                assert((*self).col_content(jj) =~= w0.col_content(jj));
            }
            assert(batch_ok(b, w0.fields(), w0.batch_size as nat));
        }
    }

    /// Append one typed cell value at the cursor. On success the value lands
    /// in the column at the cursor and the cursor advances; a completed row
    /// that fills the batch is sealed. On any error, nothing changes.
    pub fn consume(&mut self, value: Value) -> (r: Result<(), ConnectorError>)
        requires
            old(self).inv(),
        ensures
            final(self).inv(),
            final(self).fields() == old(self).fields(),
            final(self).spec_batch_size() == old(self).spec_batch_size(),
            final(self).spec_ncols() == old(self).spec_ncols(),
            r is Ok <==> cell_fits(value@, old(self).cur_col_type()) && !old(
                self,
            ).consume_overflows(value@),
            !cell_fits(value@, old(self).cur_col_type()) ==> r == Result::<
                (),
                ConnectorError,
            >::Err(
                if value@ is Null {
                    ConnectorError::UnexpectedNull
                } else {
                    ConnectorError::TypeMismatch {
                        expected: old(self).cur_col_type().tag,
                        got: cell_tag(value@),
                    }
                },
            ),
            cell_fits(value@, old(self).cur_col_type()) && old(self).consume_overflows(value@)
                ==> r == Result::<(), ConnectorError>::Err(ConnectorError::OffsetOverflow),
            r is Err ==> *final(self) == *old(self),
            r is Ok ==> {
                let c = old(self).spec_cursor_col() as int;
                let wrapped = c + 1 == old(self).spec_ncols();
                let filled = wrapped && old(self).spec_cursor_row() + 1 == old(
                    self,
                ).spec_batch_size();
                &&& final(self).col_content(c) == old(self).col_content(c).push(value@)
                &&& forall|j: int|
                    0 <= j < old(self).spec_ncols() && j != c ==> final(self).col_content(j)
                        == #[trigger] old(self).col_content(j)
                &&& final(self).spec_cursor_col() == (if wrapped {
                    0int
                } else {
                    c + 1
                })
                &&& final(self).spec_cursor_row() == (if filled {
                    0int
                } else if wrapped {
                    old(self).spec_cursor_row() + 1int
                } else {
                    old(self).spec_cursor_row() as int
                })
                &&& final(self).pending_batches().len() == old(self).pending_batches().len() + (
                if filled {
                    1int
                } else {
                    0int
                })
                &&& final(self).rows_committed() == old(self).rows_committed() + (if filled {
                    old(self).spec_batch_size() as int
                } else {
                    0int
                })
                &&& final(self).buffered() == !filled
                &&& forall|k: int|
                    0 <= k < old(self).pending_batches().len() ==> final(self).pending_batches()[k]
                        == #[trigger] old(self).pending_batches()[k]
            },
    {
        let ghost w0 = *self;
        let ncols = self.types.len();
        let c = self.current_col;
        assert(c < ncols);
        let col: ColType = self.types[c];
        value.check(col)?;

        // A string cell must fit the remaining 32-bit offset range of the
        // column's batch in progress.
        let cur_bytes: u64 = match &self.builders {
            Option::Some(bs) => str_bytes(&bs[c]),
            Option::None => 0,
        };
        assert(cur_bytes == str_data_len(w0.buf(c as int)));
        let overflow: bool = match &value {
            Value::Str(s) => {
                let l: usize = s.as_str().as_bytes().len();
                (l as u64) > UTF8_DATA_MAX - cur_bytes
            },
            _ => false,
        };
        if overflow {
            return Err(ConnectorError::OffsetOverflow);
        }
        assert(value@ is Str ==> cell_bytes(value@) + str_data_len(w0.buf(c as int))
            <= UTF8_DATA_MAX);

        // Lazy allocation: builders appear on the first consumed cell.
        if self.builders.is_none() {
            let n = self.types.len();
            let cap = self.batch_size;
            let mut bs: Vec<ColBuilder> = Vec::new();
            let mut j: usize = 0;
            while j < n
                invariant
                    j <= n,
                    n == self.types@.len(),
                    cap == self.batch_size,
                    *self == w0,
                    bs@.len() == j,
                    forall|k: int|
                        0 <= k < j ==> (#[trigger] bs@[k]).wf() && bs@[k].tag()
                            == self.types@[k].tag && bs@[k].cells() =~= Seq::<CellV>::empty(),
                    forall|k: int|
                        0 <= k < self.types@.len() ==> spec_tag_supported(
                            (#[trigger] self.types@[k]).tag,
                        ),
                decreases n - j,
            {
                bs.push(new_builder(self.types[j].tag, cap));
                j = j + 1;
            }
            self.builders = Some(bs);
        }

        // Append through the typed dispatch.
        let mut bs_opt: Option<Vec<ColBuilder>> = None;
        core::mem::swap(&mut bs_opt, &mut self.builders);
        let mut bs: Vec<ColBuilder> = match bs_opt {
            Option::Some(bs) => bs,
            Option::None => {
                proof {
                    assert(false);
                }
                Vec::new()
            },
        };
        let ghost bs_before = bs@;
        let cb = bs.remove(c);
        assert(cb.cells() == w0.buf(c as int));
        let cb = append_value(cb, value);
        bs.insert(c, cb);
        proof {
            assert(bs@ =~= bs_before.update(c as int, cb));
        }
        self.builders = Some(bs);
        proof {
            assert forall|j: int| 0 <= j < w0.spec_ncols() && j != c implies (*self).col_content(j)
                == w0.col_content(j) by {
                assert((*self).buf(j) == w0.buf(j));
                assert((*self).col_content(j) =~= w0.col_content(j));
            }
            assert((*self).buf(c as int) == w0.buf(c as int).push(value@));
            assert((*self).col_content(c as int) =~= w0.col_content(c as int).push(value@));
        }

        let ghost mid = *self;

        // Advance the cursor; a completed row that fills the batch is sealed.
        self.current_col = c + 1;
        let ghost mut did_flush = false;
        let ghost mut pre_flush = *self;
        if self.current_col == ncols {
            self.current_col = 0;
            self.current_row = self.current_row + 1;
            if self.current_row >= self.batch_size {
                proof {
                    did_flush = true;
                    pre_flush = *self;
                    assert forall|j: int| 0 <= j < pre_flush.spec_ncols() implies #[trigger] pre_flush.col_content(j)
                        == mid.col_content(j) by {
                        assert(pre_flush.buf(j) == mid.buf(j));
                    }
                }
                self.flush();
            }
        }
        proof {
            let cI = c as int;
            if did_flush {
                assert forall|j: int| 0 <= j < w0.spec_ncols() implies #[trigger] (*self).col_content(j)
                    == mid.col_content(j) by {
                    assert((*self).col_content(j) == pre_flush.col_content(j));
                }
            } else {
                assert forall|j: int| 0 <= j < w0.spec_ncols() implies #[trigger] (*self).col_content(j)
                    == mid.col_content(j) by {
                    assert((*self).buf(j) == mid.buf(j));
                }
            }
            assert((*self).col_content(cI) == w0.col_content(cI).push(value@));
        }
        Ok(())
    }

    /// Seal whatever rows are buffered (even an under-full batch) and release
    /// the builders. A writer with no batch in progress is left unchanged, so
    /// finalizing twice never pushes an empty batch. Fails with
    /// `ShapeMismatch` in the middle of a row.
    pub fn finalize(&mut self) -> (r: Result<(), ConnectorError>)
        requires
            old(self).inv(),
        ensures
            final(self).inv(),
            final(self).fields() == old(self).fields(),
            final(self).spec_batch_size() == old(self).spec_batch_size(),
            final(self).spec_ncols() == old(self).spec_ncols(),
            r is Ok <==> old(self).spec_cursor_col() == 0,
            r is Err ==> *final(self) == *old(self) && r == Result::<(), ConnectorError>::Err(
                ConnectorError::ShapeMismatch,
            ),
            r is Ok ==> {
                &&& forall|j: int|
                    0 <= j < old(self).spec_ncols() ==> final(self).col_content(j)
                        == #[trigger] old(self).col_content(j)
                &&& !final(self).buffered()
                &&& final(self).spec_cursor_row() == 0
                &&& final(self).spec_cursor_col() == 0
                &&& final(self).pending_batches().len() == old(self).pending_batches().len() + (
                if old(self).buffered() {
                    1int
                } else {
                    0int
                })
                &&& final(self).rows_committed() == old(self).rows_committed() + old(
                    self,
                ).spec_cursor_row()
                &&& forall|k: int|
                    0 <= k < old(self).pending_batches().len() ==> final(self).pending_batches()[k]
                        == #[trigger] old(self).pending_batches()[k]
            },
    {
        if self.current_col != 0 {
            return Err(ConnectorError::ShapeMismatch);
        }
        self.flush();
        Ok(())
    }
}

fn copy_types(v: &Vec<ColType>) -> (r: Vec<ColType>)
    ensures
        r@ == v@,
{
    let mut r: Vec<ColType> = Vec::new();
    let n = v.len();
    let mut j: usize = 0;
    while j < n
        invariant
            j <= n,
            n == v@.len(),
            r@ =~= v@.subrange(0, j as int),
        decreases n - j,
    {
        r.push(v[j]);
        j = j + 1;
    }
    proof {
        assert(r@ =~= v@);
    }
    r
}

/// The columnar destination: holds the canonical schema and the accumulated
/// record batches, and tracks how many partition writers are outstanding.
/// `finish` refuses to unwrap the output while any writer is outstanding.
pub struct ArrowDestination {
    schema: Schema,
    arrow_schema: Option<SchemaHandle>,
    data: Vec<ArrowBatch>,
    batch_size: usize,
    writers: usize,
}

impl ArrowDestination {
    /// Whether `set_schema` has completed.
    pub closed spec fn schema_set(self) -> bool {
        self.arrow_schema is Some
    }

    /// The fields of the canonical schema, once set.
    pub closed spec fn fields(self) -> Seq<FieldV> {
        schema_fields(self.arrow_schema->0)
    }

    /// The accumulated batches, in push order.
    pub closed spec fn batches(self) -> Seq<ArrowBatch> {
        self.data@
    }

    /// How many writers have been allocated and not collected back.
    pub closed spec fn writer_count(self) -> nat {
        self.writers as nat
    }

    pub closed spec fn spec_batch_size(self) -> nat {
        self.batch_size as nat
    }

    /// The destination invariant.
    pub closed spec fn inv(self) -> bool {
        &&& self.batch_size >= 1
        &&& self.schema.wf()
        &&& match self.arrow_schema {
            Option::None => self.schema.spec_len() == 0 && self.data@.len() == 0 && self.writers
                == 0,
            Option::Some(h) => {
                &&& schema_fields(h) == fields_of_schema(self.schema)
                &&& self.schema.spec_len() >= 1
                &&& forall|j: int|
                    0 <= j < self.schema.types@.len() ==> spec_tag_supported(
                        (#[trigger] self.schema.types@[j]).tag,
                    )
                &&& forall|k: int|
                    0 <= k < self.data@.len() ==> batch_ok(
                        #[trigger] self.data@[k],
                        schema_fields(h),
                        self.batch_size as nat,
                    )
            },
        }
    }

    /// The data orders this destination can consume: row-major only in this
    /// profile.
    pub fn supported_data_orders() -> (r: Vec<DataOrder>)
        ensures
            r@ =~= seq![DataOrder::RowMajor],
    {
        let mut orders: Vec<DataOrder> = Vec::new();
        orders.push(DataOrder::RowMajor);
        orders
    }

    pub fn new() -> (r: ArrowDestination)
        ensures
            r.inv(),
            !r.schema_set(),
            r.batches().len() == 0,
            r.writer_count() == 0,
            r.spec_batch_size() == RECORD_BATCH_SIZE,
    {
        ArrowDestination {
            schema: Schema::empty(),
            arrow_schema: None,
            data: Vec::new(),
            batch_size: RECORD_BATCH_SIZE,
            writers: 0,
        }
    }

    pub fn new_with_batch_size(batch_size: usize) -> (r: ArrowDestination)
        requires
            batch_size >= 1,
        ensures
            r.inv(),
            !r.schema_set(),
            r.batches().len() == 0,
            r.writer_count() == 0,
            r.spec_batch_size() == batch_size,
    {
        ArrowDestination {
            schema: Schema::empty(),
            arrow_schema: None,
            data: Vec::new(),
            batch_size,
            writers: 0,
        }
    }

    /// Record the canonical schema and realize the arrow schema by invoking
    /// the field constructor for every column. A schema with no columns is
    /// rejected, as is any column whose tag the destination does not support.
    pub fn set_schema(&mut self, schema: Schema) -> (r: Result<(), ConnectorError>)
        requires
            old(self).inv(),
            !old(self).schema_set(),
            schema.wf(),
        ensures
            final(self).inv(),
            final(self).spec_batch_size() == old(self).spec_batch_size(),
            r is Ok <==> schema.spec_len() >= 1 && forall|j: int|
                0 <= j < schema.types@.len() ==> spec_tag_supported(
                    (#[trigger] schema.types@[j]).tag,
                ),
            schema.spec_len() == 0 ==> r == Result::<(), ConnectorError>::Err(
                ConnectorError::SchemaUnavailable,
            ),
            r matches Err(ConnectorError::UnsupportedType(t)) ==> exists|j: int|
                0 <= j < schema.types@.len() && (#[trigger] schema.types@[j]).tag == t
                    && !spec_tag_supported(t),
            r is Err ==> *final(self) == *old(self),
            r is Ok ==> {
                &&& final(self).schema_set()
                &&& final(self).fields() == fields_of_schema(schema)
                &&& final(self).batches() == old(self).batches()
                &&& final(self).writer_count() == old(self).writer_count()
            },
    {
        let n = schema.len();
        if n == 0 {
            return Err(ConnectorError::SchemaUnavailable);
        }
        let mut j: usize = 0;
        while j < n
            invariant
                j <= n,
                n == schema.types@.len(),
                schema.wf(),
                old(self).inv(),
                !old(self).schema_set(),
                *self == *old(self),
                forall|k: int|
                    0 <= k < j ==> spec_tag_supported((#[trigger] schema.types@[k]).tag),
            decreases n - j,
        {
            if !tag_supported(schema.types[j].tag) {
                return Err(ConnectorError::UnsupportedType(schema.types[j].tag));
            }
            j = j + 1;
        }
        let mut fields: Vec<ColField> = Vec::new();
        let mut j: usize = 0;
        while j < n
            invariant
                j <= n,
                n == schema.types@.len(),
                schema.wf(),
                forall|k: int|
                    0 <= k < n ==> spec_tag_supported((#[trigger] schema.types@[k]).tag),
                fields@.len() == j,
                forall|k: int|
                    0 <= k < j ==> field_view(#[trigger] fields@[k]) == (FieldV {
                        name: schema.names@[k]@,
                        col: schema.types@[k],
                    }),
            decreases n - j,
        {
            fields.push(new_field(schema.names[j].as_str(), schema.types[j]));
            j = j + 1;
        }
        let handle = schema_new(fields);
        proof {
            assert(schema_fields(handle) =~= fields_of_schema(schema));
        }
        self.arrow_schema = Some(handle);
        self.schema = schema;
        Ok(())
    }

    /// A read-only view of the canonical schema.
    pub fn schema(&self) -> (r: &Schema)
        requires
            self.inv(),
        ensures
            r.wf(),
            self.schema_set() ==> fields_of_schema(*r) == self.fields(),
    {
        &self.schema
    }

    /// A shared handle to the realized arrow schema.
    pub fn arrow_schema(&self) -> (r: SchemaHandle)
        requires
            self.inv(),
            self.schema_set(),
        ensures
            schema_fields(r) == self.fields(),
    {
        let h = match &self.arrow_schema {
            Option::Some(h) => h,
            Option::None => {
                proof {
                    assert(false);
                }
                vstd::pervasive::unreached()
            },
        };
        schema_clone(h)
    }

    /// Construct a partition writer sharing this destination's schema and
    /// batch bound. Only row-major production is supported; any other order
    /// is rejected and nothing changes.
    pub fn alloc_writer(&mut self, data_order: DataOrder) -> (r: Result<
        ArrowPartitionWriter,
        ConnectorError,
    >)
        requires
            old(self).inv(),
            old(self).schema_set(),
            old(self).writer_count() < usize::MAX,
        ensures
            final(self).inv(),
            r is Ok <==> data_order == DataOrder::RowMajor,
            r is Err ==> *final(self) == *old(self) && r == Result::<
                ArrowPartitionWriter,
                ConnectorError,
            >::Err(ConnectorError::UnsupportedDataOrder(data_order)),
            r is Ok ==> {
                &&& final(self).schema_set()
                &&& final(self).fields() == old(self).fields()
                &&& final(self).batches() == old(self).batches()
                &&& final(self).spec_batch_size() == old(self).spec_batch_size()
                &&& final(self).writer_count() == old(self).writer_count() + 1
                &&& r->Ok_0.inv()
                &&& r->Ok_0.is_fresh()
                &&& r->Ok_0.fields() == old(self).fields()
                &&& r->Ok_0.spec_batch_size() == old(self).spec_batch_size()
            },
    {
        if !matches!(data_order, DataOrder::RowMajor) {
            return Err(ConnectorError::UnsupportedDataOrder(data_order));
        }
        let handle = match &self.arrow_schema {
            Option::Some(h) => schema_clone(h),
            Option::None => {
                proof {
                    assert(false);
                }
                vstd::pervasive::unreached()
            },
        };
        let types = copy_types(&self.schema.types);
        self.writers = self.writers + 1;
        Ok(ArrowPartitionWriter::new(types, handle, self.batch_size))
    }

    /// Take back a finished partition writer: its sealed batches move into
    /// the destination's output list, in the writer's order, and the writer
    /// is no longer outstanding.
    pub fn collect_writer(&mut self, w: ArrowPartitionWriter) -> (r: Result<(), ConnectorError>)
        requires
            old(self).inv(),
            old(self).schema_set(),
            w.inv(),
            w.fields() == old(self).fields(),
            w.spec_batch_size() == old(self).spec_batch_size(),
        ensures
            final(self).inv(),
            old(self).writer_count() == 0 ==> r == Result::<(), ConnectorError>::Err(
                ConnectorError::WritersOutstanding,
            ) && *final(self) == *old(self),
            old(self).writer_count() >= 1 ==> r is Ok && {
                &&& final(self).schema_set()
                &&& final(self).fields() == old(self).fields()
                &&& final(self).spec_batch_size() == old(self).spec_batch_size()
                &&& final(self).batches() == old(self).batches() + w.pending_batches()
                &&& final(self).writer_count() == old(self).writer_count() - 1
            },
    {
        if self.writers == 0 {
            return Err(ConnectorError::WritersOutstanding);
        }
        let ghost d0 = *self;
        let ghost wv = w;
        let mut pending = w.into_pending();
        self.data.append(&mut pending);
        self.writers = self.writers - 1;
        proof {
            assert(self.data@ =~= d0.data@ + wv.pending_batches());
            assert forall|k: int| 0 <= k < self.data@.len() implies batch_ok(
                #[trigger] self.data@[k],
                d0.fields(),
                d0.batch_size as nat,
            ) by {
                if k >= d0.data@.len() {
                    assert(self.data@[k] == wv.pending_batches()[k - d0.data@.len()]);
                }
            }
        }
        Ok(())
    }

    /// Unwrap the accumulated batches. Fails while any writer is still
    /// outstanding; otherwise every batch conforms to the schema, is
    /// rectangular, non-empty, and no longer than the batch bound.
    pub fn finish(self) -> (r: Result<Vec<ArrowBatch>, ConnectorError>)
        requires
            self.inv(),
        ensures
            r is Ok <==> self.writer_count() == 0,
            r is Err ==> r == Result::<Vec<ArrowBatch>, ConnectorError>::Err(
                ConnectorError::WritersOutstanding,
            ),
            r is Ok ==> {
                &&& r->Ok_0@ == self.batches()
                &&& self.schema_set() ==> forall|k: int|
                    0 <= k < r->Ok_0@.len() ==> batch_ok(
                        #[trigger] r->Ok_0@[k],
                        self.fields(),
                        self.spec_batch_size(),
                    )
            },
    {
        if self.writers != 0 {
            return Err(ConnectorError::WritersOutstanding);
        }
        Ok(self.data)
    }

    /// Pop one batch for a streaming consumer. Batches come back in reverse
    /// push order (last in, first out).
    pub fn get_one(&mut self) -> (r: Option<ArrowBatch>)
        requires
            old(self).inv(),
        ensures
            final(self).inv(),
            final(self).schema_set() == old(self).schema_set(),
            final(self).writer_count() == old(self).writer_count(),
            final(self).spec_batch_size() == old(self).spec_batch_size(),
            old(self).batches().len() == 0 ==> r is None && final(self).batches() == old(
                self,
            ).batches(),
            old(self).batches().len() >= 1 ==> r == Option::Some(old(self).batches().last())
                && final(self).batches() == old(self).batches().drop_last(),
    {
        self.data.pop()
    }
}

impl Default for ArrowDestination {
    /// A destination with the default batch bound and nothing set yet.
    fn default() -> (r: ArrowDestination)
        ensures
            r.inv(),
            !r.schema_set(),
            r.batches().len() == 0,
            r.writer_count() == 0,
            r.spec_batch_size() == RECORD_BATCH_SIZE,
    {
        ArrowDestination::new()
    }
}

} // verus!
