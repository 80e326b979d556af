use arrow::array::{Array, BooleanArray, Int32Array, Int64Array, StringArray};
use connector_arrow::destination::ArrowDestination;
use connector_arrow::errors::ConnectorError;
use connector_arrow::typesys::{ColType, DataOrder, Schema, TypeTag, Value};

fn schema_of(cols: &[(&str, TypeTag, bool)]) -> Schema {
    Schema {
        names: cols.iter().map(|c| c.0.to_string()).collect(),
        types: cols
            .iter()
            .map(|c| ColType {
                tag: c.1,
                nullable: c.2,
            })
            .collect(),
    }
}

#[test]
fn zero_row_partition_yields_no_batch() {
    let mut dest = ArrowDestination::new_with_batch_size(100);
    dest.set_schema(schema_of(&[("x", TypeTag::Int64, false)]))
        .unwrap();
    let mut w = dest.alloc_writer(DataOrder::RowMajor).unwrap();
    w.finalize().unwrap();
    dest.collect_writer(w).unwrap();
    let batches = dest.finish().unwrap();
    assert_eq!(batches.len(), 0);
}

#[test]
fn exact_multiple_of_batch_size_has_no_short_tail() {
    let mut dest = ArrowDestination::new_with_batch_size(5);
    dest.set_schema(schema_of(&[("x", TypeTag::Int64, false)]))
        .unwrap();
    let mut w = dest.alloc_writer(DataOrder::RowMajor).unwrap();
    for i in 0..15i64 {
        w.consume(Value::Int64(i)).unwrap();
    }
    w.finalize().unwrap();
    dest.collect_writer(w).unwrap();
    let batches = dest.finish().unwrap();
    assert_eq!(batches.len(), 3);
    for b in &batches {
        assert_eq!(b.inner.num_rows(), 5);
    }
}

#[test]
fn batch_size_one_gives_one_batch_per_row() {
    let mut dest = ArrowDestination::new_with_batch_size(1);
    dest.set_schema(schema_of(&[("x", TypeTag::Int64, false)]))
        .unwrap();
    let mut w = dest.alloc_writer(DataOrder::RowMajor).unwrap();
    for i in 0..4i64 {
        w.consume(Value::Int64(i)).unwrap();
    }
    w.finalize().unwrap();
    dest.collect_writer(w).unwrap();
    let batches = dest.finish().unwrap();
    assert_eq!(batches.len(), 4);
    for (i, b) in batches.iter().enumerate() {
        assert_eq!(b.inner.num_rows(), 1);
        let col = b.inner.column(0);
        let col = col.as_any().downcast_ref::<Int64Array>().unwrap();
        assert_eq!(col.value(0), i as i64);
    }
}

#[test]
fn two_hundred_fifty_rows_make_three_batches() {
    // 250 rows of (Int32, Utf8) at batch size 100: lengths 100, 100, 50, and
    // the first column's concatenation is 0..250.
    let mut dest = ArrowDestination::new_with_batch_size(100);
    dest.set_schema(schema_of(&[
        ("n", TypeTag::Int32, false),
        ("s", TypeTag::Utf8, false),
    ]))
    .unwrap();
    let mut w = dest.alloc_writer(DataOrder::RowMajor).unwrap();
    for i in 0..250i32 {
        w.consume(Value::Int32(i)).unwrap();
        w.consume(Value::Str(format!("row-{i}"))).unwrap();
    }
    w.finalize().unwrap();
    dest.collect_writer(w).unwrap();
    let batches = dest.finish().unwrap();
    assert_eq!(batches.len(), 3);
    assert_eq!(batches[0].inner.num_rows(), 100);
    assert_eq!(batches[1].inner.num_rows(), 100);
    assert_eq!(batches[2].inner.num_rows(), 50);
    let mut all: Vec<i32> = Vec::new();
    let mut strs: Vec<String> = Vec::new();
    for b in &batches {
        let c0 = b.inner.column(0);
        let c0 = c0.as_any().downcast_ref::<Int32Array>().unwrap();
        let c1 = b.inner.column(1);
        let c1 = c1.as_any().downcast_ref::<StringArray>().unwrap();
        for i in 0..b.inner.num_rows() {
            all.push(c0.value(i));
            strs.push(c1.value(i).to_string());
        }
    }
    assert_eq!(all, (0..250).collect::<Vec<i32>>());
    assert_eq!(strs[17], "row-17");
    assert_eq!(strs[249], "row-249");
}

#[test]
fn batches_are_rectangular_and_schema_conforming() {
    let mut dest = ArrowDestination::new_with_batch_size(3);
    dest.set_schema(schema_of(&[
        ("a", TypeTag::Int64, true),
        ("b", TypeTag::Boolean, false),
    ]))
    .unwrap();
    let mut w = dest.alloc_writer(DataOrder::RowMajor).unwrap();
    for i in 0..7i64 {
        w.consume(Value::Int64(i)).unwrap();
        w.consume(Value::Bool(i % 2 == 0)).unwrap();
    }
    w.finalize().unwrap();
    dest.collect_writer(w).unwrap();
    let batches = dest.finish().unwrap();
    assert_eq!(batches.len(), 3);
    for b in &batches {
        let schema = b.inner.schema();
        assert_eq!(schema.field(0).name(), "a");
        assert_eq!(
            schema.field(0).data_type(),
            &arrow::datatypes::DataType::Int64
        );
        assert!(schema.field(0).is_nullable());
        assert_eq!(schema.field(1).name(), "b");
        assert_eq!(
            schema.field(1).data_type(),
            &arrow::datatypes::DataType::Boolean
        );
        assert!(!schema.field(1).is_nullable());
        let rows = b.inner.num_rows();
        assert!(rows >= 1 && rows <= 3);
        for c in b.inner.columns() {
            assert_eq!(c.len(), rows);
        }
    }
    // The boolean cells came through value by value.
    let flags = batches[0]
        .inner
        .column(1)
        .as_any()
        .downcast_ref::<BooleanArray>()
        .unwrap();
    assert_eq!(flags.value(0), true);
    assert_eq!(flags.value(1), false);
    assert_eq!(flags.value(2), true);
}

#[test]
fn null_mask_round_trips_exactly() {
    let mut dest = ArrowDestination::new_with_batch_size(10);
    dest.set_schema(schema_of(&[
        ("x", TypeTag::Int64, true),
        ("y", TypeTag::Utf8, true),
    ]))
    .unwrap();
    let mut w = dest.alloc_writer(DataOrder::RowMajor).unwrap();
    w.consume(Value::Int64(1)).unwrap();
    w.consume(Value::Str("a".to_string())).unwrap();
    w.consume(Value::Null).unwrap();
    w.consume(Value::Null).unwrap();
    w.consume(Value::Int64(3)).unwrap();
    w.consume(Value::Str("c".to_string())).unwrap();
    w.finalize().unwrap();
    dest.collect_writer(w).unwrap();
    let batches = dest.finish().unwrap();
    assert_eq!(batches.len(), 1);
    let b = &batches[0].inner;
    assert_eq!(b.num_rows(), 3);
    let c0 = b.column(0);
    let c0 = c0.as_any().downcast_ref::<Int64Array>().unwrap();
    assert!(!c0.is_null(0) && c0.value(0) == 1);
    assert!(c0.is_null(1));
    assert!(!c0.is_null(2) && c0.value(2) == 3);
    assert_eq!(c0.null_count(), 1);
    let c1 = b.column(1);
    let c1 = c1.as_any().downcast_ref::<StringArray>().unwrap();
    assert_eq!(c1.value(0), "a");
    assert!(c1.is_null(1));
    assert_eq!(c1.value(2), "c");
}

#[test]
fn finalizing_twice_pushes_no_empty_batch() {
    let mut dest = ArrowDestination::new_with_batch_size(10);
    dest.set_schema(schema_of(&[("x", TypeTag::Int64, false)]))
        .unwrap();
    let mut w = dest.alloc_writer(DataOrder::RowMajor).unwrap();
    w.consume(Value::Int64(42)).unwrap();
    w.finalize().unwrap();
    w.finalize().unwrap();
    dest.collect_writer(w).unwrap();
    let batches = dest.finish().unwrap();
    assert_eq!(batches.len(), 1);
    assert_eq!(batches[0].inner.num_rows(), 1);
}

#[test]
fn empty_schema_is_rejected() {
    let mut dest = ArrowDestination::new();
    let err = dest
        .set_schema(Schema {
            names: vec![],
            types: vec![],
        })
        .unwrap_err();
    assert_eq!(err, ConnectorError::SchemaUnavailable);
}

#[test]
fn unsupported_column_type_is_rejected_at_set_schema() {
    let mut dest = ArrowDestination::new();
    let err = dest
        .set_schema(schema_of(&[("f", TypeTag::Float64, false)]))
        .unwrap_err();
    assert_eq!(err, ConnectorError::UnsupportedType(TypeTag::Float64));
}

#[test]
fn column_major_writer_is_rejected_and_state_unchanged() {
    let mut dest = ArrowDestination::new_with_batch_size(10);
    dest.set_schema(schema_of(&[("x", TypeTag::Int64, false)]))
        .unwrap();
    let err = match dest.alloc_writer(DataOrder::ColumnMajor) {
        Err(e) => e,
        Ok(_) => panic!("a column-major writer must be refused"),
    };
    assert_eq!(err, ConnectorError::UnsupportedDataOrder(DataOrder::ColumnMajor));
    // No writer was created: finish succeeds with an empty output.
    let batches = dest.finish().unwrap();
    assert_eq!(batches.len(), 0);
}

#[test]
fn type_mismatch_surfaces_before_any_append() {
    let mut dest = ArrowDestination::new_with_batch_size(10);
    dest.set_schema(schema_of(&[("x", TypeTag::Int64, false)]))
        .unwrap();
    let mut w = dest.alloc_writer(DataOrder::RowMajor).unwrap();
    let err = w.consume(Value::Str("oops".to_string())).unwrap_err();
    assert_eq!(
        err,
        ConnectorError::TypeMismatch {
            expected: TypeTag::Int64,
            got: TypeTag::Utf8
        }
    );
    // Nothing was appended: finalizing yields no batch.
    w.finalize().unwrap();
    dest.collect_writer(w).unwrap();
    assert_eq!(dest.finish().unwrap().len(), 0);
}

#[test]
fn null_into_non_nullable_column_is_rejected() {
    let mut dest = ArrowDestination::new_with_batch_size(10);
    dest.set_schema(schema_of(&[("x", TypeTag::Int64, false)]))
        .unwrap();
    let mut w = dest.alloc_writer(DataOrder::RowMajor).unwrap();
    let err = w.consume(Value::Null).unwrap_err();
    assert_eq!(err, ConnectorError::UnexpectedNull);
}

#[test]
fn finish_with_outstanding_writer_fails() {
    let mut dest = ArrowDestination::new_with_batch_size(10);
    dest.set_schema(schema_of(&[("x", TypeTag::Int64, false)]))
        .unwrap();
    let _w = dest.alloc_writer(DataOrder::RowMajor).unwrap();
    let err = match dest.finish() {
        Err(e) => e,
        Ok(_) => panic!("finish must refuse while a writer is outstanding"),
    };
    assert_eq!(err, ConnectorError::WritersOutstanding);
}

#[test]
fn finalize_mid_row_is_a_shape_mismatch() {
    let mut dest = ArrowDestination::new_with_batch_size(10);
    dest.set_schema(schema_of(&[
        ("x", TypeTag::Int64, false),
        ("y", TypeTag::Int64, false),
    ]))
    .unwrap();
    let mut w = dest.alloc_writer(DataOrder::RowMajor).unwrap();
    w.consume(Value::Int64(1)).unwrap();
    let err = w.finalize().unwrap_err();
    assert_eq!(err, ConnectorError::ShapeMismatch);
}

#[test]
fn get_one_pops_in_reverse_push_order() {
    let mut dest = ArrowDestination::new_with_batch_size(1);
    dest.set_schema(schema_of(&[("x", TypeTag::Int64, false)]))
        .unwrap();
    let mut w = dest.alloc_writer(DataOrder::RowMajor).unwrap();
    w.consume(Value::Int64(10)).unwrap();
    w.consume(Value::Int64(20)).unwrap();
    w.finalize().unwrap();
    dest.collect_writer(w).unwrap();
    let last = dest.get_one().unwrap();
    let col = last.inner.column(0).as_any().downcast_ref::<Int64Array>().unwrap().value(0);
    assert_eq!(col, 20);
    let first = dest.get_one().unwrap();
    let col = first.inner.column(0).as_any().downcast_ref::<Int64Array>().unwrap().value(0);
    assert_eq!(col, 10);
    assert!(dest.get_one().is_none());
}

#[test]
fn column_count_matches_schema() {
    let mut dest = ArrowDestination::new_with_batch_size(10);
    dest.set_schema(schema_of(&[
        ("x", TypeTag::Int64, false),
        ("y", TypeTag::Utf8, true),
        ("z", TypeTag::Boolean, false),
    ]))
    .unwrap();
    let w = dest.alloc_writer(DataOrder::RowMajor).unwrap();
    assert_eq!(w.column_count(), 3);
    assert_eq!(
        ArrowDestination::supported_data_orders(),
        vec![DataOrder::RowMajor]
    );
}

#[test]
fn arrow_schema_reflects_the_canonical_schema() {
    let mut dest = ArrowDestination::new_with_batch_size(10);
    dest.set_schema(schema_of(&[
        ("x", TypeTag::Int64, false),
        ("y", TypeTag::Utf8, true),
    ]))
    .unwrap();
    let handle = dest.arrow_schema();
    let s = handle.inner;
    assert_eq!(s.fields().len(), 2);
    assert_eq!(s.field(0).name(), "x");
    assert_eq!(s.field(0).data_type(), &arrow::datatypes::DataType::Int64);
    assert!(!s.field(0).is_nullable());
    assert_eq!(s.field(1).name(), "y");
    assert_eq!(s.field(1).data_type(), &arrow::datatypes::DataType::Utf8);
    assert!(s.field(1).is_nullable());
}
