use arrow::array::{Array, Date32Array, Int64Array, StringArray, Time64MicrosecondArray,
    TimestampMicrosecondArray};
use connector_arrow::bigquery::{BigQuerySourceParser, ResultPage};
use connector_arrow::destination::ArrowDestination;
use connector_arrow::errors::ConnectorError;
use connector_arrow::pipeline::{transfer_cell, write_rows};
use connector_arrow::typesys::{ColType, DataOrder, Schema, TimeUnit, TypeTag, Value};

fn schema_of(cols: &[(&str, TypeTag, bool)]) -> Schema {
    Schema {
        names: cols.iter().map(|c| c.0.to_string()).collect(),
        types: cols
            .iter()
            .map(|c| ColType {
                tag: c.1,
                nullable: c.2,
            })
            .collect(),
    }
}

fn int_page(lo: i64, hi: i64, token: Option<&str>, total: u64) -> ResultPage {
    ResultPage {
        rows: (lo..hi).map(|i| vec![Some(i.to_string())]).collect(),
        page_token: token.map(|s| s.to_string()),
        total_rows: Some(total.to_string()),
    }
}

#[test]
fn write_rows_conserves_and_batches() {
    // 7 rows at batch bound 3: two full batches sealed, one row buffered
    // until finalize; 3 batches in all, no cell lost or duplicated.
    let mut dest = ArrowDestination::new_with_batch_size(3);
    dest.set_schema(schema_of(&[
        ("n", TypeTag::Int64, false),
        ("s", TypeTag::Utf8, false),
    ]))
    .unwrap();
    let mut w = dest.alloc_writer(DataOrder::RowMajor).unwrap();
    let rows: Vec<Vec<Value>> = (0..7i64)
        .map(|i| vec![Value::Int64(i), Value::Str(format!("s{i}"))])
        .collect();
    write_rows(&mut w, &rows).unwrap();
    w.finalize().unwrap();
    dest.collect_writer(w).unwrap();
    let batches = dest.finish().unwrap();
    assert_eq!(batches.len(), 3);
    let lens: Vec<usize> = batches.iter().map(|b| b.inner.num_rows()).collect();
    assert_eq!(lens, vec![3, 3, 1]);
    assert_eq!(lens.iter().sum::<usize>(), rows.len());
    let mut all: Vec<i64> = Vec::new();
    for b in &batches {
        let c = b.inner.column(0);
        let c = c.as_any().downcast_ref::<Int64Array>().unwrap();
        for i in 0..b.inner.num_rows() {
            all.push(c.value(i));
        }
    }
    assert_eq!(all, (0..7).collect::<Vec<i64>>());
}

#[test]
fn write_rows_of_nothing_writes_nothing() {
    let mut dest = ArrowDestination::new_with_batch_size(3);
    dest.set_schema(schema_of(&[("n", TypeTag::Int64, false)]))
        .unwrap();
    let mut w = dest.alloc_writer(DataOrder::RowMajor).unwrap();
    let rows: Vec<Vec<Value>> = vec![];
    write_rows(&mut w, &rows).unwrap();
    w.finalize().unwrap();
    dest.collect_writer(w).unwrap();
    assert_eq!(dest.finish().unwrap().len(), 0);
}

#[test]
fn schema_probe_roundtrip_one_row() {
    // One batch of one row [1, "a"] under the probed schema.
    let mut dest = ArrowDestination::new_with_batch_size(100);
    dest.set_schema(schema_of(&[
        ("x", TypeTag::Int64, false),
        ("y", TypeTag::Utf8, false),
    ]))
    .unwrap();
    let mut w = dest.alloc_writer(DataOrder::RowMajor).unwrap();
    let mut parser = BigQuerySourceParser::new(
        ResultPage {
            rows: vec![vec![Some("1".to_string()), Some("a".to_string())]],
            page_token: None,
            total_rows: Some("1".to_string()),
        },
        2,
    );
    let (n, last) = parser.fetch_next().unwrap();
    assert_eq!((n, last), (1, true));
    for _ in 0..n {
        for _ in 0..2 {
            transfer_cell(&mut parser, &mut w).unwrap();
        }
    }
    w.finalize().unwrap();
    dest.collect_writer(w).unwrap();
    let batches = dest.finish().unwrap();
    assert_eq!(batches.len(), 1);
    let b = &batches[0].inner;
    assert_eq!(b.num_rows(), 1);
    let x = b.column(0).as_any().downcast_ref::<Int64Array>().unwrap().value(0);
    assert_eq!(x, 1);
    let c1 = b.column(1);
    let y = c1.as_any().downcast_ref::<StringArray>().unwrap();
    assert_eq!(y.value(0), "a");
}

#[test]
fn paged_source_produces_every_row() {
    // The source reports 175 rows and returns them 100 per page; the parser
    // re-fetches at the page boundary and the output holds all 175 rows in
    // two batches at a batch bound of 100.
    let mut dest = ArrowDestination::new_with_batch_size(100);
    dest.set_schema(schema_of(&[("n", TypeTag::Int64, false)]))
        .unwrap();
    let mut w = dest.alloc_writer(DataOrder::RowMajor).unwrap();
    let mut parser = BigQuerySourceParser::new(int_page(0, 100, Some("page-2"), 175), 1);
    let (total, last) = parser.fetch_next().unwrap();
    assert_eq!((total, last), (175, true));
    let mut produced = 0usize;
    while produced < total {
        if parser.page_exhausted() {
            let token = parser.page_token();
            assert_eq!(token, Some("page-2".to_string()));
            let next = int_page(100, 175, None, 175);
            parser.load_page(next.rows, next.page_token);
        }
        transfer_cell(&mut parser, &mut w).unwrap();
        produced += 1;
    }
    w.finalize().unwrap();
    dest.collect_writer(w).unwrap();
    let batches = dest.finish().unwrap();
    assert_eq!(batches.len(), 2);
    assert_eq!(batches[0].inner.num_rows(), 100);
    assert_eq!(batches[1].inner.num_rows(), 75);
    let mut all: Vec<i64> = Vec::new();
    for b in &batches {
        let c = b.inner.column(0);
        let c = c.as_any().downcast_ref::<Int64Array>().unwrap();
        for i in 0..b.inner.num_rows() {
            all.push(c.value(i));
        }
    }
    assert_eq!(all, (0..175).collect::<Vec<i64>>());
}

#[test]
fn transfer_rejects_columns_outside_the_supported_set() {
    // A Boolean column accepts its cells; nullable columns accept nulls.
    let mut dest = ArrowDestination::new_with_batch_size(10);
    dest.set_schema(schema_of(&[("b", TypeTag::Boolean, true)]))
        .unwrap();
    let mut w = dest.alloc_writer(DataOrder::RowMajor).unwrap();
    let mut parser = BigQuerySourceParser::new(
        ResultPage {
            rows: vec![vec![Some("true".to_string())], vec![None]],
            page_token: None,
            total_rows: Some("2".to_string()),
        },
        1,
    );
    transfer_cell(&mut parser, &mut w).unwrap();
    transfer_cell(&mut parser, &mut w).unwrap();
    w.finalize().unwrap();
    dest.collect_writer(w).unwrap();
    let batches = dest.finish().unwrap();
    assert_eq!(batches[0].inner.num_rows(), 2);

    // A bad boolean cell surfaces the raw text.
    let mut dest = ArrowDestination::new_with_batch_size(10);
    dest.set_schema(schema_of(&[("b", TypeTag::Boolean, false)]))
        .unwrap();
    let mut w = dest.alloc_writer(DataOrder::RowMajor).unwrap();
    let mut parser = BigQuerySourceParser::new(
        ResultPage {
            rows: vec![vec![Some("yes".to_string())]],
            page_token: None,
            total_rows: Some("1".to_string()),
        },
        1,
    );
    assert_eq!(
        transfer_cell(&mut parser, &mut w).unwrap_err(),
        ConnectorError::CannotProduce(Some("yes".to_string()))
    );
}

#[test]
fn date_columns_reach_the_batch_as_day_numbers() {
    let mut dest = ArrowDestination::new_with_batch_size(10);
    dest.set_schema(schema_of(&[("d", TypeTag::Date32, true)]))
        .unwrap();
    let mut w = dest.alloc_writer(DataOrder::RowMajor).unwrap();
    let mut parser = BigQuerySourceParser::new(
        ResultPage {
            rows: vec![
                vec![Some("2024-02-29".to_string())],
                vec![None],
                vec![Some("2023-10-11".to_string())],
            ],
            page_token: None,
            total_rows: Some("3".to_string()),
        },
        1,
    );
    for _ in 0..3 {
        transfer_cell(&mut parser, &mut w).unwrap();
    }
    w.finalize().unwrap();
    dest.collect_writer(w).unwrap();
    let batches = dest.finish().unwrap();
    assert_eq!(batches.len(), 1);
    let b = &batches[0].inner;
    assert_eq!(
        b.schema().field(0).data_type(),
        &arrow::datatypes::DataType::Date32
    );
    let c = b.column(0);
    let c = c.as_any().downcast_ref::<Date32Array>().unwrap();
    assert_eq!(c.value(0), 19782);
    assert!(c.is_null(1));
    assert_eq!(c.value(2), 19641);
}

#[test]
fn datetime_and_time_columns_reach_the_batch_as_microseconds() {
    let mut dest = ArrowDestination::new_with_batch_size(10);
    dest.set_schema(schema_of(&[
        ("at", TypeTag::Timestamp(TimeUnit::Microsecond), true),
        ("tod", TypeTag::Time64(TimeUnit::Microsecond), false),
    ]))
    .unwrap();
    let mut w = dest.alloc_writer(DataOrder::RowMajor).unwrap();
    let mut parser = BigQuerySourceParser::new(
        ResultPage {
            rows: vec![
                vec![
                    Some("2024-02-29T13:45:01".to_string()),
                    Some("13:45:01".to_string()),
                ],
                vec![None, Some("23:59:59".to_string())],
            ],
            page_token: None,
            total_rows: Some("2".to_string()),
        },
        2,
    );
    for _ in 0..4 {
        transfer_cell(&mut parser, &mut w).unwrap();
    }
    w.finalize().unwrap();
    dest.collect_writer(w).unwrap();
    let batches = dest.finish().unwrap();
    assert_eq!(batches.len(), 1);
    let b = &batches[0].inner;
    assert_eq!(
        b.schema().field(0).data_type(),
        &arrow::datatypes::DataType::Timestamp(arrow::datatypes::TimeUnit::Microsecond, None)
    );
    let at = b.column(0);
    let at = at
        .as_any()
        .downcast_ref::<TimestampMicrosecondArray>()
        .unwrap();
    assert_eq!(at.value(0), 1_709_214_301_000_000);
    assert!(at.is_null(1));
    let tod = b.column(1);
    let tod = tod
        .as_any()
        .downcast_ref::<Time64MicrosecondArray>()
        .unwrap();
    assert_eq!(tod.value(0), 49_501_000_000);
    assert_eq!(tod.value(1), 86_399_000_000);
}
