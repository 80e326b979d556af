use connector_arrow::bigquery::{
    auth_project_id, service_account_path, BigQueryDialect, BigQueryPartitionReader,
    BigQuerySource, BigQuerySourceParser, BigQueryTypeSystem, ResultPage,
};
use connector_arrow::errors::ConnectorError;
use connector_arrow::parse::{DateVal, TimeVal};
use connector_arrow::typesys::{ColType, DataOrder, TimeUnit, TypeTag};

fn page(rows: Vec<Vec<Option<&str>>>, token: Option<&str>, total: Option<&str>) -> ResultPage {
    ResultPage {
        rows: rows
            .into_iter()
            .map(|r| r.into_iter().map(|c| c.map(|s| s.to_string())).collect())
            .collect(),
        page_token: token.map(|s| s.to_string()),
        total_rows: total.map(|s| s.to_string()),
    }
}

#[test]
fn dialect_identifier_rules() {
    let d = BigQueryDialect {};
    assert!(d.is_delimited_identifier_start('`'));
    assert!(!d.is_delimited_identifier_start('"'));
    assert!(d.is_identifier_start('a'));
    assert!(d.is_identifier_start('Z'));
    assert!(d.is_identifier_start('_'));
    assert!(d.is_identifier_start('-'));
    assert!(!d.is_identifier_start('7'));
    assert!(!d.is_identifier_start('!'));
    assert!(d.is_identifier_part('7'));
    assert!(d.is_identifier_part('a'));
    assert!(!d.is_identifier_part('.'));
}

#[test]
fn native_type_names_map_to_canonical_types() {
    let t = BigQueryTypeSystem::from_name("INT64", false).unwrap();
    assert_eq!(
        t.canonical(),
        ColType {
            tag: TypeTag::Int64,
            nullable: false
        }
    );
    let t = BigQueryTypeSystem::from_name("STRING", true).unwrap();
    assert_eq!(
        t.canonical(),
        ColType {
            tag: TypeTag::Utf8,
            nullable: true
        }
    );
    let t = BigQueryTypeSystem::from_name("BOOL", true).unwrap();
    assert_eq!(
        t.canonical(),
        ColType {
            tag: TypeTag::Boolean,
            nullable: true
        }
    );
    let t = BigQueryTypeSystem::from_name("TIMESTAMP", true).unwrap();
    assert_eq!(
        t.canonical(),
        ColType {
            tag: TypeTag::Timestamp(TimeUnit::Microsecond),
            nullable: true
        }
    );
    let t = BigQueryTypeSystem::from_name("DATE", false).unwrap();
    assert_eq!(
        t.canonical(),
        ColType {
            tag: TypeTag::Date32,
            nullable: false
        }
    );
    assert!(BigQueryTypeSystem::from_name("GEOGRAPHY", true).is_none());
    assert!(BigQueryTypeSystem::from_name("int64", true).is_none());
}

#[test]
fn metadata_probe_yields_the_expected_schema() {
    // The probe `SELECT 1 AS x, 'a' AS y` reports an INT64 and a STRING
    // column, both required.
    let mut src = BigQuerySource::new("proj".to_string());
    src.set_queries(vec!["SELECT 1 AS x, 'a' AS y".to_string()]);
    let schema = src
        .apply_metadata(
            vec!["x".to_string(), "y".to_string()],
            vec!["INT64".to_string(), "STRING".to_string()],
            vec![false, false],
        )
        .unwrap();
    assert_eq!(schema.names, vec!["x".to_string(), "y".to_string()]);
    assert_eq!(
        schema.types,
        vec![
            ColType {
                tag: TypeTag::Int64,
                nullable: false
            },
            ColType {
                tag: TypeTag::Utf8,
                nullable: false
            },
        ]
    );
}

#[test]
fn metadata_with_unknown_type_is_unavailable() {
    let mut src = BigQuerySource::new("proj".to_string());
    let err = src
        .apply_metadata(
            vec!["x".to_string()],
            vec!["GEOGRAPHY".to_string()],
            vec![true],
        )
        .unwrap_err();
    assert_eq!(err, ConnectorError::SchemaUnavailable);
}

#[test]
fn reader_accepts_only_row_major() {
    assert_eq!(
        BigQuerySource::supported_data_orders(),
        vec![DataOrder::RowMajor]
    );
    let src = BigQuerySource::new("proj".to_string());
    let q = "SELECT 1".to_string();
    assert!(src.reader(&q, DataOrder::RowMajor).is_ok());
    let err = src.reader(&q, DataOrder::ColumnMajor).unwrap_err();
    assert_eq!(
        err,
        ConnectorError::UnsupportedDataOrder(DataOrder::ColumnMajor)
    );
    let reader = BigQueryPartitionReader::new(q, vec![BigQueryTypeSystem::Int64(false)]);
    assert_eq!(reader.column_count(), 1);
}

#[test]
fn fetch_next_reads_the_total_once() {
    let mut p = BigQuerySourceParser::new(
        page(vec![vec![Some("1")]], None, Some("175")),
        1,
    );
    assert_eq!(p.fetch_next().unwrap(), (175, true));
    // The total is cached; a second call subtracts the cursor.
    assert_eq!(p.fetch_next().unwrap(), (175, true));
}

#[test]
fn fetch_next_without_total_is_malformed() {
    let mut p = BigQuerySourceParser::new(page(vec![], None, None), 1);
    assert_eq!(p.fetch_next().unwrap_err(), ConnectorError::MalformedResponse);
    let mut p = BigQuerySourceParser::new(page(vec![], None, Some("many")), 1);
    assert_eq!(p.fetch_next().unwrap_err(), ConnectorError::MalformedResponse);
}

#[test]
fn produce_parses_typed_cells_in_row_major_order() {
    let mut p = BigQuerySourceParser::new(
        page(
            vec![
                vec![Some("1"), Some("a"), Some("true")],
                vec![Some("-7"), Some("b"), Some("false")],
            ],
            None,
            Some("2"),
        ),
        3,
    );
    assert_eq!(p.produce_i64().unwrap(), 1);
    assert_eq!(p.produce_string().unwrap(), "a");
    assert_eq!(p.produce_bool().unwrap(), true);
    assert_eq!(p.produce_i64().unwrap(), -7);
    assert_eq!(p.produce_string().unwrap(), "b");
    assert_eq!(p.produce_bool().unwrap(), false);
    assert!(p.page_exhausted());
}

#[test]
fn produce_nullable_cells() {
    let mut p = BigQuerySourceParser::new(
        page(
            vec![
                vec![Some("1"), Some("a")],
                vec![None, None],
                vec![Some("3"), Some("c")],
            ],
            None,
            Some("3"),
        ),
        2,
    );
    assert_eq!(p.produce_opt_i64().unwrap(), Some(1));
    assert_eq!(p.produce_opt_string().unwrap(), Some("a".to_string()));
    assert_eq!(p.produce_opt_i64().unwrap(), None);
    assert_eq!(p.produce_opt_string().unwrap(), None);
    assert_eq!(p.produce_opt_i64().unwrap(), Some(3));
    assert_eq!(p.produce_opt_string().unwrap(), Some("c".to_string()));
}

#[test]
fn produce_errors_are_classified() {
    // A null under a non-nullable produce.
    let mut p = BigQuerySourceParser::new(page(vec![vec![None]], None, Some("1")), 1);
    assert_eq!(p.produce_i64().unwrap_err(), ConnectorError::UnexpectedNull);
    // An unparseable integer carries the raw text.
    let mut p = BigQuerySourceParser::new(page(vec![vec![Some("abc")]], None, Some("1")), 1);
    assert_eq!(
        p.produce_i64().unwrap_err(),
        ConnectorError::CannotProduce(Some("abc".to_string()))
    );
    // A row shorter than the column count is a malformed response.
    let mut p = BigQuerySourceParser::new(page(vec![vec![Some("1")]], None, Some("1")), 2);
    assert_eq!(p.produce_i64().unwrap(), 1);
    assert_eq!(
        p.produce_i64().unwrap_err(),
        ConnectorError::MalformedResponse
    );
}

#[test]
fn produce_dates_times_and_datetimes() {
    let mut p = BigQuerySourceParser::new(
        page(
            vec![vec![Some("2024-02-29"), Some("13:45:01"), Some("2024-02-29T13:45:01")]],
            None,
            Some("1"),
        ),
        3,
    );
    assert_eq!(
        p.produce_date().unwrap(),
        DateVal {
            year: 2024,
            month: 2,
            day: 29
        }
    );
    assert_eq!(
        p.produce_time().unwrap(),
        TimeVal {
            hour: 13,
            minute: 45,
            second: 1
        }
    );
    let dt = p.produce_datetime().unwrap();
    assert_eq!(dt.date.day, 29);
    assert_eq!(dt.time.hour, 13);

    let mut p = BigQuerySourceParser::new(
        page(vec![vec![None, Some("1900-02-29")]], None, Some("1")),
        2,
    );
    assert_eq!(p.produce_opt_date().unwrap(), None);
    assert!(matches!(
        p.produce_date().unwrap_err(),
        ConnectorError::CannotProduce(_)
    ));
}

#[test]
fn pages_are_loaded_at_row_boundaries() {
    let mut p = BigQuerySourceParser::new(
        page(vec![vec![Some("0")], vec![Some("1")]], Some("tok-1"), Some("4")),
        1,
    );
    assert_eq!(p.fetch_next().unwrap(), (4, true));
    assert_eq!(p.produce_i64().unwrap(), 0);
    assert_eq!(p.produce_i64().unwrap(), 1);
    assert!(p.page_exhausted());
    assert_eq!(p.page_token(), Some("tok-1".to_string()));
    let next = page(vec![vec![Some("2")], vec![Some("3")]], None, Some("4"));
    p.load_page(next.rows, next.page_token);
    assert!(!p.page_exhausted());
    assert_eq!(p.produce_i64().unwrap(), 2);
    assert_eq!(p.produce_i64().unwrap(), 3);
    assert!(p.page_exhausted());
    assert_eq!(p.page_token(), None);
}

#[test]
fn connection_string_path_is_extracted() {
    let p = service_account_path("bigquery://host/path/to/key.json").unwrap();
    assert_eq!(p, "/path/to/key.json");
    assert_eq!(
        service_account_path("not a url").unwrap_err(),
        ConnectorError::InvalidConnectionString
    );
}

#[test]
fn project_id_is_read_from_the_key_document() {
    let auth = "{\"type\": \"service_account\", \"project_id\": \"my-proj\"}";
    assert_eq!(auth_project_id(auth).unwrap(), "my-proj");
    assert_eq!(
        auth_project_id("{}").unwrap_err(),
        ConnectorError::InvalidAuth
    );
    assert_eq!(
        auth_project_id("{\"project_id\": 7}").unwrap_err(),
        ConnectorError::InvalidAuth
    );
    assert_eq!(
        auth_project_id("not json").unwrap_err(),
        ConnectorError::InvalidAuth
    );
}
