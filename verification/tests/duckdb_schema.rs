use connector_arrow::duckdb::{
    create_error_is_table_exists, create_table_ddl, drop_error_is_nonexistent, drop_table_ddl,
    escaped_ident, table_get_query, ty_from_arrow,
};
use connector_arrow::errors::ConnectorError;
use connector_arrow::typesys::{ColType, Schema, TimeUnit, TypeTag};

#[test]
fn native_types_follow_the_mapping() {
    assert_eq!(ty_from_arrow(TypeTag::Null), Ok("BIGINT"));
    assert_eq!(ty_from_arrow(TypeTag::Boolean), Ok("BOOLEAN"));
    assert_eq!(ty_from_arrow(TypeTag::Int8), Ok("TINYINT"));
    assert_eq!(ty_from_arrow(TypeTag::Int16), Ok("SMALLINT"));
    assert_eq!(ty_from_arrow(TypeTag::Int32), Ok("INTEGER"));
    assert_eq!(ty_from_arrow(TypeTag::Int64), Ok("BIGINT"));
    assert_eq!(ty_from_arrow(TypeTag::UInt8), Ok("UTINYINT"));
    assert_eq!(ty_from_arrow(TypeTag::UInt16), Ok("USMALLINT"));
    assert_eq!(ty_from_arrow(TypeTag::UInt32), Ok("UINTEGER"));
    assert_eq!(ty_from_arrow(TypeTag::UInt64), Ok("UBIGINT"));
    assert_eq!(ty_from_arrow(TypeTag::Float16), Ok("REAL"));
    assert_eq!(ty_from_arrow(TypeTag::Float32), Ok("REAL"));
    assert_eq!(ty_from_arrow(TypeTag::Float64), Ok("DOUBLE"));
    assert_eq!(
        ty_from_arrow(TypeTag::Timestamp(TimeUnit::Microsecond)),
        Ok("TIMESTAMP")
    );
    assert_eq!(
        ty_from_arrow(TypeTag::Timestamp(TimeUnit::Nanosecond)),
        Ok("BIGINT")
    );
    assert_eq!(
        ty_from_arrow(TypeTag::Timestamp(TimeUnit::Second)),
        Ok("BIGINT")
    );
    assert_eq!(ty_from_arrow(TypeTag::Binary), Ok("BLOB"));
    assert_eq!(ty_from_arrow(TypeTag::FixedSizeBinary(16)), Ok("BLOB"));
    assert_eq!(ty_from_arrow(TypeTag::LargeBinary), Ok("BLOB"));
    assert_eq!(ty_from_arrow(TypeTag::Utf8), Ok("VARCHAR"));
    assert_eq!(ty_from_arrow(TypeTag::LargeUtf8), Ok("VARCHAR"));
    // Unmapped canonical types are reported, never silently coerced.
    assert_eq!(
        ty_from_arrow(TypeTag::Date32),
        Err(ConnectorError::UnsupportedType(TypeTag::Date32))
    );
    assert_eq!(
        ty_from_arrow(TypeTag::Decimal128(10, 2)),
        Err(ConnectorError::UnsupportedType(TypeTag::Decimal128(10, 2)))
    );
    assert_eq!(
        ty_from_arrow(TypeTag::List),
        Err(ConnectorError::UnsupportedType(TypeTag::List))
    );
}

#[test]
fn identifiers_are_quoted_and_doubled() {
    assert_eq!(escaped_ident("users"), "\"users\"");
    assert_eq!(escaped_ident("he\"llo"), "\"he\"\"llo\"");
    assert_eq!(escaped_ident(""), "\"\"");
}

#[test]
fn probe_and_drop_statements() {
    assert_eq!(
        table_get_query("tbl"),
        "SELECT * FROM \"tbl\" WHERE FALSE;"
    );
    assert_eq!(drop_table_ddl("tbl"), "DROP TABLE \"tbl\";");
}

#[test]
fn create_statement_lists_columns() {
    let schema = Schema {
        names: vec!["id".to_string(), "name".to_string(), "flag".to_string()],
        types: vec![
            ColType {
                tag: TypeTag::Int64,
                nullable: false,
            },
            ColType {
                tag: TypeTag::Utf8,
                nullable: true,
            },
            ColType {
                tag: TypeTag::Null,
                nullable: false,
            },
        ],
    };
    let ddl = create_table_ddl("t", &schema).unwrap();
    assert_eq!(
        ddl,
        "CREATE TABLE \"t\" (\"id\" BIGINT NOT NULL,\"name\" VARCHAR,\"flag\" BIGINT);"
    );
}

#[test]
fn create_statement_rejects_unmapped_types() {
    let schema = Schema {
        names: vec!["d".to_string()],
        types: vec![ColType {
            tag: TypeTag::Date32,
            nullable: false,
        }],
    };
    assert_eq!(
        create_table_ddl("t", &schema),
        Err(ConnectorError::UnsupportedType(TypeTag::Date32))
    );
}

#[test]
fn catalog_errors_are_classified() {
    assert!(create_error_is_table_exists(
        "Catalog Error: Table with name \"t\" already exists!"
    ));
    assert!(!create_error_is_table_exists(
        "IO Error: something else entirely"
    ));
    assert!(!create_error_is_table_exists(
        "Catalog Error: Table with name \"t\" is fine"
    ));
    assert!(drop_error_is_nonexistent(
        "Catalog Error: Table with name \"t\" does not exist!"
    ));
    assert!(!drop_error_is_nonexistent("Binder Error: no such column"));
}
