//! The DuckDB-facing schema logic: the canonical-to-native type mapping,
//! identifier escaping, the DDL and probe statements, and the classification
//! of the engine's catalog errors. Executing the statements is transport
//! work; everything that decides what to send and how to read an answer is
//! here, verified.

use vstd::prelude::*;
use vstd::string::{StrSliceExecFns, StringExecFns};
use crate::errors::ConnectorError;
use crate::strutil::{matches_at, str_contains, str_starts_with};
use crate::typesys::{ColType, Schema, TimeUnit, TypeTag};

verus! {

/// The native SQL type a canonical tag maps to, if any. There is no native
/// null type, so `Null` falls back to a nullable `BIGINT`; timestamps keep
/// only the microsecond resolution natively and fall back to `BIGINT`
/// otherwise.
pub open spec fn spec_sql_type(tag: TypeTag) -> Option<Seq<char>> {
    match tag {
        TypeTag::Null => Option::Some("BIGINT"@),
        TypeTag::Boolean => Option::Some("BOOLEAN"@),
        TypeTag::Int8 => Option::Some("TINYINT"@),
        TypeTag::Int16 => Option::Some("SMALLINT"@),
        TypeTag::Int32 => Option::Some("INTEGER"@),
        TypeTag::Int64 => Option::Some("BIGINT"@),
        TypeTag::UInt8 => Option::Some("UTINYINT"@),
        TypeTag::UInt16 => Option::Some("USMALLINT"@),
        TypeTag::UInt32 => Option::Some("UINTEGER"@),
        TypeTag::UInt64 => Option::Some("UBIGINT"@),
        TypeTag::Float16 => Option::Some("REAL"@),
        TypeTag::Float32 => Option::Some("REAL"@),
        TypeTag::Float64 => Option::Some("DOUBLE"@),
        TypeTag::Timestamp(TimeUnit::Microsecond) => Option::Some("TIMESTAMP"@),
        TypeTag::Timestamp(_) => Option::Some("BIGINT"@),
        TypeTag::Binary => Option::Some("BLOB"@),
        TypeTag::FixedSizeBinary(_) => Option::Some("BLOB"@),
        TypeTag::LargeBinary => Option::Some("BLOB"@),
        TypeTag::Utf8 => Option::Some("VARCHAR"@),
        TypeTag::LargeUtf8 => Option::Some("VARCHAR"@),
        _ => Option::None,
    }
}

/// Map a canonical tag to its native SQL type name. A tag with no native
/// counterpart (dates, times, intervals, decimals, nested types) is reported
/// as unsupported, never silently coerced.
pub fn ty_from_arrow(tag: TypeTag) -> (r: Result<&'static str, ConnectorError>)
    ensures
        match spec_sql_type(tag) {
            Option::Some(s) => r matches Ok(t) && t@ == s,
            Option::None => r == Result::<&'static str, ConnectorError>::Err(
                ConnectorError::UnsupportedType(tag),
            ),
        },
{
    match tag {
        TypeTag::Null => Ok("BIGINT"),
        TypeTag::Boolean => Ok("BOOLEAN"),
        TypeTag::Int8 => Ok("TINYINT"),
        TypeTag::Int16 => Ok("SMALLINT"),
        TypeTag::Int32 => Ok("INTEGER"),
        TypeTag::Int64 => Ok("BIGINT"),
        TypeTag::UInt8 => Ok("UTINYINT"),
        TypeTag::UInt16 => Ok("USMALLINT"),
        TypeTag::UInt32 => Ok("UINTEGER"),
        TypeTag::UInt64 => Ok("UBIGINT"),
        TypeTag::Float16 => Ok("REAL"),
        TypeTag::Float32 => Ok("REAL"),
        TypeTag::Float64 => Ok("DOUBLE"),
        TypeTag::Timestamp(TimeUnit::Microsecond) => Ok("TIMESTAMP"),
        TypeTag::Timestamp(_) => Ok("BIGINT"),
        TypeTag::Binary => Ok("BLOB"),
        TypeTag::FixedSizeBinary(_) => Ok("BLOB"),
        TypeTag::LargeBinary => Ok("BLOB"),
        TypeTag::Utf8 => Ok("VARCHAR"),
        TypeTag::LargeUtf8 => Ok("VARCHAR"),
        _ => Err(ConnectorError::UnsupportedType(tag)),
    }
}

/// The identifier's characters with every double quote doubled.
pub open spec fn escape_quotes(s: Seq<char>) -> Seq<char>
    decreases s.len(),
{
    if s.len() == 0 {
        Seq::empty()
    } else {
        escape_quotes(s.drop_last()) + (if s.last() == '"' {
            "\"\""@
        } else {
            seq![s.last()]
        })
    }
}

/// An identifier quoted for SQL: wrapped in double quotes, inner double
/// quotes doubled.
pub open spec fn spec_escaped_ident(s: Seq<char>) -> Seq<char> {
    "\""@ + escape_quotes(s) + "\""@
}

/// Quote an identifier for interpolation into a statement.
pub fn escaped_ident(name: &str) -> (r: String)
    ensures
        r@ == spec_escaped_ident(name@),
{
    let n = name.unicode_len();
    let mut out = String::from_str("\"");
    let mut i: usize = 0;
    while i < n
        invariant
            i <= n,
            n == name@.len(),
            out@ == "\""@ + escape_quotes(name@.subrange(0, i as int)),
        decreases n - i,
    {
        proof {
            assert(name@.subrange(0, i + 1).drop_last() =~= name@.subrange(0, i as int));
            assert(name@.subrange(0, i + 1).last() == name@[i as int]);
        }
        if name.get_char(i) == '"' {
            out.append("\"\"");
        } else {
            let piece = name.substring_char(i, i + 1);
            proof {
                assert(piece@ =~= seq![name@[i as int]]);
            }
            out.append(piece);
        }
        i = i + 1;
    }
    proof {
        assert(name@.subrange(0, n as int) =~= name@);
    }
    out.append("\"");
    out
}

/// The probe statement that reads a table's schema without reading rows.
pub open spec fn spec_table_get_query(name: Seq<char>) -> Seq<char> {
    "SELECT * FROM "@ + spec_escaped_ident(name) + " WHERE FALSE;"@
}

pub fn table_get_query(name: &str) -> (r: String)
    ensures
        r@ == spec_table_get_query(name@),
{
    let mut out = String::from_str("SELECT * FROM ");
    let esc = escaped_ident(name);
    out.append(esc.as_str());
    out.append(" WHERE FALSE;");
    out
}

/// The statement that drops a table.
pub open spec fn spec_drop_table_ddl(name: Seq<char>) -> Seq<char> {
    "DROP TABLE "@ + spec_escaped_ident(name) + ";"@
}

pub fn drop_table_ddl(name: &str) -> (r: String)
    ensures
        r@ == spec_drop_table_ddl(name@),
{
    let mut out = String::from_str("DROP TABLE ");
    let esc = escaped_ident(name);
    out.append(esc.as_str());
    out.append(";");
    out
}

/// One column definition: quoted name, native type, and `NOT NULL` for a
/// non-nullable column. A `Null` column has no native type and stays
/// nullable.
pub open spec fn spec_column_def(name: Seq<char>, col: ColType) -> Seq<char> {
    spec_escaped_ident(name) + " "@ + spec_sql_type(col.tag)->0 + (if col.nullable || col.tag
        == TypeTag::Null {
        Seq::<char>::empty()
    } else {
        " NOT NULL"@
    })
}

/// The column definitions of the first `n` columns, comma-separated.
pub open spec fn spec_column_defs(s: Schema, n: int) -> Seq<char>
    decreases n,
{
    if n <= 0 {
        Seq::empty()
    } else if n == 1 {
        spec_column_def(s.names@[0]@, s.types@[0])
    } else {
        spec_column_defs(s, n - 1) + ","@ + spec_column_def(s.names@[n - 1]@, s.types@[n - 1])
    }
}

/// The statement that creates a table for the given schema.
pub open spec fn spec_create_table_ddl(name: Seq<char>, s: Schema) -> Seq<char> {
    "CREATE TABLE "@ + spec_escaped_ident(name) + " ("@ + spec_column_defs(
        s,
        s.types@.len() as int,
    ) + ");"@
}

/// Build the `CREATE TABLE` statement for a schema. Fails with
/// `UnsupportedType` if any column's tag has no native counterpart.
pub fn create_table_ddl(name: &str, schema: &Schema) -> (r: Result<String, ConnectorError>)
    requires
        schema.wf(),
    ensures
        r is Ok <==> forall|j: int|
            0 <= j < schema.types@.len() ==> spec_sql_type((#[trigger] schema.types@[j]).tag)
                is Some,
        r matches Ok(ddl) ==> ddl@ == spec_create_table_ddl(name@, *schema),
        r matches Err(e) ==> e matches ConnectorError::UnsupportedType(t) && exists|j: int|
            0 <= j < schema.types@.len() && (#[trigger] schema.types@[j]).tag == t
                && spec_sql_type(t) is None,
    {
        let n = schema.types.len();
        let mut defs = String::new();
        let mut j: usize = 0;
        while j < n
            invariant
                j <= n,
                n == schema.types@.len(),
                schema.wf(),
                defs@ == spec_column_defs(*schema, j as int),
                forall|k: int|
                    0 <= k < j ==> spec_sql_type((#[trigger] schema.types@[k]).tag) is Some,
            decreases n - j,
        {
            let col = schema.types[j];
            let ty = match ty_from_arrow(col.tag) {
                Ok(t) => t,
                Err(e) => {
                    return Err(e);
                },
            };
            if j > 0 {
                defs.append(",");
            }
            let esc = escaped_ident(schema.names[j].as_str());
            defs.append(esc.as_str());
            defs.append(" ");
            defs.append(ty);
            if !col.nullable && !matches!(col.tag, TypeTag::Null) {
                defs.append(" NOT NULL");
            }
            j = j + 1;
        }
        let mut out = String::from_str("CREATE TABLE ");
        let esc = escaped_ident(name);
        out.append(esc.as_str());
        out.append(" (");
        out.append(defs.as_str());
        out.append(");");
        Ok(out)
    }

/// Whether a `CREATE TABLE` failure is the catalog's "table already exists"
/// complaint.
pub fn create_error_is_table_exists(msg: &str) -> (r: bool)
    ensures
        r == (matches_at(msg@, "Catalog Error: Table with name"@, 0) && exists|at: int|
            matches_at(msg@, "already exists!"@, at)),
{
    if str_starts_with(msg, "Catalog Error: Table with name") {
        str_contains(msg, "already exists!")
    } else {
        false
    }
}

/// Whether a `DROP TABLE` failure is the catalog's "table does not exist"
/// complaint.
pub fn drop_error_is_nonexistent(msg: &str) -> (r: bool)
    ensures
        r == (matches_at(msg@, "Catalog Error: Table with name "@, 0) && exists|at: int|
            matches_at(msg@, "does not exist!"@, at)),
{
    if str_starts_with(msg, "Catalog Error: Table with name ") {
        str_contains(msg, "does not exist!")
    } else {
        false
    }
}

} // verus!
