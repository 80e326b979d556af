//! The BigQuery source: its SQL dialect rules, its native type system and the
//! mapping onto the canonical one, the partitioned source state, and the
//! streaming parser that yields typed cells out of paged query results. The
//! transport itself (HTTP, authentication, paging requests) stays outside;
//! this module holds every decision and every parse, verified.

use vstd::prelude::*;
use vstd::string::StrSliceExecFns;
use crate::errors::ConnectorError;
use crate::parse::{parse_bool, parse_date, parse_datetime, parse_i64, parse_time, parse_u64,
    spec_parse_bool, spec_parse_date, spec_parse_datetime, spec_parse_i64, spec_parse_time,
    spec_parse_u64, DateTimeVal, DateVal, TimeVal};
use crate::strutil::str_eq;
use crate::typesys::{ColType, DataOrder, Schema, TimeUnit, TypeTag};

verus! {

/// Lexical rules of the BigQuery SQL dialect.
#[derive(Debug)]
pub struct BigQueryDialect {}

pub open spec fn spec_ident_start(ch: char) -> bool {
    (97 <= (ch as u32) <= 122) || (65 <= (ch as u32) <= 90) || ch == '_' || ch == '-'
}

pub open spec fn spec_ascii_digit(ch: char) -> bool {
    48 <= (ch as u32) <= 57
}

impl BigQueryDialect {
    /// Identifiers may be delimited with backquotes.
    pub fn is_delimited_identifier_start(&self, ch: char) -> (r: bool)
        ensures
            r == (ch == '`'),
    {
        ch == '`'
    }

    /// An identifier starts with an ASCII letter, an underscore or a dash.
    pub fn is_identifier_start(&self, ch: char) -> (r: bool)
        ensures
            r == spec_ident_start(ch),
    {
        let u = ch as u32;
        (97 <= u && u <= 122) || (65 <= u && u <= 90) || ch == '_' || ch == '-'
    }

    /// Later identifier characters also admit ASCII digits.
    pub fn is_identifier_part(&self, ch: char) -> (r: bool)
        ensures
            r == (spec_ident_start(ch) || spec_ascii_digit(ch)),
    {
        if self.is_identifier_start(ch) {
            true
        } else {
            let u = ch as u32;
            48 <= u && u <= 57
        }
    }
}

/// BigQuery's native column types, each carrying its nullability bit.
#[derive(Clone, Copy, Debug, PartialEq, Eq, Structural)]
pub enum BigQueryTypeSystem {
    Bool(bool),
    Boolean(bool),
    Int64(bool),
    Integer(bool),
    Float64(bool),
    Float(bool),
    Numeric(bool),
    Bignumeric(bool),
    Utf8(bool),
    Date(bool),
    Datetime(bool),
    Time(bool),
    Timestamp(bool),
}

/// The native type named by a BigQuery schema field's type string.
pub open spec fn spec_native_of(s: Seq<char>, nullable: bool) -> Option<BigQueryTypeSystem> {
    if s == "BOOL"@ {
        Option::Some(BigQueryTypeSystem::Bool(nullable))
    } else if s == "BOOLEAN"@ {
        Option::Some(BigQueryTypeSystem::Boolean(nullable))
    } else if s == "INT64"@ {
        Option::Some(BigQueryTypeSystem::Int64(nullable))
    } else if s == "INTEGER"@ {
        Option::Some(BigQueryTypeSystem::Integer(nullable))
    } else if s == "FLOAT64"@ {
        Option::Some(BigQueryTypeSystem::Float64(nullable))
    } else if s == "FLOAT"@ {
        Option::Some(BigQueryTypeSystem::Float(nullable))
    } else if s == "NUMERIC"@ {
        Option::Some(BigQueryTypeSystem::Numeric(nullable))
    } else if s == "BIGNUMERIC"@ {
        Option::Some(BigQueryTypeSystem::Bignumeric(nullable))
    } else if s == "STRING"@ {
        Option::Some(BigQueryTypeSystem::Utf8(nullable))
    } else if s == "DATE"@ {
        Option::Some(BigQueryTypeSystem::Date(nullable))
    } else if s == "DATETIME"@ {
        Option::Some(BigQueryTypeSystem::Datetime(nullable))
    } else if s == "TIME"@ {
        Option::Some(BigQueryTypeSystem::Time(nullable))
    } else if s == "TIMESTAMP"@ {
        Option::Some(BigQueryTypeSystem::Timestamp(nullable))
    } else {
        Option::None
    }
}

impl BigQueryTypeSystem {
    /// Parse a schema field's type string.
    pub fn from_name(s: &str, nullable: bool) -> (r: Option<BigQueryTypeSystem>)
        ensures
            r == spec_native_of(s@, nullable),
    {
        if str_eq(s, "BOOL") {
            Some(BigQueryTypeSystem::Bool(nullable))
        } else if str_eq(s, "BOOLEAN") {
            Some(BigQueryTypeSystem::Boolean(nullable))
        } else if str_eq(s, "INT64") {
            Some(BigQueryTypeSystem::Int64(nullable))
        } else if str_eq(s, "INTEGER") {
            Some(BigQueryTypeSystem::Integer(nullable))
        } else if str_eq(s, "FLOAT64") {
            Some(BigQueryTypeSystem::Float64(nullable))
        } else if str_eq(s, "FLOAT") {
            Some(BigQueryTypeSystem::Float(nullable))
        } else if str_eq(s, "NUMERIC") {
            Some(BigQueryTypeSystem::Numeric(nullable))
        } else if str_eq(s, "BIGNUMERIC") {
            Some(BigQueryTypeSystem::Bignumeric(nullable))
        } else if str_eq(s, "STRING") {
            Some(BigQueryTypeSystem::Utf8(nullable))
        } else if str_eq(s, "DATE") {
            Some(BigQueryTypeSystem::Date(nullable))
        } else if str_eq(s, "DATETIME") {
            Some(BigQueryTypeSystem::Datetime(nullable))
        } else if str_eq(s, "TIME") {
            Some(BigQueryTypeSystem::Time(nullable))
        } else if str_eq(s, "TIMESTAMP") {
            Some(BigQueryTypeSystem::Timestamp(nullable))
        } else {
            None
        }
    }

    /// The canonical column type this native type maps to.
    pub open spec fn spec_canonical(self) -> ColType {
        match self {
            BigQueryTypeSystem::Bool(n) => ColType { tag: TypeTag::Boolean, nullable: n },
            BigQueryTypeSystem::Boolean(n) => ColType { tag: TypeTag::Boolean, nullable: n },
            BigQueryTypeSystem::Int64(n) => ColType { tag: TypeTag::Int64, nullable: n },
            BigQueryTypeSystem::Integer(n) => ColType { tag: TypeTag::Int64, nullable: n },
            BigQueryTypeSystem::Float64(n) => ColType { tag: TypeTag::Float64, nullable: n },
            BigQueryTypeSystem::Float(n) => ColType { tag: TypeTag::Float64, nullable: n },
            BigQueryTypeSystem::Numeric(n) => ColType { tag: TypeTag::Float64, nullable: n },
            BigQueryTypeSystem::Bignumeric(n) => ColType { tag: TypeTag::Float64, nullable: n },
            BigQueryTypeSystem::Utf8(n) => ColType { tag: TypeTag::Utf8, nullable: n },
            BigQueryTypeSystem::Date(n) => ColType { tag: TypeTag::Date32, nullable: n },
            BigQueryTypeSystem::Datetime(n) => ColType {
                tag: TypeTag::Timestamp(TimeUnit::Microsecond),
                nullable: n,
            },
            BigQueryTypeSystem::Time(n) => ColType {
                tag: TypeTag::Time64(TimeUnit::Microsecond),
                nullable: n,
            },
            BigQueryTypeSystem::Timestamp(n) => ColType {
                tag: TypeTag::Timestamp(TimeUnit::Microsecond),
                nullable: n,
            },
        }
    }

    /// Executable canonical mapping.
    pub fn canonical(&self) -> (r: ColType)
        ensures
            r == self.spec_canonical(),
    {
        match self {
            BigQueryTypeSystem::Bool(n) => ColType { tag: TypeTag::Boolean, nullable: *n },
            BigQueryTypeSystem::Boolean(n) => ColType { tag: TypeTag::Boolean, nullable: *n },
            BigQueryTypeSystem::Int64(n) => ColType { tag: TypeTag::Int64, nullable: *n },
            BigQueryTypeSystem::Integer(n) => ColType { tag: TypeTag::Int64, nullable: *n },
            BigQueryTypeSystem::Float64(n) => ColType { tag: TypeTag::Float64, nullable: *n },
            BigQueryTypeSystem::Float(n) => ColType { tag: TypeTag::Float64, nullable: *n },
            BigQueryTypeSystem::Numeric(n) => ColType { tag: TypeTag::Float64, nullable: *n },
            BigQueryTypeSystem::Bignumeric(n) => ColType { tag: TypeTag::Float64, nullable: *n },
            BigQueryTypeSystem::Utf8(n) => ColType { tag: TypeTag::Utf8, nullable: *n },
            BigQueryTypeSystem::Date(n) => ColType { tag: TypeTag::Date32, nullable: *n },
            BigQueryTypeSystem::Datetime(n) => ColType {
                tag: TypeTag::Timestamp(TimeUnit::Microsecond),
                nullable: *n,
            },
            BigQueryTypeSystem::Time(n) => ColType {
                tag: TypeTag::Time64(TimeUnit::Microsecond),
                nullable: *n,
            },
            BigQueryTypeSystem::Timestamp(n) => ColType {
                tag: TypeTag::Timestamp(TimeUnit::Microsecond),
                nullable: *n,
            },
        }
    }
}

/// The partitioned source state: the billing project, the partition queries,
/// and the schema learned from the metadata probe. The transport client and
/// its runtime live with the unverified adapter that drives this state.
pub struct BigQuerySource {
    pub project_id: String,
    pub queries: Vec<String>,
    pub names: Vec<String>,
    pub types: Vec<BigQueryTypeSystem>,
}

impl BigQuerySource {
    /// The data orders this source can produce: row-major only.
    pub fn supported_data_orders() -> (r: Vec<DataOrder>)
        ensures
            r@ =~= seq![DataOrder::RowMajor],
    {
        let mut orders: Vec<DataOrder> = Vec::new();
        orders.push(DataOrder::RowMajor);
        orders
    }

    pub fn new(project_id: String) -> (r: BigQuerySource)
        ensures
            r.project_id@ == project_id@,
            r.queries@.len() == 0,
            r.names@.len() == 0,
            r.types@.len() == 0,
    {
        BigQuerySource { project_id, queries: Vec::new(), names: Vec::new(), types: Vec::new() }
    }

    /// Record the ordered list of partition queries; no transport work.
    pub fn set_queries(&mut self, queries: Vec<String>)
        ensures
            final(self).queries@ == queries@,
            final(self).names@ == old(self).names@,
            final(self).types@ == old(self).types@,
            final(self).project_id == old(self).project_id,
    {
        self.queries = queries;
    }

    /// Digest the metadata probe's answer: one (name, type string, nullable)
    /// triple per column. Records the native types and returns the canonical
    /// schema. Fails with `SchemaUnavailable` when the lists disagree in
    /// length or a type string is not a BigQuery type.
    pub fn apply_metadata(
        &mut self,
        names: Vec<String>,
        type_names: Vec<String>,
        nullables: Vec<bool>,
    ) -> (r: Result<Schema, ConnectorError>)
        ensures
            r is Ok <==> names@.len() == type_names@.len() && names@.len() == nullables@.len()
                && forall|j: int|
                0 <= j < type_names@.len() ==> spec_native_of(
                    (#[trigger] type_names@[j])@,
                    nullables@[j],
                ) is Some,
            r is Err ==> r == Result::<Schema, ConnectorError>::Err(
                ConnectorError::SchemaUnavailable,
            ) && *final(self) == *old(self),
            r matches Ok(schema) ==> {
                &&& schema.wf()
                &&& schema.names@.len() == names@.len()
                &&& forall|j: int|
                    0 <= j < names@.len() ==> (#[trigger] schema.names@[j])@ == names@[j]@
                &&& schema.types@.len() == type_names@.len()
                &&& forall|j: int|
                    0 <= j < type_names@.len() ==> #[trigger] schema.types@[j] == spec_native_of(
                        type_names@[j]@,
                        nullables@[j],
                    )->0.spec_canonical()
                &&& final(self).names@ == names@
                &&& final(self).types@.len() == type_names@.len()
                &&& forall|j: int|
                    0 <= j < type_names@.len() ==> #[trigger] final(self).types@[j]
                        == spec_native_of(type_names@[j]@, nullables@[j])->0
                &&& final(self).queries@ == old(self).queries@
                &&& final(self).project_id == old(self).project_id
            },
    {
        let n = names.len();
        if type_names.len() != n || nullables.len() != n {
            return Err(ConnectorError::SchemaUnavailable);
        }
        let mut native: Vec<BigQueryTypeSystem> = Vec::new();
        let mut canonical: Vec<ColType> = Vec::new();
        let mut j: usize = 0;
        while j < n
            invariant
                j <= n,
                n == names@.len(),
                n == type_names@.len(),
                n == nullables@.len(),
                *self == *old(self),
                native@.len() == j,
                canonical@.len() == j,
                forall|k: int|
                    0 <= k < j ==> spec_native_of((#[trigger] type_names@[k])@, nullables@[k])
                        is Some,
                forall|k: int|
                    0 <= k < j ==> #[trigger] native@[k] == spec_native_of(
                        type_names@[k]@,
                        nullables@[k],
                    )->0,
                forall|k: int|
                    0 <= k < j ==> #[trigger] canonical@[k] == spec_native_of(
                        type_names@[k]@,
                        nullables@[k],
                    )->0.spec_canonical(),
            decreases n - j,
        {
            let ty = match BigQueryTypeSystem::from_name(type_names[j].as_str(), nullables[j]) {
                Some(ty) => ty,
                None => {
                    return Err(ConnectorError::SchemaUnavailable);
                },
            };
            native.push(ty);
            canonical.push(ty.canonical());
            j = j + 1;
        }
        self.names = names;
        self.types = native;
        let mut out_names: Vec<String> = Vec::new();
        let m = self.names.len();
        let mut j: usize = 0;
        while j < m
            invariant
                j <= m,
                m == self.names@.len(),
                out_names@.len() == j,
                forall|k: int| 0 <= k < j ==> #[trigger] out_names@[k]@ == self.names@[k]@,
            decreases m - j,
        {
            out_names.push(self.names[j].clone());
            j = j + 1;
        }
        Ok(Schema { names: out_names, types: canonical })
    }

    /// Open a reader for one partition query. Only row-major production is
    /// supported; any other order is rejected.
    pub fn reader(&self, query: &String, data_order: DataOrder) -> (r: Result<
        BigQueryPartitionReader,
        ConnectorError,
    >)
        ensures
            r is Ok <==> data_order == DataOrder::RowMajor,
            r is Err ==> r == Result::<BigQueryPartitionReader, ConnectorError>::Err(
                ConnectorError::UnsupportedDataOrder(data_order),
            ),
            r matches Ok(reader) ==> {
                &&& reader.query@ == query@
                &&& reader.types@ == self.types@
            },
    {
        if !matches!(data_order, DataOrder::RowMajor) {
            return Err(ConnectorError::UnsupportedDataOrder(data_order));
        }
        let mut types: Vec<BigQueryTypeSystem> = Vec::new();
        let n = self.types.len();
        let mut j: usize = 0;
        while j < n
            invariant
                j <= n,
                n == self.types@.len(),
                types@ =~= self.types@.subrange(0, j as int),
            decreases n - j,
        {
            types.push(self.types[j]);
            j = j + 1;
        }
        proof {
            assert(types@ =~= self.types@);
        }
        Ok(BigQueryPartitionReader { query: query.clone(), types })
    }
}

/// One partition's reader: the query it runs and the native column types.
/// Opening the underlying cursor is transport work; the unverified adapter
/// runs the query and hands the first result page to `BigQuerySourceParser`.
#[derive(Debug)]
pub struct BigQueryPartitionReader {
    pub query: String,
    pub types: Vec<BigQueryTypeSystem>,
}

impl BigQueryPartitionReader {
    pub fn new(query: String, types: Vec<BigQueryTypeSystem>) -> (r: BigQueryPartitionReader)
        ensures
            r.query == query,
            r.types == types,
    {
        BigQueryPartitionReader { query, types }
    }

    pub fn column_count(&self) -> (r: usize)
        ensures
            r == self.types@.len(),
    {
        self.types.len()
    }
}

/// What `Url::parse` followed by `Url::path` yields for a string: the path
/// component of a well-formed URL, or nothing. A pure function of the string.
pub uninterp spec fn url_path_of(s: Seq<char>) -> Option<Seq<char>>;

/// Relies on url's `Url::parse` and `Url::path`: parsing either fails or
/// yields a URL whose path component depends on the input string alone.
#[verifier::external_body]
fn parse_url_path(conn: &str) -> (r: Option<String>)
    ensures
        r is Some <==> url_path_of(conn@) is Some,
        r matches Some(p) ==> Option::Some(p@) == url_path_of(conn@),
{
    url::Url::parse(conn).ok().map(|u| u.path().to_string())
}

/// The path component of the connection string: where the service account
/// key file lives. Fails on a string that is not a well-formed URL.
pub fn service_account_path(conn: &str) -> (r: Result<String, ConnectorError>)
    ensures
        r is Ok <==> url_path_of(conn@) is Some,
        r matches Ok(p) ==> Option::Some(p@) == url_path_of(conn@),
        r is Err ==> r == Result::<String, ConnectorError>::Err(
            ConnectorError::InvalidConnectionString,
        ),
{
    match parse_url_path(conn) {
        Some(p) => Ok(p),
        None => Err(ConnectorError::InvalidConnectionString),
    }
}

/// The string under the `project_id` key of a JSON document, or nothing. A
/// pure function of the document.
pub uninterp spec fn project_id_of(auth: Seq<char>) -> Option<Seq<char>>;

/// Relies on serde_json's `from_str`, `Value::get` and `Value::as_str`: the
/// `project_id` field of the parsed document depends on the text alone.
#[verifier::external_body]
fn json_project_id(auth: &str) -> (r: Option<String>)
    ensures
        r is Some <==> project_id_of(auth@) is Some,
        r matches Some(p) ==> Option::Some(p@) == project_id_of(auth@),
{
    let v: serde_json::Value = serde_json::from_str(auth).ok()?;
    Some(v.get("project_id")?.as_str()?.to_string())
}

/// The billing project named by a service account key document. Fails when
/// the document does not parse or carries no `project_id` string.
pub fn auth_project_id(auth: &str) -> (r: Result<String, ConnectorError>)
    ensures
        r is Ok <==> project_id_of(auth@) is Some,
        r matches Ok(p) ==> Option::Some(p@) == project_id_of(auth@),
        r is Err ==> r == Result::<String, ConnectorError>::Err(ConnectorError::InvalidAuth),
{
    match json_project_id(auth) {
        Some(p) => Ok(p),
        None => Err(ConnectorError::InvalidAuth),
    }
}

/// One page of a query's results, as the unverified transport hands it over:
/// string-encoded cells (a missing value is a null), the continuation token,
/// and the total row count the service reported, still as text.
pub struct ResultPage {
    pub rows: Vec<Vec<Option<String>>>,
    pub page_token: Option<String>,
    pub total_rows: Option<String>,
}

/// What the parser finds at its cursor.
pub enum CellText {
    /// The row is too short: the response is malformed.
    Missing,
    /// A null cell.
    NullCell,
    /// A string-encoded value.
    Text(Seq<char>),
}

/// The streaming parser of one partition: yields typed cells in strict
/// row-major, column-by-column order over the current result page. Paging is
/// driven from outside: when `page_exhausted` reports true at a row boundary,
/// the next page (fetched with `page_token`) is handed in via `load_page`.
pub struct BigQuerySourceParser {
    page: ResultPage,
    ncols: usize,
    current_row: usize,
    current_col: usize,
    nrows: Option<usize>,
}

impl BigQuerySourceParser {
    /// The rows of the current page.
    pub closed spec fn rows_view(self) -> Seq<Vec<Option<String>>> {
        self.page.rows@
    }

    pub closed spec fn spec_token(self) -> Option<Seq<char>> {
        match self.page.page_token {
            Option::None => Option::None,
            Option::Some(t) => Option::Some(t@),
        }
    }

    pub closed spec fn spec_total_field(self) -> Option<Seq<char>> {
        match self.page.total_rows {
            Option::None => Option::None,
            Option::Some(t) => Option::Some(t@),
        }
    }

    pub closed spec fn spec_ncols(self) -> nat {
        self.ncols as nat
    }

    pub closed spec fn cursor_row(self) -> nat {
        self.current_row as nat
    }

    pub closed spec fn cursor_col(self) -> nat {
        self.current_col as nat
    }

    /// The total partition row count, once learned from the response.
    pub closed spec fn spec_nrows(self) -> Option<usize> {
        self.nrows
    }

    pub open spec fn wf(self) -> bool {
        &&& self.spec_ncols() >= 1
        &&& self.cursor_col() < self.spec_ncols()
        &&& self.cursor_row() <= self.rows_view().len()
    }

    /// Whether a row is available at the cursor on the current page.
    pub open spec fn has_row(self) -> bool {
        self.cursor_row() < self.rows_view().len()
    }

    /// The cell at the cursor.
    pub open spec fn cur_cell(self) -> CellText {
        let row = self.rows_view()[self.cursor_row() as int];
        if self.cursor_col() >= row@.len() {
            CellText::Missing
        } else {
            match row@[self.cursor_col() as int] {
                Option::None => CellText::NullCell,
                Option::Some(s) => CellText::Text(s@),
            }
        }
    }

    /// The cursor stepped by one cell; a completed row advances the row.
    pub open spec fn advanced_from(self, pre: Self) -> bool {
        &&& self.rows_view() == pre.rows_view()
        &&& self.spec_token() == pre.spec_token()
        &&& self.spec_total_field() == pre.spec_total_field()
        &&& self.spec_ncols() == pre.spec_ncols()
        &&& self.spec_nrows() == pre.spec_nrows()
        &&& if pre.cursor_col() + 1 == pre.spec_ncols() {
            self.cursor_col() == 0 && self.cursor_row() == pre.cursor_row() + 1
        } else {
            self.cursor_col() == pre.cursor_col() + 1 && self.cursor_row() == pre.cursor_row()
        }
    }

    pub fn new(page: ResultPage, ncols: usize) -> (r: BigQuerySourceParser)
        requires
            ncols >= 1,
        ensures
            r.wf(),
            r.rows_view() == page.rows@,
            r.spec_token() == (match page.page_token {
                Option::None => Option::<Seq<char>>::None,
                Option::Some(t) => Option::Some(t@),
            }),
            r.spec_total_field() == (match page.total_rows {
                Option::None => Option::<Seq<char>>::None,
                Option::Some(t) => Option::Some(t@),
            }),
            r.spec_ncols() == ncols,
            r.cursor_row() == 0,
            r.cursor_col() == 0,
            r.spec_nrows() is None,
    {
        BigQuerySourceParser { page, ncols, current_row: 0, current_col: 0, nrows: None }
    }

    /// How many rows are guaranteed producible before the next fetch, and
    /// whether that exhausts the partition. The total is learned once from
    /// the response's textual row count; this source always reports the whole
    /// partition at once, so the flag is always true. Called only at a row
    /// boundary.
    pub fn fetch_next(&mut self) -> (r: Result<(usize, bool), ConnectorError>)
        requires
            old(self).wf(),
            old(self).cursor_col() == 0,
            old(self).spec_nrows() matches Some(t) ==> old(self).cursor_row() <= t,
        ensures
            final(self).wf(),
            final(self).rows_view() == old(self).rows_view(),
            final(self).spec_token() == old(self).spec_token(),
            final(self).spec_total_field() == old(self).spec_total_field(),
            final(self).spec_ncols() == old(self).spec_ncols(),
            final(self).cursor_row() == old(self).cursor_row(),
            final(self).cursor_col() == old(self).cursor_col(),
            old(self).spec_nrows() matches Some(t) ==> r == Result::<
                (usize, bool),
                ConnectorError,
            >::Ok(((t - old(self).cursor_row()) as usize, true)) && final(self).spec_nrows()
                == old(self).spec_nrows(),
            old(self).spec_nrows() is None ==> match old(self).spec_total_field() {
                Option::None => r == Result::<(usize, bool), ConnectorError>::Err(
                    ConnectorError::MalformedResponse,
                ) && final(self).spec_nrows() is None,
                Option::Some(ts) => match spec_parse_u64(ts) {
                    Option::None => r == Result::<(usize, bool), ConnectorError>::Err(
                        ConnectorError::MalformedResponse,
                    ) && final(self).spec_nrows() is None,
                    Option::Some(v) => if v <= usize::MAX {
                        r == Result::<(usize, bool), ConnectorError>::Ok(((v as usize), true))
                            && final(self).spec_nrows() == Option::Some(v as usize)
                    } else {
                        r == Result::<(usize, bool), ConnectorError>::Err(
                            ConnectorError::MalformedResponse,
                        ) && final(self).spec_nrows() is None
                    },
                },
            },
    {
        match self.nrows {
            Some(t) => Ok((t - self.current_row, true)),
            None => {
                let total: u64 = match &self.page.total_rows {
                    None => {
                        return Err(ConnectorError::MalformedResponse);
                    },
                    Some(ts) => match parse_u64(ts.as_str()) {
                        None => {
                            return Err(ConnectorError::MalformedResponse);
                        },
                        Some(v) => v,
                    },
                };
                if total > usize::MAX as u64 {
                    return Err(ConnectorError::MalformedResponse);
                }
                let total_rows: usize = total as usize;
                self.nrows = Some(total_rows);
                Ok((total_rows, true))
            },
        }
    }

    /// Whether the current page is used up (the cursor sits past its rows).
    pub fn page_exhausted(&self) -> (r: bool)
        requires
            self.wf(),
        ensures
            r == !self.has_row(),
    {
        self.current_row >= self.page.rows.len()
    }

    /// The continuation token of the current page, for fetching the next one.
    pub fn page_token(&self) -> (r: Option<String>)
        ensures
            r is Some <==> self.spec_token() is Some,
            r matches Some(t) ==> Option::Some(t@) == self.spec_token(),
    {
        match &self.page.page_token {
            None => None,
            Some(t) => Some(t.clone()),
        }
    }

    /// Install the next page, fetched by the caller with the continuation
    /// token. Pages change only at a row boundary, so the logical position
    /// within the partition is preserved.
    pub fn load_page(&mut self, rows: Vec<Vec<Option<String>>>, page_token: Option<String>)
        requires
            old(self).wf(),
            old(self).cursor_col() == 0,
        ensures
            final(self).wf(),
            final(self).rows_view() == rows@,
            final(self).spec_token() == (match page_token {
                Option::None => Option::<Seq<char>>::None,
                Option::Some(t) => Option::Some(t@),
            }),
            final(self).spec_ncols() == old(self).spec_ncols(),
            final(self).spec_nrows() == old(self).spec_nrows(),
            final(self).cursor_row() == 0,
            final(self).cursor_col() == 0,
    {
        self.page.rows = rows;
        self.page.page_token = page_token;
        self.current_row = 0;
    }

    /// Read the cell at the cursor without advancing.
    fn peek_cell(&self) -> (r: Result<Option<String>, ConnectorError>)
        requires
            self.wf(),
            self.has_row(),
        ensures
            match self.cur_cell() {
                CellText::Missing => r == Result::<Option<String>, ConnectorError>::Err(
                    ConnectorError::MalformedResponse,
                ),
                CellText::NullCell => r == Result::<Option<String>, ConnectorError>::Ok(
                    Option::None,
                ),
                CellText::Text(s) => r matches Ok(Some(x)) && x@ == s,
            },
    {
        let row: &Vec<Option<String>> = &self.page.rows[self.current_row];
        if self.current_col >= row.len() {
            return Err(ConnectorError::MalformedResponse);
        }
        match &row[self.current_col] {
            None => Ok(None),
            Some(s) => Ok(Some(s.clone())),
        }
    }

    /// Step the cursor by one cell.
    fn advance(&mut self)
        requires
            old(self).wf(),
            old(self).has_row(),
        ensures
            final(self).wf(),
            final(self).advanced_from(*old(self)),
    {
        if self.current_col + 1 == self.ncols {
            proof {
                vstd::std_specs::vec::axiom_spec_len(&self.page.rows);
            }
            self.current_col = 0;
            self.current_row = self.current_row + 1;
        } else {
            self.current_col = self.current_col + 1;
        }
    }
}

/// Whether `r` is the parse failure carrying the raw cell text `s`.
pub open spec fn is_cannot_produce<T>(r: Result<T, ConnectorError>, s: Seq<char>) -> bool {
    match r {
        Result::Err(ConnectorError::CannotProduce(Option::Some(rs))) => rs@ == s,
        _ => false,
    }
}

impl BigQuerySourceParser {
    /// Produce the next cell as a non-nullable 64-bit integer.
    pub fn produce_i64(&mut self) -> (r: Result<i64, ConnectorError>)
        requires
            old(self).wf(),
            old(self).has_row(),
        ensures
            final(self).wf(),
            match old(self).cur_cell() {
                CellText::Missing => r == Result::<i64, ConnectorError>::Err(
                    ConnectorError::MalformedResponse,
                ) && *final(self) == *old(self),
                CellText::NullCell => r == Result::<i64, ConnectorError>::Err(
                    ConnectorError::UnexpectedNull,
                ) && *final(self) == *old(self),
                CellText::Text(s) => match spec_parse_i64(s) {
                    Option::None => is_cannot_produce(r, s) && *final(self) == *old(self),
                    Option::Some(v) => r == Result::<i64, ConnectorError>::Ok(v) && final(self).advanced_from(*old(self)),
                },
            },
    {
        let cell = match self.peek_cell() {
            Ok(c) => c,
            Err(e) => {
                return Err(e);
            },
        };
        match cell {
            None => Err(ConnectorError::UnexpectedNull),
            Some(s) => match parse_i64(s.as_str()) {
                None => Err(ConnectorError::CannotProduce(Some(s))),
                Some(v) => {
                    self.advance();
                    Ok(v)
                },
            },
        }
    }

    /// Produce the next cell as a nullable 64-bit integer.
    pub fn produce_opt_i64(&mut self) -> (r: Result<Option<i64>, ConnectorError>)
        requires
            old(self).wf(),
            old(self).has_row(),
        ensures
            final(self).wf(),
            match old(self).cur_cell() {
                CellText::Missing => r == Result::<Option<i64>, ConnectorError>::Err(
                    ConnectorError::MalformedResponse,
                ) && *final(self) == *old(self),
                CellText::NullCell => r == Result::<Option<i64>, ConnectorError>::Ok(Option::None)
                    && final(self).advanced_from(*old(self)),
                CellText::Text(s) => match spec_parse_i64(s) {
                    Option::None => is_cannot_produce(r, s) && *final(self) == *old(self),
                    Option::Some(v) => r == Result::<Option<i64>, ConnectorError>::Ok(
                        Option::Some(v),
                    ) && final(self).advanced_from(*old(self)),
                },
            },
    {
        let cell = match self.peek_cell() {
            Ok(c) => c,
            Err(e) => {
                return Err(e);
            },
        };
        match cell {
            None => {
                self.advance();
                Ok(None)
            },
            Some(s) => match parse_i64(s.as_str()) {
                None => Err(ConnectorError::CannotProduce(Some(s))),
                Some(v) => {
                    self.advance();
                    Ok(Some(v))
                },
            },
        }
    }

    /// Produce the next cell as a non-nullable boolean.
    pub fn produce_bool(&mut self) -> (r: Result<bool, ConnectorError>)
        requires
            old(self).wf(),
            old(self).has_row(),
        ensures
            final(self).wf(),
            match old(self).cur_cell() {
                CellText::Missing => r == Result::<bool, ConnectorError>::Err(
                    ConnectorError::MalformedResponse,
                ) && *final(self) == *old(self),
                CellText::NullCell => r == Result::<bool, ConnectorError>::Err(
                    ConnectorError::UnexpectedNull,
                ) && *final(self) == *old(self),
                CellText::Text(s) => match spec_parse_bool(s) {
                    Option::None => is_cannot_produce(r, s) && *final(self) == *old(self),
                    Option::Some(v) => r == Result::<bool, ConnectorError>::Ok(v) && final(self).advanced_from(*old(self)),
                },
            },
    {
        let cell = match self.peek_cell() {
            Ok(c) => c,
            Err(e) => {
                return Err(e);
            },
        };
        match cell {
            None => Err(ConnectorError::UnexpectedNull),
            Some(s) => match parse_bool(s.as_str()) {
                None => Err(ConnectorError::CannotProduce(Some(s))),
                Some(v) => {
                    self.advance();
                    Ok(v)
                },
            },
        }
    }

    /// Produce the next cell as a nullable boolean.
    pub fn produce_opt_bool(&mut self) -> (r: Result<Option<bool>, ConnectorError>)
        requires
            old(self).wf(),
            old(self).has_row(),
        ensures
            final(self).wf(),
            match old(self).cur_cell() {
                CellText::Missing => r == Result::<Option<bool>, ConnectorError>::Err(
                    ConnectorError::MalformedResponse,
                ) && *final(self) == *old(self),
                CellText::NullCell => r == Result::<Option<bool>, ConnectorError>::Ok(Option::None)
                    && final(self).advanced_from(*old(self)),
                CellText::Text(s) => match spec_parse_bool(s) {
                    Option::None => is_cannot_produce(r, s) && *final(self) == *old(self),
                    Option::Some(v) => r == Result::<Option<bool>, ConnectorError>::Ok(
                        Option::Some(v),
                    ) && final(self).advanced_from(*old(self)),
                },
            },
    {
        let cell = match self.peek_cell() {
            Ok(c) => c,
            Err(e) => {
                return Err(e);
            },
        };
        match cell {
            None => {
                self.advance();
                Ok(None)
            },
            Some(s) => match parse_bool(s.as_str()) {
                None => Err(ConnectorError::CannotProduce(Some(s))),
                Some(v) => {
                    self.advance();
                    Ok(Some(v))
                },
            },
        }
    }

    /// Produce the next cell as a non-nullable string.
    pub fn produce_string(&mut self) -> (r: Result<String, ConnectorError>)
        requires
            old(self).wf(),
            old(self).has_row(),
        ensures
            final(self).wf(),
            match old(self).cur_cell() {
                CellText::Missing => r == Result::<String, ConnectorError>::Err(
                    ConnectorError::MalformedResponse,
                ) && *final(self) == *old(self),
                CellText::NullCell => r == Result::<String, ConnectorError>::Err(
                    ConnectorError::UnexpectedNull,
                ) && *final(self) == *old(self),
                CellText::Text(s) => r matches Ok(x) && x@ == s && final(self).advanced_from(
                    *old(self),
                ),
            },
    {
        let cell = match self.peek_cell() {
            Ok(c) => c,
            Err(e) => {
                return Err(e);
            },
        };
        match cell {
            None => Err(ConnectorError::UnexpectedNull),
            Some(s) => {
                self.advance();
                Ok(s)
            },
        }
    }

    /// Produce the next cell as a nullable string.
    pub fn produce_opt_string(&mut self) -> (r: Result<Option<String>, ConnectorError>)
        requires
            old(self).wf(),
            old(self).has_row(),
        ensures
            final(self).wf(),
            match old(self).cur_cell() {
                CellText::Missing => r == Result::<Option<String>, ConnectorError>::Err(
                    ConnectorError::MalformedResponse,
                ) && *final(self) == *old(self),
                CellText::NullCell => r == Result::<Option<String>, ConnectorError>::Ok(
                    Option::None,
                ) && final(self).advanced_from(*old(self)),
                CellText::Text(s) => r matches Ok(Some(x)) && x@ == s && final(self).advanced_from(
                    *old(self),
                ),
            },
    {
        let cell = match self.peek_cell() {
            Ok(c) => c,
            Err(e) => {
                return Err(e);
            },
        };
        match cell {
            None => {
                self.advance();
                Ok(None)
            },
            Some(s) => {
                self.advance();
                Ok(Some(s))
            },
        }
    }

    /// Produce the next cell as a non-nullable calendar date.
    pub fn produce_date(&mut self) -> (r: Result<DateVal, ConnectorError>)
        requires
            old(self).wf(),
            old(self).has_row(),
        ensures
            final(self).wf(),
            match old(self).cur_cell() {
                CellText::Missing => r == Result::<DateVal, ConnectorError>::Err(
                    ConnectorError::MalformedResponse,
                ) && *final(self) == *old(self),
                CellText::NullCell => r == Result::<DateVal, ConnectorError>::Err(
                    ConnectorError::UnexpectedNull,
                ) && *final(self) == *old(self),
                CellText::Text(s) => match spec_parse_date(s) {
                    Option::None => is_cannot_produce(r, s) && *final(self) == *old(self),
                    Option::Some(v) => r == Result::<DateVal, ConnectorError>::Ok(v) && final(self).advanced_from(*old(self)),
                },
            },
    {
        let cell = match self.peek_cell() {
            Ok(c) => c,
            Err(e) => {
                return Err(e);
            },
        };
        match cell {
            None => Err(ConnectorError::UnexpectedNull),
            Some(s) => match parse_date(s.as_str()) {
                None => Err(ConnectorError::CannotProduce(Some(s))),
                Some(v) => {
                    self.advance();
                    Ok(v)
                },
            },
        }
    }

    /// Produce the next cell as a nullable calendar date.
    pub fn produce_opt_date(&mut self) -> (r: Result<Option<DateVal>, ConnectorError>)
        requires
            old(self).wf(),
            old(self).has_row(),
        ensures
            final(self).wf(),
            match old(self).cur_cell() {
                CellText::Missing => r == Result::<Option<DateVal>, ConnectorError>::Err(
                    ConnectorError::MalformedResponse,
                ) && *final(self) == *old(self),
                CellText::NullCell => r == Result::<Option<DateVal>, ConnectorError>::Ok(
                    Option::None,
                ) && final(self).advanced_from(*old(self)),
                CellText::Text(s) => match spec_parse_date(s) {
                    Option::None => is_cannot_produce(r, s) && *final(self) == *old(self),
                    Option::Some(v) => r == Result::<Option<DateVal>, ConnectorError>::Ok(
                        Option::Some(v),
                    ) && final(self).advanced_from(*old(self)),
                },
            },
    {
        let cell = match self.peek_cell() {
            Ok(c) => c,
            Err(e) => {
                return Err(e);
            },
        };
        match cell {
            None => {
                self.advance();
                Ok(None)
            },
            Some(s) => match parse_date(s.as_str()) {
                None => Err(ConnectorError::CannotProduce(Some(s))),
                Some(v) => {
                    self.advance();
                    Ok(Some(v))
                },
            },
        }
    }

    /// Produce the next cell as a non-nullable time of day.
    pub fn produce_time(&mut self) -> (r: Result<TimeVal, ConnectorError>)
        requires
            old(self).wf(),
            old(self).has_row(),
        ensures
            final(self).wf(),
            match old(self).cur_cell() {
                CellText::Missing => r == Result::<TimeVal, ConnectorError>::Err(
                    ConnectorError::MalformedResponse,
                ) && *final(self) == *old(self),
                CellText::NullCell => r == Result::<TimeVal, ConnectorError>::Err(
                    ConnectorError::UnexpectedNull,
                ) && *final(self) == *old(self),
                CellText::Text(s) => match spec_parse_time(s) {
                    Option::None => is_cannot_produce(r, s) && *final(self) == *old(self),
                    Option::Some(v) => r == Result::<TimeVal, ConnectorError>::Ok(v) && final(self).advanced_from(*old(self)),
                },
            },
    {
        let cell = match self.peek_cell() {
            Ok(c) => c,
            Err(e) => {
                return Err(e);
            },
        };
        match cell {
            None => Err(ConnectorError::UnexpectedNull),
            Some(s) => match parse_time(s.as_str()) {
                None => Err(ConnectorError::CannotProduce(Some(s))),
                Some(v) => {
                    self.advance();
                    Ok(v)
                },
            },
        }
    }

    /// Produce the next cell as a nullable time of day.
    pub fn produce_opt_time(&mut self) -> (r: Result<Option<TimeVal>, ConnectorError>)
        requires
            old(self).wf(),
            old(self).has_row(),
        ensures
            final(self).wf(),
            match old(self).cur_cell() {
                CellText::Missing => r == Result::<Option<TimeVal>, ConnectorError>::Err(
                    ConnectorError::MalformedResponse,
                ) && *final(self) == *old(self),
                CellText::NullCell => r == Result::<Option<TimeVal>, ConnectorError>::Ok(
                    Option::None,
                ) && final(self).advanced_from(*old(self)),
                CellText::Text(s) => match spec_parse_time(s) {
                    Option::None => is_cannot_produce(r, s) && *final(self) == *old(self),
                    Option::Some(v) => r == Result::<Option<TimeVal>, ConnectorError>::Ok(
                        Option::Some(v),
                    ) && final(self).advanced_from(*old(self)),
                },
            },
    {
        let cell = match self.peek_cell() {
            Ok(c) => c,
            Err(e) => {
                return Err(e);
            },
        };
        match cell {
            None => {
                self.advance();
                Ok(None)
            },
            Some(s) => match parse_time(s.as_str()) {
                None => Err(ConnectorError::CannotProduce(Some(s))),
                Some(v) => {
                    self.advance();
                    Ok(Some(v))
                },
            },
        }
    }

    /// Produce the next cell as a non-nullable date-time.
    pub fn produce_datetime(&mut self) -> (r: Result<DateTimeVal, ConnectorError>)
        requires
            old(self).wf(),
            old(self).has_row(),
        ensures
            final(self).wf(),
            match old(self).cur_cell() {
                CellText::Missing => r == Result::<DateTimeVal, ConnectorError>::Err(
                    ConnectorError::MalformedResponse,
                ) && *final(self) == *old(self),
                CellText::NullCell => r == Result::<DateTimeVal, ConnectorError>::Err(
                    ConnectorError::UnexpectedNull,
                ) && *final(self) == *old(self),
                CellText::Text(s) => match spec_parse_datetime(s) {
                    Option::None => is_cannot_produce(r, s) && *final(self) == *old(self),
                    Option::Some(v) => r == Result::<DateTimeVal, ConnectorError>::Ok(v) && final(self).advanced_from(*old(self)),
                },
            },
    {
        let cell = match self.peek_cell() {
            Ok(c) => c,
            Err(e) => {
                return Err(e);
            },
        };
        match cell {
            None => Err(ConnectorError::UnexpectedNull),
            Some(s) => match parse_datetime(s.as_str()) {
                None => Err(ConnectorError::CannotProduce(Some(s))),
                Some(v) => {
                    self.advance();
                    Ok(v)
                },
            },
        }
    }

    /// Produce the next cell as a nullable date-time.
    pub fn produce_opt_datetime(&mut self) -> (r: Result<Option<DateTimeVal>, ConnectorError>)
        requires
            old(self).wf(),
            old(self).has_row(),
        ensures
            final(self).wf(),
            match old(self).cur_cell() {
                CellText::Missing => r == Result::<Option<DateTimeVal>, ConnectorError>::Err(
                    ConnectorError::MalformedResponse,
                ) && *final(self) == *old(self),
                CellText::NullCell => r == Result::<Option<DateTimeVal>, ConnectorError>::Ok(
                    Option::None,
                ) && final(self).advanced_from(*old(self)),
                CellText::Text(s) => match spec_parse_datetime(s) {
                    Option::None => is_cannot_produce(r, s) && *final(self) == *old(self),
                    Option::Some(v) => r == Result::<Option<DateTimeVal>, ConnectorError>::Ok(
                        Option::Some(v),
                    ) && final(self).advanced_from(*old(self)),
                },
            },
    {
        let cell = match self.peek_cell() {
            Ok(c) => c,
            Err(e) => {
                return Err(e);
            },
        };
        match cell {
            None => {
                self.advance();
                Ok(None)
            },
            Some(s) => match parse_datetime(s.as_str()) {
                None => Err(ConnectorError::CannotProduce(Some(s))),
                Some(v) => {
                    self.advance();
                    Ok(Some(v))
                },
            },
        }
    }
}

} // verus!

