//! The plan node that dispatches a scan of one dataset to its remote
//! executor: the SQL it sends and where it sends it.

use vstd::prelude::*;
use crate::common::catalog::DatasetInfo;
use crate::schema::FieldInfo;
use crate::iam::optimizer::RemoteScan;
use crate::text::{chars_of, decimal, join, int_error_text, parse_u16, parse_u16_spec, push_decimal, string_from_chars};

verus! {

/// Comparison and logical operators of pushed-down predicates.
#[derive(Debug, Clone, Copy, PartialEq, Eq, Structural)]
pub enum SqlOp {
    Eq,
    NotEq,
    Lt,
    LtEq,
    Gt,
    GtEq,
    And,
    Or,
    /// Any operator the executor is not sent.
    Other,
}

/// A predicate pushed down to a scan, as much of it as can be sent: columns,
/// literals (with the text they render as), binary operations and negation.
#[derive(Debug)]
pub enum SqlExpr {
    Binary { op: SqlOp, left: Box<SqlExpr>, right: Box<SqlExpr> },
    Column(String),
    Literal(String),
    Not(Box<SqlExpr>),
    /// Any other expression.
    Other,
}

/// The SQL text of an operator, if it is sent.
pub open spec fn op_sql(op: SqlOp) -> Option<Seq<char>> {
    match op {
        SqlOp::Eq => Some("="@),
        SqlOp::NotEq => Some("!="@),
        SqlOp::Lt => Some("<"@),
        SqlOp::LtEq => Some("<="@),
        SqlOp::Gt => Some(">"@),
        SqlOp::GtEq => Some(">="@),
        SqlOp::And => Some("AND"@),
        SqlOp::Or => Some("OR"@),
        SqlOp::Other => None,
    }
}

/// The SQL text of a predicate, if every part of it can be sent: a binary
/// operation in parentheses, a column in double quotes, a literal as it
/// renders, a negation as `NOT (..)`.
pub open spec fn expr_sql(e: SqlExpr) -> Option<Seq<char>>
    decreases e,
{
    match e {
        SqlExpr::Binary { op, left, right } => match (expr_sql(*left), expr_sql(*right), op_sql(op)) {
            (Some(l), Some(r), Some(o)) => Some("("@ + l + " "@ + o + " "@ + r + ")"@),
            _ => None,
        },
        SqlExpr::Column(name) => Some("\""@ + name@ + "\""@),
        SqlExpr::Literal(text) => Some(text@),
        SqlExpr::Not(inner) => match expr_sql(*inner) {
            Some(i) => Some("NOT ("@ + i + ")"@),
            None => None,
        },
        SqlExpr::Other => None,
    }
}

/// Each operator that is sent renders as its own SQL keyword between its
/// two operands, the whole in parentheses; any other operator is not sent.
pub proof fn law_binary_operator_sql(op: SqlOp, left: SqlExpr, right: SqlExpr, l: Seq<char>, r: Seq<char>)
    requires
        expr_sql(left) == Some(l),
        expr_sql(right) == Some(r),
    ensures
        expr_sql(SqlExpr::Binary { op, left: Box::new(left), right: Box::new(right) }) == match op {
            SqlOp::Eq => Some("("@ + l + " = "@ + r + ")"@),
            SqlOp::NotEq => Some("("@ + l + " != "@ + r + ")"@),
            SqlOp::Lt => Some("("@ + l + " < "@ + r + ")"@),
            SqlOp::LtEq => Some("("@ + l + " <= "@ + r + ")"@),
            SqlOp::Gt => Some("("@ + l + " > "@ + r + ")"@),
            SqlOp::GtEq => Some("("@ + l + " >= "@ + r + ")"@),
            SqlOp::And => Some("("@ + l + " AND "@ + r + ")"@),
            SqlOp::Or => Some("("@ + l + " OR "@ + r + ")"@),
            SqlOp::Other => None::<Seq<char>>,
        },
{
    reveal_strlit(" ");
    reveal_strlit("=");
    reveal_strlit(" = ");
    reveal_strlit("!=");
    reveal_strlit(" != ");
    reveal_strlit("<");
    reveal_strlit(" < ");
    reveal_strlit("<=");
    reveal_strlit(" <= ");
    reveal_strlit(">");
    reveal_strlit(" > ");
    reveal_strlit(">=");
    reveal_strlit(" >= ");
    reveal_strlit("AND");
    reveal_strlit(" AND ");
    reveal_strlit("OR");
    reveal_strlit(" OR ");
    let e = SqlExpr::Binary { op, left: Box::new(left), right: Box::new(right) };
    match op_sql(op) {
        Some(o) => {
            assert(expr_sql(e) == Some("("@ + l + " "@ + o + " "@ + r + ")"@));
            assert(("("@ + l + " "@ + o + " "@ + r + ")"@) =~= ("("@ + l + (" "@ + o + " "@) + r + ")"@));
        },
        None => {},
    }
}

fn op_text(op: SqlOp) -> (r: Option<&'static str>)
    ensures
        match r {
            Some(t) => op_sql(op) == Some(t@),
            None => op_sql(op) is None,
        },
{
    match op {
        SqlOp::Eq => Some("="),
        SqlOp::NotEq => Some("!="),
        SqlOp::Lt => Some("<"),
        SqlOp::LtEq => Some("<="),
        SqlOp::Gt => Some(">"),
        SqlOp::GtEq => Some(">="),
        SqlOp::And => Some("AND"),
        SqlOp::Or => Some("OR"),
        SqlOp::Other => None,
    }
}

/// Best-effort conversion of a predicate to SQL text.
pub fn expr_to_sql(e: &SqlExpr) -> (r: Option<String>)
    ensures
        match r {
            Some(t) => expr_sql(*e) == Some(t@),
            None => expr_sql(*e) is None,
        },
    decreases e,
{
    match e {
        SqlExpr::Binary { op, left, right } => {
            let l = match expr_to_sql(left) {
                Some(l) => l,
                None => return None,
            };
            let r = match expr_to_sql(right) {
                Some(r) => r,
                None => return None,
            };
            let o = match op_text(*op) {
                Some(o) => o,
                None => return None,
            };
            let mut s = String::new();
            s.append("(");
            s.append(l.as_str());
            s.append(" ");
            s.append(o);
            s.append(" ");
            s.append(r.as_str());
            s.append(")");
            Some(s)
        },
        SqlExpr::Column(name) => {
            let mut s = String::new();
            s.append("\"");
            s.append(name.as_str());
            s.append("\"");
            Some(s)
        },
        SqlExpr::Literal(text) => Some(text.clone()),
        SqlExpr::Not(inner) => {
            let i = match expr_to_sql(inner) {
                Some(i) => i,
                None => return None,
            };
            let mut s = String::new();
            s.append("NOT (");
            s.append(i.as_str());
            s.append(")");
            Some(s)
        },
        SqlExpr::Other => None,
    }
}

/// The SQL texts of the predicates that can be sent, in order.
pub open spec fn sendable(filters: Seq<SqlExpr>) -> Seq<Seq<char>>
    decreases filters.len(),
{
    if filters.len() == 0 {
        Seq::empty()
    } else {
        let rest = sendable(filters.drop_last());
        match expr_sql(filters.last()) {
            Some(t) => rest.push(t),
            None => rest,
        }
    }
}

/// The query sent to the executor: every row of the table, restricted by the
/// sendable predicates joined with `AND`, and by the row limit.
pub open spec fn scan_sql(table: Seq<char>, filters: Seq<SqlExpr>, limit: Option<usize>) -> Seq<char> {
    let base = "SELECT * FROM \""@ + table + "\""@;
    let parts = sendable(filters);
    let with_where = if parts.len() == 0 { base } else { base + " WHERE "@ + join(parts, " AND "@) };
    match limit {
        Some(l) => with_where + " LIMIT "@ + decimal(l as nat),
        None => with_where,
    }
}

/// The scan of one remote dataset, with the predicates pushed down to it and
/// its row limit.
#[derive(Debug)]
pub struct RemoteTableScanExec {
    pub dataset: DatasetInfo,
    /// The schema the scan reports to the planner.
    pub schema: Vec<FieldInfo>,
    pub pushed_filters: Vec<SqlExpr>,
    pub limit: Option<usize>,
}

impl RemoteScan for RemoteTableScanExec {
    /// The namespace of the dataset this scan reads.
    open spec fn scan_namespace(&self) -> Seq<char> {
        self.dataset.namespace@
    }

    /// The name of the dataset this scan reads.
    open spec fn scan_name(&self) -> Seq<char> {
        self.dataset.name@
    }

    fn dataset_namespace(&self) -> &str {
        self.dataset.namespace.as_str()
    }

    fn dataset_name(&self) -> &str {
        self.dataset.name.as_str()
    }
}

impl RemoteTableScanExec {
    /// A scan of `dataset` reporting `schema`.
    pub fn new(dataset: DatasetInfo, schema: Vec<FieldInfo>, pushed_filters: Vec<SqlExpr>, limit: Option<usize>) -> (r: Self)
        ensures
            r.dataset == dataset,
            r.schema == schema,
            r.pushed_filters == pushed_filters,
            r.limit == limit,
    {
        RemoteTableScanExec { dataset, schema, pushed_filters, limit }
    }

    /// The namespace of the scanned dataset.
    pub fn dataset_namespace(&self) -> (r: &str)
        ensures
            r@ == self.dataset.namespace@,
    {
        self.dataset.namespace.as_str()
    }

    /// The name of the scanned dataset.
    pub fn dataset_name(&self) -> (r: &str)
        ensures
            r@ == self.dataset.name@,
    {
        self.dataset.name.as_str()
    }

    /// The query sent to the executor.
    pub fn build_sql(&self) -> (r: String)
        ensures
            r@ == scan_sql(self.dataset.name@, self.pushed_filters@, self.limit),
    {
        let mut sql = String::new();
        sql.append("SELECT * FROM \"");
        sql.append(self.dataset.name.as_str());
        sql.append("\"");
        let ghost base = sql@;
        let n = self.pushed_filters.len();
        let mut joined = String::new();
        let mut count: usize = 0;
        let mut i: usize = 0;
        while i < n
            invariant
                n == self.pushed_filters@.len(),
                i <= n,
                count == sendable(self.pushed_filters@.take(i as int)).len(),
                count <= i,
                joined@ == join(sendable(self.pushed_filters@.take(i as int)), " AND "@),
            decreases n - i,
        {
            let ghost prev = sendable(self.pushed_filters@.take(i as int));
            assert(self.pushed_filters@.take(i + 1).drop_last() =~= self.pushed_filters@.take(i as int));
            assert(self.pushed_filters@.take(i + 1).last() == self.pushed_filters@[i as int]);
            match expr_to_sql(&self.pushed_filters[i]) {
                Some(t) => {
                    if count > 0 {
                        joined.append(" AND ");
                    }
                    joined.append(t.as_str());
                    count += 1;
                    proof {
                        let next = prev.push(t@);
                        assert(next.drop_last() =~= prev);
                        if prev.len() == 0 {
                            assert(joined@ =~= join(next, " AND "@));
                        } else {
                            assert(joined@ =~= join(next, " AND "@));
                        }
                    }
                },
                None => {},
            }
            i += 1;
        }
        assert(self.pushed_filters@.take(n as int) =~= self.pushed_filters@);
        if count > 0 {
            sql.append(" WHERE ");
            sql.append(joined.as_str());
        }
        match self.limit {
            Some(lim) => {
                sql.append(" LIMIT ");
                push_decimal(&mut sql, lim as u64);
            },
            None => {},
        }
        sql
    }
}

/// Where an endpoint `host:port` splits: at its last colon.
pub open spec fn last_colon(s: Seq<char>) -> int
    decreases s.len(),
{
    if s.len() == 0 {
        -1
    } else if s.last() == ':' {
        s.len() - 1
    } else {
        last_colon(s.drop_last())
    }
}

/// The host and port of an executor endpoint `host:port`, split at the last
/// colon; an endpoint without a colon, or whose port is not a 16-bit number,
/// is a planning error with its message.
pub open spec fn endpoint_parts(endpoint: Seq<char>) -> Result<(Seq<char>, u16), Seq<char>> {
    let c = last_colon(endpoint);
    if c < 0 {
        Err("invalid executor endpoint: "@ + endpoint)
    } else {
        match parse_u16_spec(endpoint.skip(c + 1)) {
            Ok(port) => Ok((endpoint.take(c), port)),
            Err(k) => Err("invalid port in endpoint: "@ + int_error_text(k)),
        }
    }
}

fn find_last_colon(s: &[char]) -> (r: Option<usize>)
    ensures
        match r {
            Some(i) => i as int == last_colon(s@) && i < s@.len(),
            None => last_colon(s@) < 0,
        },
{
    let mut i: usize = s.len();
    assert(s@.take(i as int) =~= s@);
    while i > 0
        invariant
            i <= s@.len(),
            last_colon(s@) == last_colon(s@.take(i as int)),
        decreases i,
    {
        assert(s@.take(i as int).drop_last() =~= s@.take(i - 1));
        if s[i - 1] == ':' {
            return Some(i - 1);
        }
        i -= 1;
    }
    None
}

/// The last colon of `a:b` is the one before `b` where `b` holds none.
proof fn lemma_last_colon_before(a: Seq<char>, b: Seq<char>)
    requires
        forall|i: int| 0 <= i < b.len() ==> #[trigger] b[i] != ':',
    ensures
        last_colon(a + seq![':'] + b) == a.len(),
    decreases b.len(),
{
    let s = a + seq![':'] + b;
    if b.len() > 0 {
        assert(s.drop_last() =~= a + seq![':'] + b.drop_last());
        assert(s.last() == b[b.len() - 1]);
        lemma_last_colon_before(a, b.drop_last());
    }
}

/// An endpoint written as `host:port` splits back into that host and port,
/// whatever colons the host holds.
pub proof fn law_endpoint_round_trip(host: Seq<char>, port: u16)
    ensures
        endpoint_parts(host + seq![':'] + decimal(port as nat)) == Ok::<(Seq<char>, u16), Seq<char>>((host, port)),
{
    let d = decimal(port as nat);
    let s = host + seq![':'] + d;
    crate::text::law_parse_decimal_u16(port);
    crate::text::lemma_decimal_digits(port as nat);
    assert forall|i: int| 0 <= i < d.len() implies #[trigger] d[i] != ':' by {
        assert(crate::text::is_digit(d[i]));
    }
    lemma_last_colon_before(host, d);
    assert(s.skip(host.len() as int + 1) =~= d);
    assert(s.take(host.len() as int) =~= host);
}

/// Splits an executor endpoint into host and port.
pub fn parse_endpoint(endpoint: &str) -> (r: Result<(String, u16), String>)
    ensures
        match r {
            Ok((host, port)) => endpoint_parts(endpoint@) == Ok::<(Seq<char>, u16), Seq<char>>((host@, port)),
            Err(m) => endpoint_parts(endpoint@) == Err::<(Seq<char>, u16), Seq<char>>(m@),
        },
{
    let cs = chars_of(endpoint);
    proof {
        assert(cs@.take(cs@.len() as int) =~= cs@);
    }
    match find_last_colon(cs.as_slice()) {
        None => {
            let mut m = String::new();
            m.append("invalid executor endpoint: ");
            m.append(endpoint);
            Err(m)
        },
        Some(c) => {
            let mut tail: Vec<char> = Vec::new();
            let mut j: usize = c + 1;
            let n = cs.len();
            while j < n
                invariant
                    n == cs@.len(),
                    c < n,
                    c + 1 <= j <= n,
                    tail@ == cs@.subrange(c + 1, j as int),
                decreases n - j,
            {
                tail.push(cs[j]);
                assert(cs@.subrange(c + 1, j as int).push(cs@[j as int]) =~= cs@.subrange(c + 1, j + 1));
                j += 1;
            }
            assert(tail@ =~= cs@.skip(c + 1));
            match parse_u16(tail.as_slice()) {
                Ok(port) => {
                    let mut host: Vec<char> = Vec::new();
                    let mut k: usize = 0;
                    while k < c
                        invariant
                            c < cs@.len(),
                            k <= c,
                            host@ == cs@.take(k as int),
                        decreases c - k,
                    {
                        host.push(cs[k]);
                        assert(cs@.take(k as int).push(cs@[k as int]) =~= cs@.take(k + 1));
                        k += 1;
                    }
                    Ok((string_from_chars(host.as_slice()), port))
                },
                Err(kind) => {
                    let mut m = String::new();
                    m.append("invalid port in endpoint: ");
                    m.append(kind.message());
                    Err(m)
                },
            }
        },
    }
}

/// The executor's SQL service URL for a scan: `http://{host}:{port + 1}/sql`,
/// the service listening on the port after the endpoint's.
pub open spec fn sql_url(host: Seq<char>, port: u16) -> Seq<char> {
    "http://"@ + host + ":"@ + decimal((port + 1) as nat) + "/sql"@
}

/// Where a scan of `endpoint` is sent: the URL of the executor's SQL
/// service, or the planning error of an endpoint that cannot be split.
pub fn executor_sql_url(endpoint: &str) -> (r: Result<String, String>)
    requires
        endpoint_parts(endpoint@) matches Ok((_, port)) ==> port < 65535,
    ensures
        match endpoint_parts(endpoint@) {
            Ok((host, port)) => r matches Ok(u) && u@ == sql_url(host, port),
            Err(m) => r matches Err(e) && e@ == m,
        },
{
    match parse_endpoint(endpoint) {
        Ok((host, port)) => {
            let mut u = String::new();
            u.append("http://");
            u.append(host.as_str());
            u.append(":");
            push_decimal(&mut u, (port + 1) as u64);
            u.append("/sql");
            Ok(u)
        },
        Err(m) => Err(m),
    }
}

/// The request a scan sends: the URL of the executor's SQL service and the
/// query, or the planning error of an endpoint that cannot be split.
pub fn dispatch(scan: &RemoteTableScanExec) -> (r: Result<(String, String), String>)
    requires
        endpoint_parts(scan.dataset.executor_endpoint@) matches Ok((_, port)) ==> port < 65535,
    ensures
        match endpoint_parts(scan.dataset.executor_endpoint@) {
            Ok((host, port)) => r matches Ok((u, q)) && u@ == sql_url(host, port)
                && q@ == scan_sql(scan.dataset.name@, scan.pushed_filters@, scan.limit),
            Err(m) => r matches Err(e) && e@ == m,
        },
{
    let sql = scan.build_sql();
    match executor_sql_url(scan.dataset.executor_endpoint.as_str()) {
        Ok(url) => Ok((url, sql)),
        Err(m) => Err(m),
    }
}

/// The error of a scan whose executor answered with a failure: its status
/// line and the body of the answer.
pub open spec fn executor_error_text(status: Seq<char>, body: Seq<char>) -> Seq<char> {
    "executor SQL service error ("@ + status + "): "@ + body
}

/// The error of a scan whose executor answered with a failure.
pub fn executor_error(status: &str, body: &str) -> (r: String)
    ensures
        r@ == executor_error_text(status@, body@),
{
    let mut m = String::new();
    m.append("executor SQL service error (");
    m.append(status);
    m.append("): ");
    m.append(body);
    m
}

/// The schema of a scan's result: that of the first batch the executor
/// sent, the executor's schema being the one that holds; where no batch came
/// back, the schema stored for the dataset.
pub fn reported_schema(batch_schemas: Vec<Vec<FieldInfo>>, stored: Vec<FieldInfo>) -> (r: Vec<FieldInfo>)
    ensures
        r@ == if batch_schemas@.len() > 0 { batch_schemas@[0]@ } else { stored@ },
{
    let mut batch_schemas = batch_schemas;
    if batch_schemas.len() > 0 {
        batch_schemas.remove(0)
    } else {
        stored
    }
}

/// How a scan shows in a plan: `RemoteTableScanExec: namespace.name @ endpoint`.
pub fn describe(scan: &RemoteTableScanExec) -> (r: String)
    ensures
        r@ == "RemoteTableScanExec: "@ + scan.dataset.namespace@ + "."@ + scan.dataset.name@ + " @ "@
            + scan.dataset.executor_endpoint@,
{
    let mut d = String::new();
    d.append("RemoteTableScanExec: ");
    d.append(scan.dataset.namespace.as_str());
    d.append(".");
    d.append(scan.dataset.name.as_str());
    d.append(" @ ");
    d.append(scan.dataset.executor_endpoint.as_str());
    d
}

} // verus!
