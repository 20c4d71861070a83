use vstd::prelude::*;
use vstd::string::StringExecFns;

verus! {

/// The table that holds the usage records.
pub const MQ_USAGE_TABLE: &'static str = "mq_data";

/// An inclusive time range, each bound as RFC 3339 text.
pub struct TimeRange {
    pub from: String,
    pub to: String,
}

/// What a query asks for: records of one function, optionally of one system
/// only, optionally within a time range only.
pub struct UsageFilter {
    pub mq_function: String,
    pub system_name: Option<String>,
    pub range: Option<TimeRange>,
}

/// A statement ready for the store: its text, in which values appear only
/// as numbered placeholders, and the values to bind, the first to `?1`, the
/// second to `?2`, and so on.
pub struct Statement {
    pub sql: String,
    pub params: Vec<String>,
}

/// A statement as a plain value.
pub struct StatementView {
    pub sql: Seq<char>,
    pub params: Seq<Seq<char>>,
}

/// The strings of a vector as plain values.
pub open spec fn texts(v: Seq<String>) -> Seq<Seq<char>> {
    Seq::new(v.len(), |i: int| v[i]@)
}

impl View for Statement {
    type V = StatementView;

    open spec fn view(&self) -> StatementView {
        StatementView { sql: self.sql@, params: texts(self.params@) }
    }
}

/// The clause that restricts the instant; it takes placeholders 2 and 3.
pub open spec fn range_clause(has_range: bool) -> Seq<char> {
    if has_range {
        " AND (date_time BETWEEN ?2 AND ?3)"@
    } else {
        Seq::empty()
    }
}

/// The clause that restricts the system; it takes the first placeholder
/// that the range clause left free.
pub open spec fn system_clause(has_range: bool, has_system: bool) -> Seq<char> {
    if !has_system {
        Seq::empty()
    } else if has_range {
        " AND system_name = ?4"@
    } else {
        " AND system_name = ?2"@
    }
}

/// The condition of a filtered statement. It depends on which optional
/// fields are present, never on a value.
pub open spec fn where_text(has_range: bool, has_system: bool) -> Seq<char> {
    " WHERE mq_function = ?1"@ + range_clause(has_range) + system_clause(has_range, has_system)
}

/// Head of the usage statement: the columns it selects, by name and in
/// their canonical order.
pub const USAGE_SELECT: &'static str =
    "SELECT date_time, date, minute, system_name, mq_function, work_total, trans_per_sec FROM ";

/// Position of the instant in a row of the usage statement.
pub const COLUMN_DATE_TIME: usize = 0;

/// Position of the display date in a row of the usage statement.
pub const COLUMN_DATE: usize = 1;

/// Position of the display minute in a row of the usage statement.
pub const COLUMN_MINUTE: usize = 2;

/// Position of the system name in a row of the usage statement.
pub const COLUMN_SYSTEM_NAME: usize = 3;

/// Position of the function name in a row of the usage statement.
pub const COLUMN_MQ_FUNCTION: usize = 4;

/// Position of the work total in a row of the usage statement.
pub const COLUMN_WORK_TOTAL: usize = 5;

/// Position of the throughput in a row of the usage statement.
pub const COLUMN_TRANS_PER_SEC: usize = 6;

/// Position of the instant in a row of the summary statement.
pub const SUMMARY_COLUMN_DATE_TIME: usize = 0;

/// Position of the summed throughput in a row of the summary statement.
pub const SUMMARY_COLUMN_TOTAL: usize = 1;

/// Text of the statement that returns the raw records of a filter. It
/// names its columns, so that their order does not depend on how the table
/// was created: `date_time`, `date`, `minute`, `system_name`,
/// `mq_function`, `work_total`, `trans_per_sec`, at the positions that the
/// `COLUMN_` constants give.
pub open spec fn usage_text(has_range: bool, has_system: bool) -> Seq<char> {
    USAGE_SELECT@ + MQ_USAGE_TABLE@ + where_text(has_range, has_system)
}

/// Text of the statement that sums the throughput per instant.
pub open spec fn tps_summary_text(has_range: bool, has_system: bool) -> Seq<char> {
    "SELECT date_time , SUM(trans_per_sec) AS total_trans_per_sec FROM "@ + MQ_USAGE_TABLE@
        + where_text(has_range, has_system) + " GROUP BY date_time"@
}

/// Text of the statement that lists the distinct functions, ascending.
pub open spec fn function_list_text() -> Seq<char> {
    "SELECT DISTINCT mq_function FROM "@ + MQ_USAGE_TABLE@ + " order by mq_function "@
}

/// Text of the statement that lists the distinct systems of one function,
/// ascending.
pub open spec fn system_name_list_text() -> Seq<char> {
    "SELECT DISTINCT system_name FROM "@ + MQ_USAGE_TABLE@
        + " WHERE mq_function = ? ORDER BY system_name"@
}

/// The bounds of a range, in the order of their placeholders.
pub open spec fn range_values(range: Option<TimeRange>) -> Seq<Seq<char>> {
    match range {
        Some(r) => seq![r.from@, r.to@],
        None => Seq::empty(),
    }
}

/// The system of a filter, if it names one.
pub open spec fn system_values(system_name: Option<String>) -> Seq<Seq<char>> {
    match system_name {
        Some(s) => seq![s@],
        None => Seq::empty(),
    }
}

impl UsageFilter {
    /// The values that a filter binds, in the order of their placeholders:
    /// the function, then the two bounds if there is a range, then the
    /// system if there is one.
    pub open spec fn bound_values(&self) -> Seq<Seq<char>> {
        seq![self.mq_function@] + range_values(self.range) + system_values(self.system_name)
    }

    /// The statement that returns the raw records of this filter.
    pub open spec fn usage_statement(&self) -> StatementView {
        StatementView {
            sql: usage_text(self.range is Some, self.system_name is Some),
            params: self.bound_values(),
        }
    }

    /// The statement that sums the throughput of this filter per instant.
    pub open spec fn tps_summary_statement(&self) -> StatementView {
        StatementView {
            sql: tps_summary_text(self.range is Some, self.system_name is Some),
            params: self.bound_values(),
        }
    }
}

/// How many of the first `n` characters of a text are `c`.
pub open spec fn count_upto(text: Seq<char>, c: char, n: int) -> nat
    decreases n,
{
    if n <= 0 {
        0
    } else {
        let here: nat = if text[n - 1] == c {
            1
        } else {
            0
        };
        count_upto(text, c, n - 1) + here
    }
}

/// The number of placeholders in a statement's text.
pub open spec fn placeholders(sql: Seq<char>) -> nat {
    count_upto(sql, '?', sql.len() as int)
}

/// Counting over a prefix of a concatenation sees the first part only.
proof fn count_in_first_part(a: Seq<char>, b: Seq<char>, c: char, n: int)
    requires
        0 <= n <= a.len(),
    ensures
        count_upto(a + b, c, n) == count_upto(a, c, n),
    decreases n,
{
    if n > 0 {
        count_in_first_part(a, b, c, n - 1);
    }
}

/// Counting over a concatenation adds up the counts of its parts.
proof fn count_of_concat(a: Seq<char>, b: Seq<char>, c: char, n: int)
    requires
        0 <= n <= b.len(),
    ensures
        count_upto(a + b, c, a.len() + n) == count_upto(a, c, a.len() as int) + count_upto(b, c, n),
    decreases n,
{
    if n == 0 {
        count_in_first_part(a, b, c, a.len() as int);
    } else {
        count_of_concat(a, b, c, n - 1);
        assert((a + b)[a.len() + n - 1] == b[n - 1]);
    }
}

/// The placeholders of a concatenation are those of its parts.
proof fn placeholders_of_concat(a: Seq<char>, b: Seq<char>)
    ensures
        placeholders(a + b) == placeholders(a) + placeholders(b),
{
    count_of_concat(a, b, '?', b.len() as int);
}

/// The condition holds one placeholder for the function, two for a range,
/// one for a system.
proof fn placeholders_of_where_text(has_range: bool, has_system: bool)
    ensures
        placeholders(where_text(has_range, has_system)) == 1 + (if has_range {
            2nat
        } else {
            0nat
        }) + (if has_system {
            1nat
        } else {
            0nat
        }),
{
    reveal_strlit(" WHERE mq_function = ?1");
    reveal_strlit(" AND (date_time BETWEEN ?2 AND ?3)");
    reveal_strlit(" AND system_name = ?4");
    reveal_strlit(" AND system_name = ?2");
    reveal_with_fuel(count_upto, 40);
    assert(placeholders(" WHERE mq_function = ?1"@) == 1);
    assert(placeholders(" AND (date_time BETWEEN ?2 AND ?3)"@) == 2);
    assert(placeholders(" AND system_name = ?4"@) == 1);
    assert(placeholders(" AND system_name = ?2"@) == 1);
    assert(placeholders(Seq::<char>::empty()) == 0);
    placeholders_of_concat(" WHERE mq_function = ?1"@, range_clause(has_range));
    placeholders_of_concat(
        " WHERE mq_function = ?1"@ + range_clause(has_range),
        system_clause(has_range, has_system),
    );
}

/// The fixed parts of the statements hold no placeholder.
proof fn placeholders_of_fixed_parts()
    ensures
        placeholders(USAGE_SELECT@) == 0,
        placeholders(MQ_USAGE_TABLE@) == 0,
        placeholders("SELECT date_time , SUM(trans_per_sec) AS total_trans_per_sec FROM "@) == 0,
        placeholders(" GROUP BY date_time"@) == 0,
{
    assert(placeholders(USAGE_SELECT@) == 0) by {
        reveal_strlit(
            "SELECT date_time, date, minute, system_name, mq_function, work_total, trans_per_sec FROM ",
        );
        reveal_with_fuel(count_upto, 95);
    }
    assert(placeholders(MQ_USAGE_TABLE@) == 0) by {
        reveal_strlit("mq_data");
        reveal_with_fuel(count_upto, 10);
    }
    assert(placeholders(" GROUP BY date_time"@) == 0) by {
        reveal_strlit(" GROUP BY date_time");
        reveal_with_fuel(count_upto, 25);
    }
    assert(placeholders("SELECT date_time , SUM(trans_per_sec) AS total_trans_per_sec FROM "@)
        == 0) by {
        reveal_strlit("SELECT date_time , SUM(trans_per_sec) AS total_trans_per_sec FROM ");
        reveal_with_fuel(count_upto, 70);
    }
}

/// Injection safety, first half: the text of a statement depends on which
/// optional fields a filter has and on nothing else. Two filters of the
/// same shape give the same text, whatever their values hold.
pub proof fn statement_text_ignores_values(a: UsageFilter, b: UsageFilter)
    requires
        a.range is Some <==> b.range is Some,
        a.system_name is Some <==> b.system_name is Some,
    ensures
        a.usage_statement().sql == b.usage_statement().sql,
        a.tps_summary_statement().sql == b.tps_summary_statement().sql,
{
}

/// Injection safety, second half: every value of a filter is bound. The
/// text holds exactly as many placeholders as the statement binds values,
/// and the bound values are the filter's own, unchanged and in order.
pub proof fn every_value_is_bound(filter: UsageFilter)
    ensures
        placeholders(filter.usage_statement().sql) == filter.usage_statement().params.len(),
        placeholders(filter.tps_summary_statement().sql)
            == filter.tps_summary_statement().params.len(),
        filter.usage_statement().params[0] == filter.mq_function@,
        filter.system_name matches Some(s) ==> filter.usage_statement().params.last() == s@,
        filter.range matches Some(r) ==> filter.usage_statement().params[1] == r.from@
            && filter.usage_statement().params[2] == r.to@,
{
    let has_range = filter.range is Some;
    let has_system = filter.system_name is Some;
    placeholders_of_where_text(has_range, has_system);
    placeholders_of_fixed_parts();
    placeholders_of_concat(USAGE_SELECT@, MQ_USAGE_TABLE@);
    placeholders_of_concat(USAGE_SELECT@ + MQ_USAGE_TABLE@, where_text(has_range, has_system));
    placeholders_of_concat(
        "SELECT date_time , SUM(trans_per_sec) AS total_trans_per_sec FROM "@,
        MQ_USAGE_TABLE@,
    );
    placeholders_of_concat(
        "SELECT date_time , SUM(trans_per_sec) AS total_trans_per_sec FROM "@ + MQ_USAGE_TABLE@,
        where_text(has_range, has_system),
    );
    placeholders_of_concat(
        "SELECT date_time , SUM(trans_per_sec) AS total_trans_per_sec FROM "@ + MQ_USAGE_TABLE@
            + where_text(has_range, has_system),
        " GROUP BY date_time"@,
    );
}


/// The two list statements bind their values too: the list of functions
/// binds none and holds no placeholder; the list of systems holds one, for
/// the function.
pub proof fn list_statements_bind_their_values()
    ensures
        placeholders(function_list_text()) == 0,
        placeholders(system_name_list_text()) == 1,
{
    placeholders_of_fixed_parts();
    assert(placeholders("SELECT DISTINCT mq_function FROM "@) == 0) by {
        reveal_strlit("SELECT DISTINCT mq_function FROM ");
        reveal_with_fuel(count_upto, 40);
    }
    assert(placeholders(" order by mq_function "@) == 0) by {
        reveal_strlit(" order by mq_function ");
        reveal_with_fuel(count_upto, 30);
    }
    assert(placeholders("SELECT DISTINCT system_name FROM "@) == 0) by {
        reveal_strlit("SELECT DISTINCT system_name FROM ");
        reveal_with_fuel(count_upto, 40);
    }
    assert(placeholders(" WHERE mq_function = ? ORDER BY system_name"@) == 1) by {
        reveal_strlit(" WHERE mq_function = ? ORDER BY system_name");
        reveal_with_fuel(count_upto, 50);
    }
    placeholders_of_concat("SELECT DISTINCT mq_function FROM "@, MQ_USAGE_TABLE@);
    placeholders_of_concat(
        "SELECT DISTINCT mq_function FROM "@ + MQ_USAGE_TABLE@,
        " order by mq_function "@,
    );
    placeholders_of_concat("SELECT DISTINCT system_name FROM "@, MQ_USAGE_TABLE@);
    placeholders_of_concat(
        "SELECT DISTINCT system_name FROM "@ + MQ_USAGE_TABLE@,
        " WHERE mq_function = ? ORDER BY system_name"@,
    );
}

/// Appends the condition of a filter to a statement under construction:
/// one clause and its bound values per field that is present.
fn push_filter(sql: &mut String, params: &mut Vec<String>, filter: &UsageFilter)
    ensures
        final(sql)@ == old(sql)@ + where_text(filter.range is Some, filter.system_name is Some),
        texts(final(params)@) == texts(old(params)@) + filter.bound_values(),
{
    let ghost sql0 = sql@;
    let ghost params0 = texts(params@);
    sql.append(" WHERE mq_function = ?1");
    params.push(filter.mq_function.clone());
    assert(texts(params@) =~= params0 + seq![filter.mq_function@]);
    match &filter.range {
        Some(r) => {
            sql.append(" AND (date_time BETWEEN ?2 AND ?3)");
            params.push(r.from.clone());
            params.push(r.to.clone());
        },
        None => {},
    }
    assert(texts(params@) =~= params0 + seq![filter.mq_function@] + range_values(filter.range));
    match &filter.system_name {
        Some(s) => {
            if filter.range.is_some() {
                sql.append(" AND system_name = ?4");
            } else {
                sql.append(" AND system_name = ?2");
            }
            params.push(s.clone());
        },
        None => {},
    }
    assert(texts(params@) =~= params0 + filter.bound_values());
    assert(sql@ =~= sql0 + where_text(filter.range is Some, filter.system_name is Some));
}

/// Builds the statement that lists the distinct functions, ascending. It
/// binds no value.
pub fn function_list_statement() -> (stmt: Statement)
    ensures
        stmt@.sql == function_list_text(),
        stmt@.params == Seq::<Seq<char>>::empty(),
{
    let mut sql = String::from_str("SELECT DISTINCT mq_function FROM ");
    sql.append(MQ_USAGE_TABLE);
    sql.append(" order by mq_function ");
    let stmt = Statement { sql, params: Vec::new() };
    assert(stmt@.params =~= Seq::<Seq<char>>::empty());
    stmt
}

/// Builds the statement that lists the distinct systems of one function,
/// ascending. The function's name is bound, not written into the text.
pub fn system_name_list_statement(mq_function: &str) -> (stmt: Statement)
    ensures
        stmt@.sql == system_name_list_text(),
        stmt@.params == seq![mq_function@],
{
    let mut sql = String::from_str("SELECT DISTINCT system_name FROM ");
    sql.append(MQ_USAGE_TABLE);
    sql.append(" WHERE mq_function = ? ORDER BY system_name");
    let mut params: Vec<String> = Vec::new();
    params.push(String::from_str(mq_function));
    let stmt = Statement { sql, params };
    assert(stmt@.params =~= seq![mq_function@]);
    stmt
}

/// Builds the statement that returns the raw records matching a filter:
/// the function by equality, the system by equality if one is given, the
/// instant within the range if one is given. Rows come in the store's order.
///
/// Each row holds, in this order, the columns `date_time`, `date`,
/// `minute`, `system_name`, `mq_function`, `work_total` and
/// `trans_per_sec`; the `COLUMN_` constants give their positions.
pub fn usage_statement(filter: &UsageFilter) -> (stmt: Statement)
    ensures
        stmt@ == filter.usage_statement(),
{
    let mut sql = String::from_str(USAGE_SELECT);
    sql.append(MQ_USAGE_TABLE);
    let mut params: Vec<String> = Vec::new();
    assert(texts(params@) =~= Seq::<Seq<char>>::empty());
    push_filter(&mut sql, &mut params, filter);
    assert(texts(params@) =~= filter.bound_values());
    Statement { sql, params }
}

/// Builds the statement that groups the records matching a filter by their
/// exact instant and sums the throughput within each group.
///
/// Each row holds the instant, then the sum; the `SUMMARY_COLUMN_`
/// constants give their positions.
pub fn tps_summary_statement(filter: &UsageFilter) -> (stmt: Statement)
    ensures
        stmt@ == filter.tps_summary_statement(),
{
    let mut sql = String::from_str(
        "SELECT date_time , SUM(trans_per_sec) AS total_trans_per_sec FROM ",
    );
    sql.append(MQ_USAGE_TABLE);
    let mut params: Vec<String> = Vec::new();
    assert(texts(params@) =~= Seq::<Seq<char>>::empty());
    push_filter(&mut sql, &mut params, filter);
    sql.append(" GROUP BY date_time");
    assert(texts(params@) =~= filter.bound_values());
    Statement { sql, params }
}

} // verus!
