//! The admin-facing activity log: its rows, what a new entry binds, the
//! filtered queries over it and how their answers combine.

use vstd::prelude::*;
use crate::text::{occurs_at, seq_contains};
use crate::time::{
    chrono_checked_sub_seconds, chrono_format_utc_seconds, chrono_minus_seconds,
    chrono_parse_rfc3339, chrono_rfc3339_instant, chrono_utc_seconds_text, instant_of, Timestamp,
};

verus! {

/// A single row in the admin-facing activity log. `user_id` is optional
/// because some events (e.g. failed auth) are not tied to a known account.
#[derive(Debug, Clone, PartialEq)]
pub struct ActivityLog {
    pub id: i64,
    pub log_type: String,
    pub name: String,
    pub short_overview: Option<String>,
    pub user_id: Option<u128>,
    pub date: String,
    pub severity: String,
    pub ip_address: Option<String>,
    pub device_id: Option<String>,
    pub client: Option<String>,
}

/// Input for recording an activity-log entry. Everything except `log_type` /
/// `name` is optional; the date and severity default to "now" / "Info".
#[derive(Debug, Clone, PartialEq)]
pub struct ActivityLogEntry {
    pub log_type: String,
    pub name: String,
    pub short_overview: Option<String>,
    pub user_id: Option<u128>,
    pub ip_address: Option<String>,
    pub device_id: Option<String>,
    pub client: Option<String>,
}

/// Filter for activity-log queries.
#[derive(Debug, Clone, PartialEq)]
pub struct ActivityLogFilter {
    pub user_id: Option<u128>,
    pub log_type: Option<String>,
    /// Only entries at or after this RFC 3339 timestamp.
    pub since: Option<String>,
    pub limit: Option<u32>,
    pub offset: Option<u32>,
    pub total_count: bool,
}

/// One page of records and, when asked for, the number of all matching records.
#[derive(Debug, Clone, PartialEq)]
pub struct FilterResult<T> {
    pub records: Vec<T>,
    pub total_count: usize,
}

/// A value bound to a `?` placeholder of a query.
#[derive(Debug, Clone, PartialEq)]
pub enum SqlArg {
    Text(String),
    NullableText(Option<String>),
    Uuid(u128),
    NullableUuid(Option<u128>),
    Int(u32),
    /// An instant, bound as a `DateTime<Utc>`.
    Instant(Timestamp),
}

pub enum SqlArgView {
    Text(Seq<char>),
    NullableText(Option<Seq<char>>),
    Uuid(u128),
    NullableUuid(Option<u128>),
    Int(u32),
    Instant(Timestamp),
}

impl View for SqlArg {
    type V = SqlArgView;

    open spec fn view(&self) -> SqlArgView {
        match self {
            SqlArg::Text(s) => SqlArgView::Text(s@),
            SqlArg::NullableText(s) => SqlArgView::NullableText(s.deep_view()),
            SqlArg::Uuid(u) => SqlArgView::Uuid(*u),
            SqlArg::NullableUuid(u) => SqlArgView::NullableUuid(*u),
            SqlArg::Int(n) => SqlArgView::Int(*n),
            SqlArg::Instant(t) => SqlArgView::Instant(*t),
        }
    }
}

/// A query text with one argument per `?`, in order.
#[derive(Debug, Clone, PartialEq)]
pub struct SqlQuery {
    pub sql: String,
    pub args: Vec<SqlArg>,
}

pub open spec fn args_view(args: Seq<SqlArg>) -> Seq<SqlArgView> {
    args.map_values(|a: SqlArg| a@)
}

pub open spec fn text_arg(s: String) -> SqlArgView {
    SqlArgView::Text(s@)
}

impl ActivityLogEntry {
    /// The values a new entry binds, in the order of the insert statement's
    /// placeholders: type, name, overview, user, severity "Info", IP address,
    /// device and client.
    pub open spec fn insert_args_spec(self) -> Seq<SqlArgView> {
        seq![
            SqlArgView::Text(self.log_type@),
            SqlArgView::Text(self.name@),
            SqlArgView::NullableText(self.short_overview.deep_view()),
            SqlArgView::NullableUuid(self.user_id),
            SqlArgView::Text(seq!['I', 'n', 'f', 'o']),
            SqlArgView::NullableText(self.ip_address.deep_view()),
            SqlArgView::NullableText(self.device_id.deep_view()),
            SqlArgView::NullableText(self.client.deep_view()),
        ]
    }
}

fn clone_text(s: &Option<String>) -> (res: Option<String>)
    ensures
        res.deep_view() == s.deep_view(),
{
    match s {
        Some(t) => Some(t.clone()),
        None => None,
    }
}

impl ActivityLogEntry {
    /// The values the insert statement binds for this entry, in order.
    pub fn insert_args(&self) -> (res: Vec<SqlArg>)
        ensures
            args_view(res@) == self.insert_args_spec(),
    {
        let mut args: Vec<SqlArg> = Vec::new();
        args.push(SqlArg::Text(self.log_type.clone()));
        args.push(SqlArg::Text(self.name.clone()));
        args.push(SqlArg::NullableText(clone_text(&self.short_overview)));
        args.push(SqlArg::NullableUuid(self.user_id));
        let mut severity = String::new();
        crate::text::push_char(&mut severity, 'I');
        crate::text::push_char(&mut severity, 'n');
        crate::text::push_char(&mut severity, 'f');
        crate::text::push_char(&mut severity, 'o');
        assert(severity@ =~= seq!['I', 'n', 'f', 'o']);
        args.push(SqlArg::Text(severity));
        args.push(SqlArg::NullableText(clone_text(&self.ip_address)));
        args.push(SqlArg::NullableText(clone_text(&self.device_id)));
        args.push(SqlArg::NullableText(clone_text(&self.client)));
        assert(args_view(args@) =~= self.insert_args_spec());
        args
    }
}

/// The value the `since` condition compares the `date` column with. The
/// column holds whole seconds in UTC as `YYYY-MM-DDTHH:MM:SSZ`, so an RFC 3339
/// timestamp, whatever its offset, is rewritten as the first whole second in
/// UTC at or after it; text that is no RFC 3339 timestamp is compared as it is.
pub open spec fn date_bound_text(since: Seq<char>) -> Seq<char> {
    match instant_of(chrono_rfc3339_instant(since)) {
        Some(t) => if t.nanos == 0 {
            chrono_utc_seconds_text(t.secs, t.nanos)
        } else {
            match instant_of(chrono_minus_seconds(t.secs, t.nanos, -1i64)) {
                Some(u) => chrono_utc_seconds_text(u.secs, u.nanos),
                None => chrono_utc_seconds_text(t.secs, t.nanos),
            }
        },
        None => since,
    }
}

/// The value the `since` condition binds (see `date_bound_text`).
pub fn date_bound(since: &str) -> (res: String)
    ensures
        res@ == date_bound_text(since@),
{
    match chrono_parse_rfc3339(since) {
        Some(t) => if t.nanos == 0 {
            chrono_format_utc_seconds(t)
        } else {
            match chrono_checked_sub_seconds(t, -1) {
                Some(u) => chrono_format_utc_seconds(u),
                None => chrono_format_utc_seconds(t),
            }
        },
        None => String::from_str(since),
    }
}

impl ActivityLogFilter {
    /// The conditions the filter adds to `WHERE 1=1`, each with a placeholder:
    /// on the user, on the type and on the earliest date, as far as given.
    pub open spec fn conditions(self) -> Seq<char> {
        (if self.user_id is Some { " AND user_id = ?"@ } else { seq![] }) + (if self.log_type is Some {
            " AND log_type = ?"@
        } else {
            seq![]
        }) + (if self.since is Some { " AND date >= ?"@ } else { seq![] })
    }

    /// The values bound to the conditions' placeholders, in order.
    pub open spec fn condition_args(self) -> Seq<SqlArgView> {
        (match self.user_id {
            Some(u) => seq![SqlArgView::Uuid(u)],
            None => seq![],
        }) + (match self.log_type {
            Some(t) => seq![SqlArgView::Text(t@)],
            None => seq![],
        }) + (match self.since {
            Some(t) => seq![SqlArgView::Text(date_bound_text(t@))],
            None => seq![],
        })
    }

    /// The page-size clause: the limit where given; with an offset but no
    /// limit, an unbounded `LIMIT -1`, since SQLite takes `OFFSET` only after
    /// a `LIMIT`.
    pub open spec fn limit_clause(self) -> Seq<char> {
        if self.limit is Some {
            " LIMIT ?"@
        } else if self.offset is Some {
            " LIMIT -1"@
        } else {
            seq![]
        }
    }

    /// The counting query: all matching rows.
    pub open spec fn count_sql(self) -> Seq<char> {
        "SELECT COUNT(*) FROM activity_log WHERE 1=1"@ + self.conditions()
    }

    /// The records query: the matching rows newest first (by id), then the
    /// page bounds where given (an offset alone skips that many rows and keeps
    /// all the rest).
    pub open spec fn records_sql(self) -> Seq<char> {
        "SELECT * FROM activity_log WHERE 1=1"@ + self.conditions() + " ORDER BY id DESC"@
            + self.limit_clause() + (if self.offset is Some { " OFFSET ?"@ } else { seq![] })
    }

    pub open spec fn records_args(self) -> Seq<SqlArgView> {
        self.condition_args() + (match self.limit {
            Some(l) => seq![SqlArgView::Int(l)],
            None => seq![],
        }) + (match self.offset {
            Some(o) => seq![SqlArgView::Int(o)],
            None => seq![],
        })
    }

    fn push_conditions(&self, sql: &mut String, args: &mut Vec<SqlArg>)
        ensures
            final(sql)@ == old(sql)@ + self.conditions(),
            args_view(final(args)@) == args_view(old(args)@) + self.condition_args(),
    {
        let ghost sql0 = old(sql)@;
        let ghost args0 = args_view(old(args)@);
        match &self.user_id {
            Some(u) => {
                sql.append(" AND user_id = ?");
                args.push(SqlArg::Uuid(*u));
            },
            None => {},
        }
        match &self.log_type {
            Some(t) => {
                sql.append(" AND log_type = ?");
                args.push(SqlArg::Text(t.clone()));
            },
            None => {},
        }
        match &self.since {
            Some(t) => {
                sql.append(" AND date >= ?");
                args.push(SqlArg::Text(date_bound(t.as_str())));
            },
            None => {},
        }
        assert(sql@ =~= sql0 + self.conditions());
        assert(args_view(args@) =~= args0 + self.condition_args());
    }

    /// The query counting all activity-log rows that match the filter.
    pub fn count_query(&self) -> (res: SqlQuery)
        ensures
            res.sql@ == self.count_sql(),
            args_view(res.args@) == self.condition_args(),
    {
        let mut sql = String::from_str("SELECT COUNT(*) FROM activity_log WHERE 1=1");
        let mut args: Vec<SqlArg> = Vec::new();
        assert(args_view(args@) =~= seq![]);
        self.push_conditions(&mut sql, &mut args);
        assert(args_view(args@) =~= self.condition_args());
        SqlQuery { sql, args }
    }

    /// The query for the page of matching rows, newest first.
    pub fn records_query(&self) -> (res: SqlQuery)
        ensures
            res.sql@ == self.records_sql(),
            args_view(res.args@) == self.records_args(),
    {
        let mut sql = String::from_str("SELECT * FROM activity_log WHERE 1=1");
        let mut args: Vec<SqlArg> = Vec::new();
        assert(args_view(args@) =~= seq![]);
        self.push_conditions(&mut sql, &mut args);
        sql.append(" ORDER BY id DESC");
        let ghost sql1 = sql@;
        let ghost args1 = args_view(args@);
        match self.limit {
            Some(l) => {
                sql.append(" LIMIT ?");
                args.push(SqlArg::Int(l));
            },
            None => {
                if self.offset.is_some() {
                    sql.append(" LIMIT -1");
                }
            },
        }
        match self.offset {
            Some(o) => {
                sql.append(" OFFSET ?");
                args.push(SqlArg::Int(o));
            },
            None => {},
        }
        assert(sql@ =~= self.records_sql());
        assert(args_view(args@) =~= self.records_args());
        SqlQuery { sql, args }
    }
}

/// How the answers of the two queries combine: a failed records query fails
/// the whole; the count is reported only when asked for, and only then can
/// its failure fail the whole; otherwise the count is 0.
pub open spec fn combined_result<T, E>(
    want_count: bool,
    count: Result<i64, E>,
    records: Result<Vec<T>, E>,
) -> Result<(Vec<T>, usize), E> {
    match records {
        Err(e) => Err(e),
        Ok(rs) => if want_count {
            match count {
                Err(e) => Err(e),
                Ok(n) => Ok((rs, n as usize)),
            }
        } else {
            Ok((rs, 0usize))
        },
    }
}

impl<T> FilterResult<T> {
    /// Combines the answers of the counting and records queries of `filter`.
    pub fn combine<E>(filter: &ActivityLogFilter, count: Result<i64, E>, records: Result<Vec<T>, E>) -> (res:
        Result<FilterResult<T>, E>)
        ensures
            match combined_result(filter.total_count, count, records) {
                Ok((rs, n)) => res matches Ok(r) && r.records == rs && r.total_count == n,
                Err(e) => res == Err::<FilterResult<T>, E>(e),
            },
    {
        let records = match records {
            Ok(rs) => rs,
            Err(e) => return Err(e),
        };
        let total_count: usize = if filter.total_count {
            match count {
                Ok(n) => n as usize,
                Err(e) => return Err(e),
            }
        } else {
            0
        };
        Ok(FilterResult { records, total_count })
    }
}

/// How many entries the dashboard's activity card asks for.
pub const ACTIVITY_CARD_LIMIT: u32 = 200;

impl Default for ActivityLogFilter {
    /// No condition, no page bounds, no count.
    fn default() -> (res: ActivityLogFilter)
        ensures
            res.user_id is None,
            res.log_type is None,
            res.since is None,
            res.limit is None,
            res.offset is None,
            !res.total_count,
    {
        ActivityLogFilter {
            user_id: None,
            log_type: None,
            since: None,
            limit: None,
            offset: None,
            total_count: false,
        }
    }
}

impl ActivityLogFilter {
    /// The request of the dashboard's activity card: the latest 200 entries.
    pub fn activity_card() -> (res: ActivityLogFilter)
        ensures
            res.user_id is None,
            res.log_type is None,
            res.since is None,
            res.limit == Some(ACTIVITY_CARD_LIMIT),
            res.offset is None,
            !res.total_count,
    {
        ActivityLogFilter { limit: Some(ACTIVITY_CARD_LIMIT), ..ActivityLogFilter::default() }
    }
}

impl Default for ActivityLogEntry {
    /// An entry with empty type and name and nothing else.
    fn default() -> (res: ActivityLogEntry)
        ensures
            res.log_type@ == Seq::<char>::empty(),
            res.name@ == Seq::<char>::empty(),
            res.short_overview is None,
            res.user_id is None,
            res.ip_address is None,
            res.device_id is None,
            res.client is None,
    {
        ActivityLogEntry {
            log_type: String::new(),
            name: String::new(),
            short_overview: None,
            user_id: None,
            ip_address: None,
            device_id: None,
            client: None,
        }
    }
}

/// The count is reported only when the filter asks for it: otherwise it is
/// 0 whatever the counting query answered; and a failed records query fails
/// the whole whatever the count.
pub proof fn lemma_count_only_when_asked<T, E>(
    want_count: bool,
    count: Result<i64, E>,
    records: Result<Vec<T>, E>,
)
    ensures
        !want_count && records is Ok ==> combined_result(want_count, count, records) == Ok::<(Vec<T>, usize), E>((records->Ok_0, 0usize)),
        records matches Err(e) ==> combined_result(want_count, count, records) == Err::<(Vec<T>, usize), E>(e),
{
}

/// How often `c` occurs in `s`.
pub open spec fn count_char(s: Seq<char>, c: char) -> nat
    decreases s.len(),
{
    if s.len() == 0 {
        0
    } else {
        count_char(s.drop_last(), c) + if s.last() == c { 1nat } else { 0nat }
    }
}

proof fn lemma_count_char_add(a: Seq<char>, b: Seq<char>, c: char)
    ensures
        count_char(a + b, c) == count_char(a, c) + count_char(b, c),
    decreases b.len(),
{
    if b.len() == 0 {
        assert(a + b =~= a);
    } else {
        lemma_count_char_add(a, b.drop_last(), c);
        assert((a + b).drop_last() =~= a + b.drop_last());
    }
}

proof fn lemma_count_char_none(s: Seq<char>, c: char)
    requires
        forall|i: int| 0 <= i < s.len() ==> s[i] != c,
    ensures
        count_char(s, c) == 0,
    decreases s.len(),
{
    if s.len() > 0 {
        lemma_count_char_none(s.drop_last(), c);
    }
}

proof fn lemma_count_char_last(s: Seq<char>, c: char)
    requires
        s.len() > 0,
        s.last() == c,
        forall|i: int| 0 <= i < s.len() - 1 ==> s[i] != c,
    ensures
        count_char(s, c) == 1,
{
    lemma_count_char_none(s.drop_last(), c);
}

proof fn lemma_condition_placeholders(f: ActivityLogFilter)
    ensures
        count_char(f.conditions(), '?') == f.condition_args().len(),
{
    reveal_strlit(" AND user_id = ?");
    reveal_strlit(" AND log_type = ?");
    reveal_strlit(" AND date >= ?");
    lemma_count_char_last(" AND user_id = ?"@, '?');
    lemma_count_char_last(" AND log_type = ?"@, '?');
    lemma_count_char_last(" AND date >= ?"@, '?');
    lemma_count_char_none(Seq::<char>::empty(), '?');
    let a = if f.user_id is Some { " AND user_id = ?"@ } else { seq![] };
    let b = if f.log_type is Some { " AND log_type = ?"@ } else { seq![] };
    let c = if f.since is Some { " AND date >= ?"@ } else { seq![] };
    lemma_count_char_add(a, b, '?');
    lemma_count_char_add(a + b, c, '?');
}

/// Every placeholder of either query gets exactly one argument: each query
/// holds as many `?` as it has arguments, and both carry the filter's
/// conditions with the same arguments, in the same order, first.
pub proof fn lemma_one_argument_per_placeholder(f: ActivityLogFilter)
    ensures
        count_char(f.count_sql(), '?') == f.condition_args().len(),
        count_char(f.records_sql(), '?') == f.records_args().len(),
        f.records_args().subrange(0, f.condition_args().len() as int) == f.condition_args(),
{
    reveal_strlit("SELECT COUNT(*) FROM activity_log WHERE 1=1");
    reveal_strlit("SELECT * FROM activity_log WHERE 1=1");
    reveal_strlit(" ORDER BY id DESC");
    reveal_strlit(" LIMIT ?");
    reveal_strlit(" OFFSET ?");
    reveal_strlit(" LIMIT -1");
    lemma_count_char_none(" LIMIT -1"@, '?');
    lemma_count_char_none("SELECT COUNT(*) FROM activity_log WHERE 1=1"@, '?');
    lemma_count_char_none("SELECT * FROM activity_log WHERE 1=1"@, '?');
    lemma_count_char_none(" ORDER BY id DESC"@, '?');
    lemma_count_char_last(" LIMIT ?"@, '?');
    lemma_count_char_last(" OFFSET ?"@, '?');
    lemma_count_char_none(Seq::<char>::empty(), '?');
    lemma_condition_placeholders(f);
    lemma_count_char_add("SELECT COUNT(*) FROM activity_log WHERE 1=1"@, f.conditions(), '?');
    let head = "SELECT * FROM activity_log WHERE 1=1"@ + f.conditions();
    let l = f.limit_clause();
    let o = if f.offset is Some { " OFFSET ?"@ } else { seq![] };
    lemma_count_char_add("SELECT * FROM activity_log WHERE 1=1"@, f.conditions(), '?');
    lemma_count_char_add(head, " ORDER BY id DESC"@, '?');
    lemma_count_char_add(head + " ORDER BY id DESC"@, l, '?');
    lemma_count_char_add(head + " ORDER BY id DESC"@ + l, o, '?');
    assert(f.records_args().subrange(0, f.condition_args().len() as int) =~= f.condition_args());
}

/// The statement that records an entry: its date is the current time in UTC
/// as `YYYY-MM-DDTHH:MM:SSZ`, and its severity the bound one, or "Info" where
/// that is empty.
pub const INSERT_ACTIVITY_SQL: &'static str = "INSERT INTO activity_log (log_type, name, short_overview, user_id, date, severity, ip_address, device_id, client) VALUES (?, ?, ?, ?, strftime('%Y-%m-%dT%H:%M:%SZ', 'now'), COALESCE(NULLIF(?, ''), 'Info'), ?, ?, ?)";

impl ActivityLogEntry {
    /// The statement recording this entry, with its values.
    pub fn insert_query(&self) -> (res: SqlQuery)
        ensures
            res.sql@ == INSERT_ACTIVITY_SQL@,
            args_view(res.args@) == self.insert_args_spec(),
    {
        SqlQuery { sql: String::from_str(INSERT_ACTIVITY_SQL), args: self.insert_args() }
    }
}

proof fn lemma_occurs_between(x: Seq<char>, c: Seq<char>, y: Seq<char>)
    ensures
        seq_contains(x + c + y, c),
{
    assert((x + c + y).subrange(x.len() as int, (x.len() + c.len()) as int) =~= c);
    assert(occurs_at(x + c + y, c, x.len() as int));
}

proof fn lemma_parts_occur(h: Seq<char>, a: Seq<char>, b: Seq<char>, c: Seq<char>, t: Seq<char>)
    ensures
        seq_contains(h + a + b + c + t, a),
        seq_contains(h + a + b + c + t, b),
        seq_contains(h + a + b + c + t, c),
{
    let s = h + a + b + c + t;
    assert(s =~= h + a + (b + c + t));
    lemma_occurs_between(h, a, b + c + t);
    assert(s =~= (h + a) + b + (c + t));
    lemma_occurs_between(h + a, b, c + t);
    assert(s =~= (h + a + b) + c + t);
    lemma_occurs_between(h + a + b, c, t);
}

proof fn lemma_given_conditions_occur(f: ActivityLogFilter)
    ensures
        f.user_id is Some ==> seq_contains(f.count_sql(), " AND user_id = ?"@) && seq_contains(
            f.records_sql(),
            " AND user_id = ?"@,
        ),
        f.log_type is Some ==> seq_contains(f.count_sql(), " AND log_type = ?"@) && seq_contains(
            f.records_sql(),
            " AND log_type = ?"@,
        ),
        f.since is Some ==> seq_contains(f.count_sql(), " AND date >= ?"@) && seq_contains(
            f.records_sql(),
            " AND date >= ?"@,
        ),
{
    let a = if f.user_id is Some { " AND user_id = ?"@ } else { seq![] };
    let b = if f.log_type is Some { " AND log_type = ?"@ } else { seq![] };
    let c = if f.since is Some { " AND date >= ?"@ } else { seq![] };
    let count_head = "SELECT COUNT(*) FROM activity_log WHERE 1=1"@;
    let rec_head = "SELECT * FROM activity_log WHERE 1=1"@;
    let tail = " ORDER BY id DESC"@ + f.limit_clause() + (if f.offset is Some { " OFFSET ?"@ } else { seq![] });
    assert(f.count_sql() =~= count_head + a + b + c + Seq::<char>::empty());
    assert(f.records_sql() =~= rec_head + a + b + c + tail);
    lemma_parts_occur(count_head, a, b, c, Seq::<char>::empty());
    lemma_parts_occur(rec_head, a, b, c, tail);
}

proof fn lemma_given_values_are_bound(f: ActivityLogFilter)
    ensures
        f.user_id matches Some(u) ==> f.condition_args().contains(SqlArgView::Uuid(u))
            && f.records_args().contains(SqlArgView::Uuid(u)),
        f.log_type matches Some(t) ==> f.condition_args().contains(SqlArgView::Text(t@))
            && f.records_args().contains(SqlArgView::Text(t@)),
        f.since matches Some(t) ==> f.condition_args().contains(SqlArgView::Text(date_bound_text(t@)))
            && f.records_args().contains(SqlArgView::Text(date_bound_text(t@))),
{
    let ua: Seq<SqlArgView> = match f.user_id {
        Some(u) => seq![SqlArgView::Uuid(u)],
        None => seq![],
    };
    let ta: Seq<SqlArgView> = match f.log_type {
        Some(t) => seq![SqlArgView::Text(t@)],
        None => seq![],
    };
    let sa: Seq<SqlArgView> = match f.since {
        Some(t) => seq![SqlArgView::Text(date_bound_text(t@))],
        None => seq![],
    };
    let ca = f.condition_args();
    let ra = f.records_args();
    assert(ca =~= ua + ta + sa);
    assert(ra.subrange(0, ca.len() as int) =~= ca);
    if f.user_id is Some {
        assert(ca[0] == ua[0]);
        assert(ra[0] == ca[0]);
    }
    if f.log_type is Some {
        assert(ca[ua.len() as int] == ta[0]);
        assert(ra[ua.len() as int] == ca[ua.len() as int]);
    }
    if f.since is Some {
        assert(ca[(ua.len() + ta.len()) as int] == sa[0]);
        assert(ra[(ua.len() + ta.len()) as int] == ca[(ua.len() + ta.len()) as int]);
    }
}

/// Every field a filter gives restricts both queries, whatever the other
/// fields hold: each query then holds that field's condition, and its
/// arguments hold that field's value (the user's id, the type's text, and
/// for the earliest date the stored form of the bound).
pub proof fn lemma_each_given_field_restricts_both_queries(f: ActivityLogFilter)
    ensures
        f.user_id matches Some(u) ==> {
            &&& seq_contains(f.count_sql(), " AND user_id = ?"@)
            &&& seq_contains(f.records_sql(), " AND user_id = ?"@)
            &&& f.condition_args().contains(SqlArgView::Uuid(u))
            &&& f.records_args().contains(SqlArgView::Uuid(u))
        },
        f.log_type matches Some(t) ==> {
            &&& seq_contains(f.count_sql(), " AND log_type = ?"@)
            &&& seq_contains(f.records_sql(), " AND log_type = ?"@)
            &&& f.condition_args().contains(SqlArgView::Text(t@))
            &&& f.records_args().contains(SqlArgView::Text(t@))
        },
        f.since matches Some(t) ==> {
            &&& seq_contains(f.count_sql(), " AND date >= ?"@)
            &&& seq_contains(f.records_sql(), " AND date >= ?"@)
            &&& f.condition_args().contains(SqlArgView::Text(date_bound_text(t@)))
            &&& f.records_args().contains(SqlArgView::Text(date_bound_text(t@)))
        },
{
    lemma_given_conditions_occur(f);
    lemma_given_values_are_bound(f);
}

} // verus!
