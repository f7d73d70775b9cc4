//! The server's user statistics: what a row of each statistics query becomes,
//! and the time windows the queries are bounded by.

use vstd::prelude::*;
use crate::activity::{args_view, SqlArg, SqlArgView, SqlQuery};
use crate::time::{chrono_checked_sub_seconds, chrono_minus_seconds, chrono_parse_utc, chrono_utc_instant, instant_of, Timestamp};

verus! {

/// Window used to decide whether a device session is "active" (16 minutes).
pub const ACTIVE_WINDOW_MINUTES: i64 = 16;

/// Aggregated statistics for a single user, shown on the user-detail page.
#[derive(Debug, Clone, PartialEq)]
pub struct UserStats {
    pub user_id: u128,
    pub username: String,
    pub is_admin: bool,
    pub is_disabled: bool,
    pub total_plays: i64,
    pub played_items: i64,
    pub favorite_items: i64,
    pub resume_items: i64,
    /// Sum of in-progress positions (seconds), an approximation of watch time.
    pub watch_time_seconds: i64,
    pub last_played_at: Option<Timestamp>,
    pub last_login_at: Option<Timestamp>,
    pub last_activity_at: Option<Timestamp>,
    pub active_device_count: i64,
}

pub struct UserStatsView {
    pub user_id: u128,
    pub username: Seq<char>,
    pub is_admin: bool,
    pub is_disabled: bool,
    pub total_plays: i64,
    pub played_items: i64,
    pub favorite_items: i64,
    pub resume_items: i64,
    pub watch_time_seconds: i64,
    pub last_played_at: Option<Timestamp>,
    pub last_login_at: Option<Timestamp>,
    pub last_activity_at: Option<Timestamp>,
    pub active_device_count: i64,
}

impl View for UserStats {
    type V = UserStatsView;

    open spec fn view(&self) -> UserStatsView {
        UserStatsView {
            user_id: self.user_id,
            username: self.username@,
            is_admin: self.is_admin,
            is_disabled: self.is_disabled,
            total_plays: self.total_plays,
            played_items: self.played_items,
            favorite_items: self.favorite_items,
            resume_items: self.resume_items,
            watch_time_seconds: self.watch_time_seconds,
            last_played_at: self.last_played_at,
            last_login_at: self.last_login_at,
            last_activity_at: self.last_activity_at,
            active_device_count: self.active_device_count,
        }
    }
}

impl UserStats {
    /// Its times are instants that `chrono` represents.
    pub open spec fn wf(self) -> bool {
        &&& (self.last_played_at matches Some(t) ==> t.valid())
        &&& (self.last_login_at matches Some(t) ==> t.valid())
        &&& (self.last_activity_at matches Some(t) ==> t.valid())
    }
}

impl UserRecentItem {
    /// Its time is an instant that `chrono` represents.
    pub open spec fn wf(self) -> bool {
        self.last_played_at matches Some(t) ==> t.valid()
    }
}

impl TopUserStat {
    /// Its time is an instant that `chrono` represents.
    pub open spec fn wf(self) -> bool {
        self.last_activity_at matches Some(t) ==> t.valid()
    }
}

/// One row of the per-user aggregate query, column by column: `None` where
/// reading the column failed; for a timestamp column, `Some(None)` where it
/// held SQL `NULL`.
#[derive(Debug, Clone)]
pub struct UserStatsRow {
    pub user_id: Option<u128>,
    pub username: Option<String>,
    pub is_admin: Option<i64>,
    pub is_disabled: Option<i64>,
    pub total_plays: Option<i64>,
    pub played_items: Option<i64>,
    pub favorite_items: Option<i64>,
    pub resume_items: Option<i64>,
    pub watch_time_seconds: Option<i64>,
    pub last_played_at: Option<Option<String>>,
    pub last_login_at: Option<Option<String>>,
    pub last_activity_at: Option<Option<String>>,
    pub active_device_count: Option<i64>,
}

/// One row of "recently played" history for a user.
#[derive(Debug, Clone, PartialEq)]
pub struct UserRecentItem {
    pub media_id: u128,
    pub title: Option<String>,
    pub kind: Option<String>,
    pub play_count: i64,
    pub playback_position: i64,
    pub favorite: bool,
    pub last_played_at: Option<Timestamp>,
}

pub struct UserRecentItemView {
    pub media_id: u128,
    pub title: Option<Seq<char>>,
    pub kind: Option<Seq<char>>,
    pub play_count: i64,
    pub playback_position: i64,
    pub favorite: bool,
    pub last_played_at: Option<Timestamp>,
}

impl View for UserRecentItem {
    type V = UserRecentItemView;

    open spec fn view(&self) -> UserRecentItemView {
        UserRecentItemView {
            media_id: self.media_id,
            title: self.title.deep_view(),
            kind: self.kind.deep_view(),
            play_count: self.play_count,
            playback_position: self.playback_position,
            favorite: self.favorite,
            last_played_at: self.last_played_at,
        }
    }
}

/// One row of the recently-played query (see `UserStatsRow` for `None`).
#[derive(Debug, Clone)]
pub struct RecentItemRow {
    pub media_id: Option<u128>,
    pub title: Option<Option<String>>,
    pub kind: Option<Option<String>>,
    pub play_count: Option<i64>,
    pub playback_position: Option<i64>,
    pub favorite: Option<bool>,
    pub last_played_at: Option<Option<String>>,
}

/// A leaderboard entry: a user and their global play count.
#[derive(Debug, Clone, PartialEq)]
pub struct TopUserStat {
    pub user_id: u128,
    pub username: String,
    pub total_plays: i64,
    pub last_activity_at: Option<Timestamp>,
}

pub struct TopUserStatView {
    pub user_id: u128,
    pub username: Seq<char>,
    pub total_plays: i64,
    pub last_activity_at: Option<Timestamp>,
}

impl View for TopUserStat {
    type V = TopUserStatView;

    open spec fn view(&self) -> TopUserStatView {
        TopUserStatView {
            user_id: self.user_id,
            username: self.username@,
            total_plays: self.total_plays,
            last_activity_at: self.last_activity_at,
        }
    }
}

/// One row of the leaderboard query (see `UserStatsRow` for `None`).
#[derive(Debug, Clone)]
pub struct TopUserRow {
    pub user_id: Option<u128>,
    pub username: Option<String>,
    pub total_plays: Option<i64>,
    pub last_activity_at: Option<Option<String>>,
}

/// The single row of the dashboard totals query (see `UserStatsRow` for `None`).
#[derive(Debug, Clone, Copy, PartialEq, Eq)]
pub struct OverviewTotalsRow {
    pub total_users: Option<i64>,
    pub admin_users: Option<i64>,
    pub disabled_users: Option<i64>,
    pub active_24h: Option<i64>,
    pub active_7d: Option<i64>,
    pub total_plays: Option<i64>,
}

/// Dashboard-wide user statistics, shown as the dashboard widget.
#[derive(Debug, Clone, PartialEq)]
pub struct UsersOverviewStats {
    pub total_users: i64,
    pub admin_users: i64,
    pub disabled_users: i64,
    pub active_24h: i64,
    pub active_7d: i64,
    pub total_plays: i64,
    pub top_users: Vec<TopUserStat>,
}

pub struct UsersOverviewStatsView {
    pub total_users: i64,
    pub admin_users: i64,
    pub disabled_users: i64,
    pub active_24h: i64,
    pub active_7d: i64,
    pub total_plays: i64,
    pub top_users: Seq<TopUserStatView>,
}

impl View for UsersOverviewStats {
    type V = UsersOverviewStatsView;

    open spec fn view(&self) -> UsersOverviewStatsView {
        UsersOverviewStatsView {
            total_users: self.total_users,
            admin_users: self.admin_users,
            disabled_users: self.disabled_users,
            active_24h: self.active_24h,
            active_7d: self.active_7d,
            total_plays: self.total_plays,
            top_users: self.top_users@.map_values(|t: TopUserStat| t@),
        }
    }
}

/// The user statistics service.
pub struct UserService;

/// A number column, or 0 where it could not be read.
pub open spec fn count_or_zero(c: Option<i64>) -> i64 {
    match c {
        Some(v) => v,
        None => 0,
    }
}

/// A flag stored as an integer: set when it could be read and is not 0.
pub open spec fn flag_of(c: Option<i64>) -> bool {
    match c {
        Some(v) => v != 0,
        None => false,
    }
}

/// A text column, or the empty string where it could not be read.
pub open spec fn text_or_empty(c: Option<String>) -> Seq<char> {
    match c {
        Some(s) => s@,
        None => seq![],
    }
}

/// A nullable text column: its text where it could be read and was not `NULL`.
pub open spec fn nullable_text(c: Option<Option<String>>) -> Option<Seq<char>> {
    match c {
        Some(Some(s)) => Some(s@),
        _ => None,
    }
}

/// A nullable timestamp column: the instant `chrono` reads from its text, if any.
pub open spec fn instant_column(c: Option<Option<String>>) -> Option<Timestamp> {
    match c {
        Some(Some(s)) => instant_of(chrono_utc_instant(s@)),
        _ => None,
    }
}

pub open spec fn stats_of_row(user_id: u128, row: UserStatsRow) -> UserStatsView {
    UserStatsView {
        user_id: match row.user_id {
            Some(id) => id,
            None => user_id,
        },
        username: text_or_empty(row.username),
        is_admin: flag_of(row.is_admin),
        is_disabled: flag_of(row.is_disabled),
        total_plays: count_or_zero(row.total_plays),
        played_items: count_or_zero(row.played_items),
        favorite_items: count_or_zero(row.favorite_items),
        resume_items: count_or_zero(row.resume_items),
        watch_time_seconds: count_or_zero(row.watch_time_seconds),
        last_played_at: instant_column(row.last_played_at),
        last_login_at: instant_column(row.last_login_at),
        last_activity_at: instant_column(row.last_activity_at),
        active_device_count: count_or_zero(row.active_device_count),
    }
}

pub open spec fn recent_item_of_row(row: RecentItemRow) -> UserRecentItemView {
    UserRecentItemView {
        media_id: match row.media_id {
            Some(id) => id,
            None => 0,
        },
        title: nullable_text(row.title),
        kind: nullable_text(row.kind),
        play_count: count_or_zero(row.play_count),
        playback_position: count_or_zero(row.playback_position),
        favorite: match row.favorite {
            Some(f) => f,
            None => false,
        },
        last_played_at: instant_column(row.last_played_at),
    }
}

pub open spec fn top_user_of_row(row: TopUserRow) -> TopUserStatView {
    TopUserStatView {
        user_id: match row.user_id {
            Some(id) => id,
            None => 0,
        },
        username: text_or_empty(row.username),
        total_plays: count_or_zero(row.total_plays),
        last_activity_at: instant_column(row.last_activity_at),
    }
}

fn read_count(c: Option<i64>) -> (res: i64)
    ensures
        res == count_or_zero(c),
{
    match c {
        Some(v) => v,
        None => 0,
    }
}

fn read_flag(c: Option<i64>) -> (res: bool)
    ensures
        res == flag_of(c),
{
    match c {
        Some(v) => v != 0,
        None => false,
    }
}

fn read_text(c: Option<String>) -> (res: String)
    ensures
        res@ == text_or_empty(c),
{
    match c {
        Some(s) => s,
        None => String::new(),
    }
}

fn read_nullable_text(c: Option<Option<String>>) -> (res: Option<String>)
    ensures
        res.deep_view() == nullable_text(c),
{
    match c {
        Some(Some(s)) => Some(s),
        _ => None,
    }
}

fn read_instant(c: &Option<Option<String>>) -> (res: Option<Timestamp>)
    ensures
        res == instant_column(*c),
        res matches Some(t) ==> t.valid(),
{
    match c {
        Some(Some(s)) => chrono_parse_utc(s.as_str()),
        _ => None,
    }
}

impl UserService {
    /// The user statistics for `user_id` from a row of the aggregate query: a
    /// column that cannot be read gives the requested id, an empty name,
    /// `false`, 0 or no time; a flag is set when its integer is not 0.
    pub fn stats_from_row(user_id: u128, row: UserStatsRow) -> (res: UserStats)
        ensures
            res@ == stats_of_row(user_id, row),
            res.wf(),
    {
        let last_played_at = read_instant(&row.last_played_at);
        let last_login_at = read_instant(&row.last_login_at);
        let last_activity_at = read_instant(&row.last_activity_at);
        UserStats {
            user_id: match row.user_id {
                Some(id) => id,
                None => user_id,
            },
            username: read_text(row.username),
            is_admin: read_flag(row.is_admin),
            is_disabled: read_flag(row.is_disabled),
            total_plays: read_count(row.total_plays),
            played_items: read_count(row.played_items),
            favorite_items: read_count(row.favorite_items),
            resume_items: read_count(row.resume_items),
            watch_time_seconds: read_count(row.watch_time_seconds),
            last_played_at,
            last_login_at,
            last_activity_at,
            active_device_count: read_count(row.active_device_count),
        }
    }

    /// A recently-played item from a row of its query: a column that cannot be
    /// read gives the nil id, no title or kind, 0, `false` or no time.
    pub fn recent_item_from_row(row: RecentItemRow) -> (res: UserRecentItem)
        ensures
            res@ == recent_item_of_row(row),
            res.wf(),
    {
        let last_played_at = read_instant(&row.last_played_at);
        UserRecentItem {
            media_id: match row.media_id {
                Some(id) => id,
                None => 0,
            },
            title: read_nullable_text(row.title),
            kind: read_nullable_text(row.kind),
            play_count: read_count(row.play_count),
            playback_position: read_count(row.playback_position),
            favorite: match row.favorite {
                Some(f) => f,
                None => false,
            },
            last_played_at,
        }
    }

    /// The recently-played items of the query's rows, in the rows' order
    /// (which the query makes newest first).
    pub fn recent_items_from_rows(rows: Vec<RecentItemRow>) -> (res: Vec<UserRecentItem>)
        ensures
            res.len() == rows.len(),
            forall|i: int| 0 <= i < rows.len() ==> #[trigger] res@[i]@ == recent_item_of_row(rows@[i]),
            forall|i: int| 0 <= i < res.len() ==> #[trigger] res@[i].wf(),
    {
        let ghost rows_seq = rows@;
        let mut res: Vec<UserRecentItem> = Vec::new();
        for row in it: rows.into_iter()
            invariant
                it.seq() == rows_seq,
                res.len() == it.index(),
                forall|j: int| 0 <= j < res.len() ==> #[trigger] res@[j]@ == recent_item_of_row(rows_seq[j]),
                forall|j: int| 0 <= j < res.len() ==> #[trigger] res@[j].wf(),
        {
            res.push(UserService::recent_item_from_row(row));
        }
        res
    }

    /// A leaderboard entry from a row of its query: a column that cannot be
    /// read gives the nil id, an empty name, 0 or no time.
    pub fn top_user_from_row(row: TopUserRow) -> (res: TopUserStat)
        ensures
            res@ == top_user_of_row(row),
            res.wf(),
    {
        let last_activity_at = read_instant(&row.last_activity_at);
        TopUserStat {
            user_id: match row.user_id {
                Some(id) => id,
                None => 0,
            },
            username: read_text(row.username),
            total_plays: read_count(row.total_plays),
            last_activity_at,
        }
    }

    /// The dashboard statistics from the totals row and the leaderboard rows:
    /// each total that cannot be read is 0, and the leaderboard keeps the
    /// rows' order (the query's: most plays first, then by name).
    pub fn overview_from_rows(totals: OverviewTotalsRow, top: Vec<TopUserRow>) -> (res:
        UsersOverviewStats)
        ensures
            res.total_users == count_or_zero(totals.total_users),
            res.admin_users == count_or_zero(totals.admin_users),
            res.disabled_users == count_or_zero(totals.disabled_users),
            res.active_24h == count_or_zero(totals.active_24h),
            res.active_7d == count_or_zero(totals.active_7d),
            res.total_plays == count_or_zero(totals.total_plays),
            res.top_users.len() == top.len(),
            forall|i: int| 0 <= i < top.len() ==> #[trigger] res.top_users@[i]@ == top_user_of_row(top@[i]),
            forall|i: int| 0 <= i < res.top_users.len() ==> #[trigger] res.top_users@[i].wf(),
    {
        let ghost rows_seq = top@;
        let mut top_users: Vec<TopUserStat> = Vec::new();
        for row in it: top.into_iter()
            invariant
                it.seq() == rows_seq,
                top_users.len() == it.index(),
                forall|j: int| 0 <= j < top_users.len() ==> #[trigger] top_users@[j]@ == top_user_of_row(rows_seq[j]),
                forall|j: int| 0 <= j < top_users.len() ==> #[trigger] top_users@[j].wf(),
        {
            top_users.push(UserService::top_user_from_row(row));
        }
        UsersOverviewStats {
            total_users: read_count(totals.total_users),
            admin_users: read_count(totals.admin_users),
            disabled_users: read_count(totals.disabled_users),
            active_24h: read_count(totals.active_24h),
            active_7d: read_count(totals.active_7d),
            total_plays: read_count(totals.total_plays),
            top_users,
        }
    }

    /// The instant from which a device counts as active: 16 minutes before
    /// `now`; `None` where `chrono` cannot go that far back.
    pub fn active_window_start(now: Timestamp) -> (res: Option<Timestamp>)
        requires
            now.valid(),
        ensures
            res == instant_of(chrono_minus_seconds(now.secs, now.nanos, (ACTIVE_WINDOW_MINUTES * 60) as i64)),
            res matches Some(t) ==> t.valid(),
            res matches Some(t) ==> (now.is_regular() ==> t.secs == now.secs - ACTIVE_WINDOW_MINUTES * 60 && t.nanos == now.nanos),
    {
        chrono_checked_sub_seconds(now, ACTIVE_WINDOW_MINUTES * 60)
    }

    /// The start of the "active in the last 24 hours" window before `now`.
    pub fn day_window_start(now: Timestamp) -> (res: Option<Timestamp>)
        requires
            now.valid(),
        ensures
            res == instant_of(chrono_minus_seconds(now.secs, now.nanos, 86400i64)),
            res matches Some(t) ==> t.valid(),
            res matches Some(t) ==> (now.is_regular() ==> t.secs == now.secs - 86400 && t.nanos == now.nanos),
    {
        chrono_checked_sub_seconds(now, 24 * 3600)
    }

    /// The start of the "active in the last 7 days" window before `now`.
    pub fn week_window_start(now: Timestamp) -> (res: Option<Timestamp>)
        requires
            now.valid(),
        ensures
            res == instant_of(chrono_minus_seconds(now.secs, now.nanos, 604800i64)),
            res matches Some(t) ==> t.valid(),
            res matches Some(t) ==> (now.is_regular() ==> t.secs == now.secs - 604800 && t.nanos == now.nanos),
    {
        chrono_checked_sub_seconds(now, 7 * 24 * 3600)
    }
}

impl Default for UserStats {
    /// The nil id, an empty name, no flags, zero counts and no times.
    fn default() -> (res: UserStats)
        ensures
            res.user_id == 0,
            res.username@ == Seq::<char>::empty(),
            !res.is_admin,
            !res.is_disabled,
            res.total_plays == 0,
            res.played_items == 0,
            res.favorite_items == 0,
            res.resume_items == 0,
            res.watch_time_seconds == 0,
            res.last_played_at is None,
            res.last_login_at is None,
            res.last_activity_at is None,
            res.active_device_count == 0,
    {
        UserStats {
            user_id: 0,
            username: String::new(),
            is_admin: false,
            is_disabled: false,
            total_plays: 0,
            played_items: 0,
            favorite_items: 0,
            resume_items: 0,
            watch_time_seconds: 0,
            last_played_at: None,
            last_login_at: None,
            last_activity_at: None,
            active_device_count: 0,
        }
    }
}

impl Default for UserRecentItem {
    /// The nil id, no title or kind, zero counts, not a favorite, no time.
    fn default() -> (res: UserRecentItem)
        ensures
            res.media_id == 0,
            res.title is None,
            res.kind is None,
            res.play_count == 0,
            res.playback_position == 0,
            !res.favorite,
            res.last_played_at is None,
    {
        UserRecentItem {
            media_id: 0,
            title: None,
            kind: None,
            play_count: 0,
            playback_position: 0,
            favorite: false,
            last_played_at: None,
        }
    }
}

impl Default for TopUserStat {
    /// The nil id, an empty name, no plays and no time.
    fn default() -> (res: TopUserStat)
        ensures
            res.user_id == 0,
            res.username@ == Seq::<char>::empty(),
            res.total_plays == 0,
            res.last_activity_at is None,
    {
        TopUserStat { user_id: 0, username: String::new(), total_plays: 0, last_activity_at: None }
    }
}

impl Default for UsersOverviewStats {
    /// Zero totals and an empty leaderboard.
    fn default() -> (res: UsersOverviewStats)
        ensures
            res.total_users == 0,
            res.admin_users == 0,
            res.disabled_users == 0,
            res.active_24h == 0,
            res.active_7d == 0,
            res.total_plays == 0,
            res.top_users.len() == 0,
    {
        UsersOverviewStats {
            total_users: 0,
            admin_users: 0,
            disabled_users: 0,
            active_24h: 0,
            active_7d: 0,
            total_plays: 0,
            top_users: Vec::new(),
        }
    }
}

/// The per-user aggregate: name, flags, play counts, watch time, last
/// played/login/activity times, and the devices active since the bound
/// instant, for the user with the bound id.
pub const USER_STATS_SQL: &'static str = r#"
    SELECT
        u.id                                        AS user_id,
        u.username                                  AS username,
        u.is_admin                                  AS is_admin,
        COALESCE(json_extract(u.policy, '$.IsDisabled'), 0) AS is_disabled,
        COALESCE(SUM(s.play_count), 0)              AS total_plays,
        COUNT(CASE WHEN s.play_count > 0 THEN 1 END) AS played_items,
        COUNT(CASE WHEN s.favorite   = 1 THEN 1 END) AS favorite_items,
        COUNT(CASE WHEN s.playback_position > 0 THEN 1 END) AS resume_items,
        COALESCE(SUM(s.playback_position), 0)       AS watch_time_seconds,
        MAX(s.last_played_at)                       AS last_played_at,
        u.last_login_at                             AS last_login_at,
        u.last_activity_at                          AS last_activity_at,
        COALESCE((
            SELECT COUNT(*) FROM devices d
            WHERE d.user_id = u.id AND d.last_activity_at >= ?
        ), 0)                                        AS active_device_count
    FROM users u
    LEFT JOIN user_media_state s ON s.user_id = u.id
    WHERE u.id = ?
    GROUP BY u.id
"#;

/// A user's played items, newest first, at most the bound number.
pub const RECENT_ITEMS_SQL: &'static str = r#"
    SELECT s.media_id, m.title, m.kind,
           s.play_count, s.playback_position, s.favorite, s.last_played_at
    FROM user_media_state s
    LEFT JOIN media m ON m.id = s.media_id
    WHERE s.user_id = ? AND s.last_played_at IS NOT NULL
    ORDER BY s.last_played_at DESC
    LIMIT ?
"#;

/// The dashboard totals: all users, admins, disabled users, users active
/// since each of the two bound instants, and all plays.
pub const TOTALS_SQL: &'static str = r#"
    SELECT
        COUNT(*)                                                                 AS total_users,
        COUNT(CASE WHEN is_admin = 1 THEN 1 END)                                 AS admin_users,
        COUNT(CASE WHEN json_extract(policy, '$.IsDisabled') = 1 THEN 1 END)     AS disabled_users,
        COUNT(CASE WHEN last_activity_at >= ?1 THEN 1 END)                       AS active_24h,
        COUNT(CASE WHEN last_activity_at >= ?2 THEN 1 END)                       AS active_7d,
        (SELECT COALESCE(SUM(play_count), 0) FROM user_media_state)              AS total_plays
    FROM users
"#;

/// The leaderboard: users by total plays, most first, then by name, at most
/// the bound number.
pub const TOP_USERS_SQL: &'static str = r#"
    SELECT u.id AS user_id, u.username, COALESCE(SUM(s.play_count), 0) AS total_plays,
           u.last_activity_at
    FROM users u
    LEFT JOIN user_media_state s ON s.user_id = u.id
    GROUP BY u.id
    ORDER BY total_plays DESC, u.username ASC
    LIMIT ?
"#;

impl UserService {
    /// The aggregate query for `user_id`, counting devices active since `since`.
    pub fn user_stats_query(since: Timestamp, user_id: u128) -> (res: SqlQuery)
        ensures
            res.sql@ == USER_STATS_SQL@,
            args_view(res.args@) == seq![SqlArgView::Instant(since), SqlArgView::Uuid(user_id)],
    {
        let mut args: Vec<SqlArg> = Vec::new();
        args.push(SqlArg::Instant(since));
        args.push(SqlArg::Uuid(user_id));
        assert(args_view(args@) =~= seq![SqlArgView::Instant(since), SqlArgView::Uuid(user_id)]);
        SqlQuery { sql: String::from_str(USER_STATS_SQL), args }
    }

    /// The query for at most `limit` of `user_id`'s played items, newest first.
    pub fn recent_items_query(user_id: u128, limit: u32) -> (res: SqlQuery)
        ensures
            res.sql@ == RECENT_ITEMS_SQL@,
            args_view(res.args@) == seq![SqlArgView::Uuid(user_id), SqlArgView::Int(limit)],
    {
        let mut args: Vec<SqlArg> = Vec::new();
        args.push(SqlArg::Uuid(user_id));
        args.push(SqlArg::Int(limit));
        assert(args_view(args@) =~= seq![SqlArgView::Uuid(user_id), SqlArgView::Int(limit)]);
        SqlQuery { sql: String::from_str(RECENT_ITEMS_SQL), args }
    }

    /// The totals query, counting users active since `day_start` and since
    /// `week_start`.
    pub fn totals_query(day_start: Timestamp, week_start: Timestamp) -> (res: SqlQuery)
        ensures
            res.sql@ == TOTALS_SQL@,
            args_view(res.args@) == seq![SqlArgView::Instant(day_start), SqlArgView::Instant(week_start)],
    {
        let mut args: Vec<SqlArg> = Vec::new();
        args.push(SqlArg::Instant(day_start));
        args.push(SqlArg::Instant(week_start));
        assert(args_view(args@) =~= seq![SqlArgView::Instant(day_start), SqlArgView::Instant(week_start)]);
        SqlQuery { sql: String::from_str(TOTALS_SQL), args }
    }

    /// The leaderboard query for at most `top_n` users.
    pub fn top_users_query(top_n: u32) -> (res: SqlQuery)
        ensures
            res.sql@ == TOP_USERS_SQL@,
            args_view(res.args@) == seq![SqlArgView::Int(top_n)],
    {
        let mut args: Vec<SqlArg> = Vec::new();
        args.push(SqlArg::Int(top_n));
        assert(args_view(args@) =~= seq![SqlArgView::Int(top_n)]);
        SqlQuery { sql: String::from_str(TOP_USERS_SQL), args }
    }
}

/// Each field of a user's statistics comes from its own column of the
/// aggregate row: a count read as `n` is `n` and an unreadable one is 0; a
/// flag is set exactly when its column reads as a non-zero integer; the name
/// is the column's text, or empty; the id is the row's, or the requested one
/// where the row's cannot be read; each time is the one chrono reads from its
/// column's text.
pub proof fn lemma_stats_fields_come_from_their_columns(user_id: u128, row: UserStatsRow)
    ensures
        ({
            let s = stats_of_row(user_id, row);
            &&& row.user_id matches Some(id) ==> s.user_id == id
            &&& row.user_id is None ==> s.user_id == user_id
            &&& row.username matches Some(t) ==> s.username == t@
            &&& row.username is None ==> s.username == Seq::<char>::empty()
            &&& s.is_admin == (row.is_admin matches Some(v) && v != 0)
            &&& s.is_disabled == (row.is_disabled matches Some(v) && v != 0)
            &&& row.total_plays matches Some(n) ==> s.total_plays == n
            &&& row.total_plays is None ==> s.total_plays == 0
            &&& row.played_items matches Some(n) ==> s.played_items == n
            &&& row.played_items is None ==> s.played_items == 0
            &&& row.favorite_items matches Some(n) ==> s.favorite_items == n
            &&& row.favorite_items is None ==> s.favorite_items == 0
            &&& row.resume_items matches Some(n) ==> s.resume_items == n
            &&& row.resume_items is None ==> s.resume_items == 0
            &&& row.watch_time_seconds matches Some(n) ==> s.watch_time_seconds == n
            &&& row.watch_time_seconds is None ==> s.watch_time_seconds == 0
            &&& row.active_device_count matches Some(n) ==> s.active_device_count == n
            &&& row.active_device_count is None ==> s.active_device_count == 0
            &&& row.last_played_at matches Some(Some(t)) ==> s.last_played_at == instant_of(chrono_utc_instant(t@))
            &&& !(row.last_played_at matches Some(Some(_))) ==> s.last_played_at is None
            &&& row.last_login_at matches Some(Some(t)) ==> s.last_login_at == instant_of(chrono_utc_instant(t@))
            &&& !(row.last_login_at matches Some(Some(_))) ==> s.last_login_at is None
            &&& row.last_activity_at matches Some(Some(t)) ==> s.last_activity_at == instant_of(chrono_utc_instant(t@))
            &&& !(row.last_activity_at matches Some(Some(_))) ==> s.last_activity_at is None
        }),
{
}

/// Each field of a recently played item comes from its own column: counts
/// read as `n` are `n` (0 when unreadable), the favourite flag is the
/// column's (false when unreadable), the title and kind are their texts
/// (none when `NULL` or unreadable), the id is the row's (0 when unreadable).
pub proof fn lemma_recent_item_fields_come_from_their_columns(row: RecentItemRow)
    ensures
        ({
            let r = recent_item_of_row(row);
            &&& row.media_id matches Some(id) ==> r.media_id == id
            &&& row.media_id is None ==> r.media_id == 0
            &&& row.title matches Some(Some(t)) ==> r.title == Some(t@)
            &&& !(row.title matches Some(Some(_))) ==> r.title is None
            &&& row.kind matches Some(Some(t)) ==> r.kind == Some(t@)
            &&& !(row.kind matches Some(Some(_))) ==> r.kind is None
            &&& row.play_count matches Some(n) ==> r.play_count == n
            &&& row.play_count is None ==> r.play_count == 0
            &&& row.playback_position matches Some(n) ==> r.playback_position == n
            &&& row.playback_position is None ==> r.playback_position == 0
            &&& r.favorite == (row.favorite == Some(true))
            &&& row.last_played_at matches Some(Some(t)) ==> r.last_played_at == instant_of(chrono_utc_instant(t@))
            &&& !(row.last_played_at matches Some(Some(_))) ==> r.last_played_at is None
        }),
{
}

/// Each field of a leaderboard entry comes from its own column.
pub proof fn lemma_top_user_fields_come_from_their_columns(row: TopUserRow)
    ensures
        ({
            let u = top_user_of_row(row);
            &&& row.user_id matches Some(id) ==> u.user_id == id
            &&& row.user_id is None ==> u.user_id == 0
            &&& row.username matches Some(t) ==> u.username == t@
            &&& row.username is None ==> u.username == Seq::<char>::empty()
            &&& row.total_plays matches Some(n) ==> u.total_plays == n
            &&& row.total_plays is None ==> u.total_plays == 0
            &&& row.last_activity_at matches Some(Some(t)) ==> u.last_activity_at == instant_of(chrono_utc_instant(t@))
            &&& !(row.last_activity_at matches Some(Some(_))) ==> u.last_activity_at is None
        }),
{
}

} // verus!
