use remux::activity::{date_bound, ActivityLog, ActivityLogEntry, ActivityLogFilter, FilterResult, SqlArg, ACTIVITY_CARD_LIMIT};
use remux::stats::{
    OverviewTotalsRow, RecentItemRow, TopUserRow, UserService, UserStatsRow,
};
use remux::time::Timestamp;

fn empty_stats_row() -> UserStatsRow {
    UserStatsRow {
        user_id: None,
        username: None,
        is_admin: None,
        is_disabled: None,
        total_plays: None,
        played_items: None,
        favorite_items: None,
        resume_items: None,
        watch_time_seconds: None,
        last_played_at: None,
        last_login_at: None,
        last_activity_at: None,
        active_device_count: None,
    }
}

#[test]
fn stats_row_with_nothing_readable_gives_defaults() {
    let s = UserService::stats_from_row(42, empty_stats_row());
    assert_eq!(s.user_id, 42);
    assert_eq!(s.username, "");
    assert!(!s.is_admin && !s.is_disabled);
    assert_eq!(
        (s.total_plays, s.played_items, s.favorite_items, s.resume_items, s.watch_time_seconds, s.active_device_count),
        (0, 0, 0, 0, 0, 0)
    );
    assert_eq!((s.last_played_at, s.last_login_at, s.last_activity_at), (None, None, None));
}

#[test]
fn stats_row_values_are_taken() {
    let row = UserStatsRow {
        user_id: Some(7),
        username: Some("alice".to_string()),
        is_admin: Some(1),
        is_disabled: Some(0),
        total_plays: Some(12),
        played_items: Some(3),
        favorite_items: Some(2),
        resume_items: Some(1),
        watch_time_seconds: Some(3_600),
        last_played_at: Some(Some("2026-01-02T10:00:00Z".to_string())),
        last_login_at: Some(Some("2026-01-02 10:00:00+00:00".to_string())),
        last_activity_at: Some(Some("not a time".to_string())),
        active_device_count: Some(2),
    };
    let s = UserService::stats_from_row(42, row);
    assert_eq!(s.user_id, 7);
    assert_eq!(s.username, "alice");
    assert!(s.is_admin);
    assert!(!s.is_disabled);
    assert_eq!(s.total_plays, 12);
    assert_eq!(s.watch_time_seconds, 3_600);
    assert_eq!(s.last_played_at, Timestamp::new(1_767_348_000, 0));
    assert_eq!(s.last_login_at, Timestamp::new(1_767_348_000, 0));
    assert_eq!(s.last_activity_at, None);
    assert_eq!(s.active_device_count, 2);
}

#[test]
fn flag_is_set_by_any_nonzero_integer() {
    let mut row = empty_stats_row();
    row.is_disabled = Some(-3);
    assert!(UserService::stats_from_row(1, row).is_disabled);
}

fn recent_row(id: u128, title: Option<&str>, at: &str) -> RecentItemRow {
    RecentItemRow {
        media_id: Some(id),
        title: Some(title.map(|t| t.to_string())),
        kind: Some(Some("movie".to_string())),
        play_count: Some(1),
        playback_position: None,
        favorite: None,
        last_played_at: Some(Some(at.to_string())),
    }
}

#[test]
fn recent_items_keep_the_rows_order() {
    let rows = vec![
        recent_row(2, Some("B"), "2026-01-02T10:00:00Z"),
        recent_row(1, Some("A"), "2026-01-01T10:00:00Z"),
    ];
    let items = UserService::recent_items_from_rows(rows);
    assert_eq!(items.len(), 2);
    assert_eq!(items[0].title.as_deref(), Some("B"));
    assert_eq!(items[1].title.as_deref(), Some("A"));
    assert_eq!(items[0].kind.as_deref(), Some("movie"));
    assert_eq!(items[0].playback_position, 0);
    assert!(!items[0].favorite);
    assert_eq!(items[1].last_played_at, Timestamp::new(1_767_261_600, 0));
}

#[test]
fn recent_item_with_null_title_has_none() {
    let mut row = recent_row(5, None, "bad");
    row.media_id = None;
    let item = UserService::recent_item_from_row(row);
    assert_eq!(item.media_id, 0);
    assert_eq!(item.title, None);
    assert_eq!(item.last_played_at, None);
}

#[test]
fn overview_maps_totals_and_leaderboard() {
    let totals = OverviewTotalsRow {
        total_users: Some(5),
        admin_users: Some(1),
        disabled_users: None,
        active_24h: Some(2),
        active_7d: Some(4),
        total_plays: Some(99),
    };
    let top = vec![
        TopUserRow { user_id: Some(1), username: Some("zed".into()), total_plays: Some(50), last_activity_at: Some(None) },
        TopUserRow { user_id: None, username: None, total_plays: None, last_activity_at: None },
    ];
    let o = UserService::overview_from_rows(totals, top);
    assert_eq!((o.total_users, o.admin_users, o.disabled_users, o.active_24h, o.active_7d, o.total_plays), (5, 1, 0, 2, 4, 99));
    assert_eq!(o.top_users.len(), 2);
    assert_eq!(o.top_users[0].username, "zed");
    assert_eq!(o.top_users[0].total_plays, 50);
    assert_eq!(o.top_users[1].user_id, 0);
    assert_eq!(o.top_users[1].username, "");
}

#[test]
fn time_windows_reach_back() {
    let now = Timestamp::new(1_767_348_000, 123).unwrap();
    assert_eq!(UserService::active_window_start(now), Timestamp::new(1_767_348_000 - 960, 123));
    assert_eq!(UserService::day_window_start(now), Timestamp::new(1_767_348_000 - 86_400, 123));
    assert_eq!(UserService::week_window_start(now), Timestamp::new(1_767_348_000 - 604_800, 123));
    let earliest = Timestamp::new(-8_334_601_228_800, 0).unwrap();
    assert_eq!(UserService::active_window_start(earliest), None);
}

#[test]
fn filter_queries_without_conditions() {
    let f = ActivityLogFilter::default();
    let c = f.count_query();
    assert_eq!(c.sql, "SELECT COUNT(*) FROM activity_log WHERE 1=1");
    assert!(c.args.is_empty());
    let r = f.records_query();
    assert_eq!(r.sql, "SELECT * FROM activity_log WHERE 1=1 ORDER BY id DESC");
    assert!(r.args.is_empty());
}

#[test]
fn filter_queries_with_every_condition() {
    let f = ActivityLogFilter {
        user_id: Some(9),
        log_type: Some("Login".into()),
        since: Some("2026-01-01T00:00:00Z".into()),
        limit: Some(20),
        offset: Some(40),
        total_count: true,
    };
    let c = f.count_query();
    assert_eq!(
        c.sql,
        "SELECT COUNT(*) FROM activity_log WHERE 1=1 AND user_id = ? AND log_type = ? AND date >= ?"
    );
    let conditions = vec![
        SqlArg::Uuid(9),
        SqlArg::Text("Login".into()),
        SqlArg::Text("2026-01-01T00:00:00Z".into()),
    ];
    assert_eq!(c.args, conditions);
    let r = f.records_query();
    assert_eq!(
        r.sql,
        "SELECT * FROM activity_log WHERE 1=1 AND user_id = ? AND log_type = ? AND date >= ? ORDER BY id DESC LIMIT ? OFFSET ?"
    );
    let mut all = conditions.clone();
    all.push(SqlArg::Int(20));
    all.push(SqlArg::Int(40));
    assert_eq!(r.args, all);
}

#[test]
fn filter_query_with_offset_only() {
    let f = ActivityLogFilter { log_type: Some("Auth".into()), offset: Some(5), ..ActivityLogFilter::default() };
    let r = f.records_query();
    assert_eq!(r.sql, "SELECT * FROM activity_log WHERE 1=1 AND log_type = ? ORDER BY id DESC LIMIT -1 OFFSET ?");
    assert_eq!(r.args, vec![SqlArg::Text("Auth".into()), SqlArg::Int(5)]);
}

#[test]
fn activity_card_asks_for_two_hundred() {
    let f = ActivityLogFilter::activity_card();
    assert_eq!(f.limit, Some(ACTIVITY_CARD_LIMIT));
    assert_eq!(ACTIVITY_CARD_LIMIT, 200);
    assert_eq!(f.user_id, None);
    assert!(!f.total_count);
}

#[test]
fn insert_binds_info_severity() {
    let e = ActivityLogEntry {
        log_type: "AuthenticationFailed".into(),
        name: "Login failed".into(),
        user_id: None,
        ip_address: Some("10.0.0.1".into()),
        ..ActivityLogEntry::default()
    };
    assert_eq!(
        e.insert_args(),
        vec![
            SqlArg::Text("AuthenticationFailed".into()),
            SqlArg::Text("Login failed".into()),
            SqlArg::NullableText(None),
            SqlArg::NullableUuid(None),
            SqlArg::Text("Info".into()),
            SqlArg::NullableText(Some("10.0.0.1".into())),
            SqlArg::NullableText(None),
            SqlArg::NullableText(None),
        ]
    );
}

fn log(id: i64) -> ActivityLog {
    ActivityLog {
        id,
        log_type: "t".into(),
        name: "n".into(),
        short_overview: None,
        user_id: None,
        date: "2026-01-01T00:00:00Z".into(),
        severity: "Info".into(),
        ip_address: None,
        device_id: None,
        client: None,
    }
}

#[test]
fn combine_reports_count_only_when_asked() {
    let mut f = ActivityLogFilter::default();
    let r: Result<FilterResult<ActivityLog>, String> =
        FilterResult::combine(&f, Err("count failed".to_string()), Ok(vec![log(2), log(1)]));
    let r = r.unwrap();
    assert_eq!(r.total_count, 0);
    assert_eq!(r.records.len(), 2);
    f.total_count = true;
    let r: Result<FilterResult<ActivityLog>, String> = FilterResult::combine(&f, Ok(17), Ok(vec![log(3)]));
    assert_eq!(r.unwrap().total_count, 17);
    let r: Result<FilterResult<ActivityLog>, String> =
        FilterResult::combine(&f, Err("count failed".to_string()), Ok(vec![log(3)]));
    assert_eq!(r.unwrap_err(), "count failed");
    let r: Result<FilterResult<ActivityLog>, String> =
        FilterResult::combine(&f, Err("count failed".to_string()), Err("records failed".to_string()));
    assert_eq!(r.unwrap_err(), "records failed");
}

#[test]
fn since_is_compared_as_a_utc_second() {
    assert_eq!(date_bound("2026-01-01T12:00:00+02:00"), "2026-01-01T10:00:00Z");
    assert_eq!(date_bound("2026-01-01T10:00:00Z"), "2026-01-01T10:00:00Z");
    assert_eq!(date_bound("2026-01-01T10:00:00.250Z"), "2026-01-01T10:00:01Z");
    assert_eq!(date_bound("2026-01-01"), "2026-01-01");
    // the row at 11:00Z is at or after 12:00+02:00 (10:00Z)
    assert!("2026-01-01T11:00:00Z" >= date_bound("2026-01-01T12:00:00+02:00").as_str());
    let f = ActivityLogFilter { since: Some("2026-01-01T12:00:00+02:00".into()), ..ActivityLogFilter::default() };
    assert_eq!(f.count_query().args, vec![SqlArg::Text("2026-01-01T10:00:00Z".into())]);
}

#[test]
fn limit_alone_has_no_offset() {
    let f = ActivityLogFilter { limit: Some(3), ..ActivityLogFilter::default() };
    let r = f.records_query();
    assert_eq!(r.sql, "SELECT * FROM activity_log WHERE 1=1 ORDER BY id DESC LIMIT ?");
    assert_eq!(r.args, vec![SqlArg::Int(3)]);
}
