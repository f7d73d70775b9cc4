use remux::activity::{
    ActivityLog, ActivityLogEntry, ActivityLogFilter, SqlArg, ACTIVITY_CARD_LIMIT, INSERT_ACTIVITY_SQL,
};
use remux::pages::{
    delete_request, toggle_request, ActivityCard, ActivityCardView, ActivityRow, Loadable, PanelView,
    ServerRequest, UserDetailPage, UsersCard, UsersEvent, UsersPage,
};
use remux::stats::{UserService, UserStats, UsersOverviewStats, RECENT_ITEMS_SQL, TOP_USERS_SQL, TOTALS_SQL, USER_STATS_SQL};
use remux::time::Timestamp;
use remux::users::{UserDto, UserFormMode, UserPolicy};

const ALICE: u128 = 0x67e5504410b1426f9247bb680e5fe0c8;
const ALICE_TEXT: &str = "67e55044-10b1-426f-9247-bb680e5fe0c8";
const BOB: u128 = 0x0123456789abcdef0123456789abcdef;

fn policy(disabled: bool) -> UserPolicy {
    UserPolicy {
        is_administrator: false,
        is_disabled: disabled,
        enable_remote_search: true,
        max_active_sessions: 3,
        enable_video_playback_transcoding: true,
        max_parental_rating: Some(12),
        blocked_tags: vec!["horror".to_string()],
        filter_rules: None,
        stream_filter: None,
    }
}

fn user(id: u128, name: &str, disabled: bool) -> UserDto {
    UserDto {
        id,
        name: name.to_string(),
        primary_image_tag: None,
        last_login_date: None,
        last_activity_date: None,
        policy: policy(disabled),
    }
}

fn loaded_page() -> UsersPage {
    let (page, _) = UsersPage::open(ALICE_TEXT.to_string());
    let (page, _) = page.step(UsersEvent::UsersLoaded(Ok(vec![user(ALICE, "alice", false), user(BOB, "bob", false)])));
    page
}

#[test]
fn toggle_request_flips_only_the_disabled_flag() {
    let u = user(BOB, "bob", false);
    let expected = ServerRequest::UpdateUserPolicy { user_id: BOB, policy: policy(true) };
    assert_eq!(toggle_request(&u), expected);
    let d = user(BOB, "bob", true);
    assert_eq!(toggle_request(&d), ServerRequest::UpdateUserPolicy { user_id: BOB, policy: policy(false) });
}

#[test]
fn delete_request_names_the_row_account() {
    assert_eq!(delete_request(&user(BOB, "bob", false)), ServerRequest::DeleteUser { user_id: BOB });
}

#[test]
fn users_page_opens_by_requesting_the_list() {
    let (page, request) = UsersPage::open(ALICE_TEXT.to_string());
    assert_eq!(request, ServerRequest::GetUsers);
    assert!(page.users.loading);
    assert_eq!(page.users.value, None);
    assert_eq!(page.users.error, None);
    assert_eq!(page.search, "");
    assert!(page.form.is_none());
}

#[test]
fn users_page_load_success_and_failure() {
    let page = loaded_page();
    assert!(!page.users.loading);
    assert_eq!(page.users.value.as_ref().map(|v| v.len()), Some(2));
    assert_eq!(page.users.error, None);

    let (page, sent) = page.step(UsersEvent::UsersLoaded(Err("connection refused".to_string())));
    assert_eq!(sent, None);
    assert!(!page.users.loading);
    assert_eq!(page.users.error.as_deref(), Some("Failed to load users: connection refused"));
    // The list received before stays.
    assert_eq!(page.users.value.as_ref().map(|v| v.len()), Some(2));
}

#[test]
fn toggling_a_user_sends_the_policy_and_reloads_after_either_answer() {
    let page = loaded_page();
    let (page, sent) = page.step(UsersEvent::ToggleClicked(user(BOB, "bob", false)));
    assert_eq!(sent, Some(ServerRequest::UpdateUserPolicy { user_id: BOB, policy: policy(true) }));
    assert!(!page.users.loading);

    let (after_ok, sent_ok) = page.clone().step(UsersEvent::ActionAnswered(Ok(())));
    assert_eq!(sent_ok, Some(ServerRequest::GetUsers));
    assert!(after_ok.users.loading);

    let (after_err, sent_err) = page.step(UsersEvent::ActionAnswered(Err("forbidden".to_string())));
    assert_eq!(sent_err, Some(ServerRequest::GetUsers));
    assert!(after_err.users.loading);
    assert_eq!(after_err, after_ok);
}

#[test]
fn deleting_a_user_sends_the_request_and_reloads() {
    let page = loaded_page();
    let (page, sent) = page.step(UsersEvent::DeleteClicked(user(BOB, "bob", false)));
    assert_eq!(sent, Some(ServerRequest::DeleteUser { user_id: BOB }));
    let (page, sent) = page.step(UsersEvent::ActionAnswered(Ok(())));
    assert_eq!(sent, Some(ServerRequest::GetUsers));
    assert!(page.users.loading);
}

#[test]
fn own_row_sends_nothing() {
    let page = loaded_page();
    let (page, sent) = page.step(UsersEvent::ToggleClicked(user(ALICE, "alice", false)));
    assert_eq!(sent, None);
    let (_, sent) = page.step(UsersEvent::DeleteClicked(user(ALICE, "alice", false)));
    assert_eq!(sent, None);
}

#[test]
fn form_opens_closes_and_reloads_after_saving() {
    let page = loaded_page();
    let (page, sent) = page.step(UsersEvent::NewUserClicked);
    assert_eq!(sent, None);
    assert!(matches!(page.form, Some(UserFormMode::Create)));
    let (page, sent) = page.step(UsersEvent::FormCancelled);
    assert_eq!(sent, None);
    assert!(page.form.is_none());
    let (page, _) = page.step(UsersEvent::EditClicked(user(BOB, "bob", false)));
    assert!(matches!(&page.form, Some(UserFormMode::Edit(u)) if u.id == BOB));
    let (page, sent) = page.step(UsersEvent::FormDone);
    assert_eq!(sent, Some(ServerRequest::GetUsers));
    assert!(page.form.is_none());
    assert!(page.users.loading);
}

#[test]
fn search_text_is_kept() {
    let (page, sent) = loaded_page().step(UsersEvent::SearchChanged("bo".to_string()));
    assert_eq!(sent, None);
    assert_eq!(page.search, "bo");
}

#[test]
fn loadable_reload_keeps_what_it_had() {
    let l: Loadable<u32> = Loadable { loading: false, value: Some(3), error: Some("old".to_string()) };
    let r = l.reloading();
    assert!(r.loading);
    assert_eq!(r.value, Some(3));
    assert_eq!(r.error.as_deref(), Some("old"));
    let done = r.finish(Ok(4), "Failed: ");
    assert_eq!(done, Loadable { loading: false, value: Some(4), error: None });
}

fn stats() -> UserStats {
    UserStats {
        user_id: BOB,
        username: "bob".to_string(),
        is_admin: false,
        is_disabled: false,
        total_plays: 5,
        played_items: 2,
        favorite_items: 1,
        resume_items: 0,
        watch_time_seconds: 0,
        last_played_at: None,
        last_login_at: None,
        last_activity_at: None,
        active_device_count: 0,
    }
}

#[test]
fn detail_page_requests_twenty_recent_items() {
    let (page, request) = UserDetailPage::open(BOB);
    assert_eq!(request, ServerRequest::GetUserStats { user_id: BOB, recent: Some(20) });
    assert!(page.stats.loading);
    assert_eq!(page.view(Timestamp::new(0, 0).unwrap()), PanelView::Loading);
    let failed = page.clone().on_stats(Err("timeout".to_string()));
    assert!(!failed.stats.loading);
    assert_eq!(failed.stats.error.as_deref(), Some("Failed to load stats: timeout"));
    assert_eq!(
        failed.view(Timestamp::new(0, 0).unwrap()),
        PanelView::Error("Failed to load stats: timeout".to_string())
    );
    let ok = page.on_stats(Ok((stats(), vec![])));
    match ok.view(Timestamp::new(1_767_348_000, 0).unwrap()) {
        PanelView::Shown(v) => {
            assert_eq!(v.username, "bob");
            assert!(v.recent.is_empty());
        },
        other => panic!("unexpected {:?}", other),
    }
}

fn overview() -> UsersOverviewStats {
    UsersOverviewStats {
        total_users: 4,
        admin_users: 1,
        disabled_users: 0,
        active_24h: 2,
        active_7d: 3,
        total_plays: 10,
        top_users: vec![],
    }
}

#[test]
fn users_card_requests_overview_and_reports_failure() {
    let (card, request) = UsersCard::open();
    assert_eq!(request, ServerRequest::GetUsersOverviewStats);
    assert_eq!(card.view(), PanelView::Loading);
    let failed = card.clone().on_stats(Err("500".to_string()));
    assert_eq!(failed.view(), PanelView::Error("Failed to fetch user stats: 500".to_string()));
    let ok = card.on_stats(Ok(overview()));
    match ok.view() {
        PanelView::Shown(c) => {
            assert_eq!(c.tiles.len(), 5);
            assert_eq!(c.tiles[0].value, "4");
            assert!(c.top.is_empty());
        },
        other => panic!("unexpected {:?}", other),
    }
}

fn entry(id: i64, name: &str, overview: Option<&str>, kind: &str) -> ActivityLog {
    ActivityLog {
        id,
        log_type: kind.to_string(),
        name: name.to_string(),
        short_overview: overview.map(|s| s.to_string()),
        user_id: None,
        date: "2026-01-02T10:00:00Z".to_string(),
        severity: "Info".to_string(),
        ip_address: None,
        device_id: None,
        client: None,
    }
}

#[test]
fn activity_card_requests_latest_entries() {
    let (card, request) = ActivityCard::open();
    let mut expected = ActivityLogFilter::default();
    expected.limit = Some(ACTIVITY_CARD_LIMIT);
    assert_eq!(ACTIVITY_CARD_LIMIT, 200);
    assert_eq!(request, ServerRequest::GetActivityLogEntries(expected));
    assert_eq!(card.view(), ActivityCardView::Loading);
}

#[test]
fn activity_card_shows_failure_empty_log_and_rows() {
    let (card, _) = ActivityCard::open();
    let failed = card.clone().on_entries(Err("offline".to_string()));
    assert_eq!(failed.view(), ActivityCardView::Error("Failed to fetch activity log: offline".to_string()));
    let empty = card.clone().on_entries(Ok(vec![]));
    assert_eq!(empty.view(), ActivityCardView::Empty("No activity recorded yet".to_string()));
    let full = card.on_entries(Ok(vec![
        entry(2, "bob signed in", Some("from 10.0.0.2"), "SessionStarted"),
        entry(1, "alice played", None, "VideoPlayback"),
    ]));
    assert_eq!(
        full.view(),
        ActivityCardView::Rows(vec![
            ActivityRow {
                name: "bob signed in".to_string(),
                overview: Some("from 10.0.0.2".to_string()),
                kind: "SessionStarted".to_string(),
            },
            ActivityRow { name: "alice played".to_string(), overview: None, kind: "VideoPlayback".to_string() },
        ])
    );
}

#[test]
fn statistics_queries_carry_their_arguments() {
    let since = Timestamp::new(1_767_347_040, 0).unwrap();
    let q = UserService::user_stats_query(since, BOB);
    assert_eq!(q.sql, USER_STATS_SQL);
    assert_eq!(q.args, vec![SqlArg::Instant(since), SqlArg::Uuid(BOB)]);

    let q = UserService::recent_items_query(BOB, 20);
    assert_eq!(q.sql, RECENT_ITEMS_SQL);
    assert!(RECENT_ITEMS_SQL.contains("ORDER BY s.last_played_at DESC"));
    assert_eq!(q.args, vec![SqlArg::Uuid(BOB), SqlArg::Int(20)]);

    let day = Timestamp::new(1_767_261_600, 0).unwrap();
    let week = Timestamp::new(1_766_743_200, 0).unwrap();
    let q = UserService::totals_query(day, week);
    assert_eq!(q.sql, TOTALS_SQL);
    assert_eq!(q.args, vec![SqlArg::Instant(day), SqlArg::Instant(week)]);

    let q = UserService::top_users_query(5);
    assert_eq!(q.sql, TOP_USERS_SQL);
    assert_eq!(q.args, vec![SqlArg::Int(5)]);
}

#[test]
fn insert_query_defaults_date_to_now_and_severity_to_info() {
    let entry = ActivityLogEntry {
        log_type: "UserCreated".to_string(),
        name: "bob was created".to_string(),
        ..ActivityLogEntry::default()
    };
    let q = entry.insert_query();
    assert_eq!(q.sql, INSERT_ACTIVITY_SQL);
    assert!(INSERT_ACTIVITY_SQL.contains("strftime('%Y-%m-%dT%H:%M:%SZ', 'now')"));
    assert!(INSERT_ACTIVITY_SQL.contains("COALESCE(NULLIF(?, ''), 'Info')"));
    assert_eq!(q.args, entry.insert_args());
    assert_eq!(q.sql.matches('?').count(), q.args.len());
}
