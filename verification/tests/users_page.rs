use remux::dashboard::{overview_card, user_detail_view};
use remux::stats::{TopUserStat, UserRecentItem, UserStats, UsersOverviewStats};
use remux::time::Timestamp;
use remux::user_form::{
    FormStep, Reply, SubmitProgress,
    after_created, confirmation_shown, max_sessions_display, max_sessions_from_input, FormError,
    UserAction, UserFormState,
};
use remux::users::{
    filter_users, toggled_policy, user_row, users_list_view, Avatar, FilterGroup, FilterMatchMode,
    FilterRule, StreamRule, UserDto, UserFormMode, UserPolicy, UsersListView,
};

const NOW: i64 = 1_767_348_000; // 2026-01-02T10:00:00Z
const ALICE: u128 = 0x67e5504410b1426f9247bb680e5fe0c8;

fn ts(secs: i64) -> Timestamp {
    Timestamp::new(secs, 0).unwrap()
}

fn policy() -> UserPolicy {
    UserPolicy {
        is_administrator: false,
        is_disabled: false,
        enable_remote_search: true,
        max_active_sessions: 0,
        enable_video_playback_transcoding: true,
        max_parental_rating: None,
        blocked_tags: vec![],
        filter_rules: None,
        stream_filter: None,
    }
}

fn user(id: u128, name: &str) -> UserDto {
    UserDto {
        id,
        name: name.to_string(),
        primary_image_tag: None,
        last_login_date: None,
        last_activity_date: None,
        policy: policy(),
    }
}

#[test]
fn search_is_case_insensitive_substring() {
    let users = vec![user(1, "Alice"), user(2, "bob"), user(3, "MALICE")];
    let kept = filter_users(users.clone(), "AL");
    let names: Vec<&str> = kept.iter().map(|u| u.name.as_str()).collect();
    assert_eq!(names, vec!["Alice", "MALICE"]);
    assert_eq!(filter_users(users.clone(), "").len(), 3);
    assert!(filter_users(users, "zoe").is_empty());
}

#[test]
fn form_modes_compare_by_account_id() {
    let a = user(1, "a");
    let mut a2 = user(1, "renamed");
    a2.policy.is_administrator = true;
    assert!(UserFormMode::Create == UserFormMode::Create);
    assert!(UserFormMode::Edit(a.clone()) == UserFormMode::Edit(a2));
    assert!(UserFormMode::Edit(a.clone()) != UserFormMode::Edit(user(2, "a")));
    assert!(UserFormMode::Create != UserFormMode::Edit(a));
}

#[test]
fn row_of_an_online_admin() {
    let mut u = user(ALICE, "Alice Liddell");
    u.policy.is_administrator = true;
    u.last_login_date = Some(ts(NOW - 7_200));
    u.last_activity_date = Some(ts(NOW - 300));
    let row = user_row(&u, &"someone-else".to_string(), ts(NOW));
    assert!(!row.is_self && row.is_admin && !row.is_disabled && row.online);
    assert_eq!(row.status_class, "user-status user-status-online");
    assert_eq!(row.status_title, "Active now");
    assert_eq!(row.avatar, Avatar::Initials("AL".to_string()));
    assert_eq!(row.meta, "login: 2h ago  \u{b7}  active: 5m ago");
    assert_eq!(row.toggle_label, "Disable");
    assert_eq!(row.toggle_title, "Disable user");
    assert!(row.can_toggle && row.can_delete);
}

#[test]
fn row_of_oneself_offline_with_image() {
    let mut u = user(ALICE, "alice");
    u.primary_image_tag = Some("tag".to_string());
    u.last_activity_date = Some(ts(NOW - 960));
    let self_id = "67e55044-10b1-426f-9247-bb680e5fe0c8".to_string();
    let row = user_row(&u, &self_id, ts(NOW));
    assert!(row.is_self && !row.can_delete && !row.can_toggle);
    assert!(!row.online);
    assert_eq!(row.status_class, "user-status");
    assert_eq!(row.status_title, "Offline");
    assert_eq!(
        row.avatar,
        Avatar::Image("/users/67e55044-10b1-426f-9247-bb680e5fe0c8/images/primary".to_string())
    );
    assert_eq!(row.meta, "login: \u{2014}  \u{b7}  active: 16m ago");
}

#[test]
fn row_of_a_disabled_user_is_never_online() {
    let mut u = user(3, "x");
    u.policy.is_disabled = true;
    u.last_activity_date = Some(ts(NOW - 10));
    let row = user_row(&u, &String::new(), ts(NOW));
    assert!(!row.online);
    assert_eq!(row.status_class, "user-status user-status-disabled");
    assert_eq!(row.status_title, "Disabled");
    assert_eq!(row.toggle_label, "Enable");
    assert_eq!(row.toggle_title, "Enable user");
}

#[test]
fn toggling_flips_only_the_disabled_flag() {
    let p = toggled_policy(policy());
    assert!(p.is_disabled);
    assert_eq!(toggled_policy(p), policy());
}

#[test]
fn list_view_order_of_states() {
    assert_eq!(users_list_view(true, true, 0, 0), UsersListView::Loading);
    assert_eq!(users_list_view(false, true, 3, 3), UsersListView::Error);
    assert_eq!(users_list_view(false, false, 0, 0), UsersListView::NoUsers);
    assert_eq!(users_list_view(false, false, 3, 0), UsersListView::NoMatches);
    assert_eq!(users_list_view(false, false, 3, 1), UsersListView::Rows);
}

#[test]
fn new_user_form_defaults() {
    let f = UserFormState::initial(&UserFormMode::Create);
    assert_eq!(f.username, "");
    assert!(!f.is_admin);
    assert_eq!(f.filter_match, FilterMatchMode::All);
    assert_eq!(f.filter_groups, vec![FilterGroup { rules: vec![] }]);
    assert!(f.stream_rules.is_empty());
    assert!(f.enable_remote_search && f.enable_video_transcoding && !f.is_disabled);
    assert_eq!(f.max_active_sessions, 0);
    assert_eq!(f.max_parental_rating, "");
}

fn rule() -> FilterRule {
    FilterRule { field: "genre".into(), operator: "is".into(), value: "Horror".into() }
}

#[test]
fn edit_form_starts_from_the_account() {
    let mut u = user(5, "carol");
    u.policy.max_parental_rating = Some(13);
    u.policy.max_active_sessions = 2;
    u.policy.blocked_tags = vec!["gore".into()];
    u.policy.stream_filter = Some(remux::users::StreamFilter {
        match_mode: FilterMatchMode::Any,
        rules: vec![StreamRule { field: "codec".into(), operator: "is".into(), value: "hevc".into() }],
    });
    let f = UserFormState::initial(&UserFormMode::Edit(u));
    assert_eq!(f.username, "carol");
    assert_eq!(f.max_parental_rating, "13");
    assert_eq!(f.max_active_sessions, 2);
    assert_eq!(f.blocked_tags, vec!["gore".to_string()]);
    assert_eq!(f.stream_match, FilterMatchMode::Any);
    assert_eq!(f.stream_rules.len(), 1);
    assert_eq!(f.filter_groups, vec![FilterGroup { rules: vec![] }]);
}

#[test]
fn saving_checks_passwords() {
    let mut f = UserFormState::initial(&UserFormMode::Create);
    f.username = "dave".into();
    assert_eq!(f.clone().submit(&UserFormMode::Create).unwrap_err(), FormError::PasswordRequired);
    assert_eq!(FormError::PasswordRequired.message(), "Password is required");
    f.password = "secret".into();
    f.password2 = "secreT".into();
    assert_eq!(f.clone().submit(&UserFormMode::Create).unwrap_err(), FormError::PasswordsDiffer);
    assert_eq!(FormError::PasswordsDiffer.message(), "Passwords do not match");
    let mode = UserFormMode::Edit(user(9, "dave"));
    assert_eq!(f.submit(&mode).unwrap_err(), FormError::PasswordsDiffer);
}

#[test]
fn creating_a_plain_user_sends_no_policy() {
    let mut f = UserFormState::initial(&UserFormMode::Create);
    f.username = "erin".into();
    f.password = "pw".into();
    f.password2 = "pw".into();
    let plan = f.submit(&UserFormMode::Create).unwrap();
    match &plan.actions[..] {
        [UserAction::CreateUser { name, password }] => {
            assert_eq!(name, "erin");
            assert_eq!(password, "pw");
        }
        other => panic!("unexpected actions {other:?}"),
    }
    let changes = plan.after_create.unwrap();
    assert!(after_created(changes, user(11, "erin")).is_none());
}

#[test]
fn creating_an_admin_sets_its_policy_afterwards() {
    let mut f = UserFormState::initial(&UserFormMode::Create);
    f.username = "frank".into();
    f.password = "pw".into();
    f.password2 = "pw".into();
    f.is_admin = true;
    f.max_parental_rating = " 16 ".into();
    f.filter_groups = vec![FilterGroup { rules: vec![] }, FilterGroup { rules: vec![rule()] }];
    let plan = f.submit(&UserFormMode::Create).unwrap();
    let changes = plan.after_create.unwrap();
    assert_eq!(changes.max_parental_rating, Some(16));
    assert!(changes.filter_rules.is_some());
    assert!(changes.stream_filter.is_none());
    match after_created(changes, user(12, "frank")) {
        Some(UserAction::UpdatePolicy { user_id, policy }) => {
            assert_eq!(user_id, 12);
            assert!(policy.is_administrator);
            assert_eq!(policy.max_parental_rating, Some(16));
            assert_eq!(policy.filter_rules.unwrap().groups.len(), 2);
        }
        other => panic!("unexpected follow-up {other:?}"),
    }
}

#[test]
fn editing_renames_sets_policy_and_password() {
    let mut u = user(20, "gina");
    u.policy.filter_rules = Some(remux::users::CollectionFilter {
        match_mode: FilterMatchMode::Any,
        groups: vec![FilterGroup { rules: vec![rule()] }],
    });
    let mode = UserFormMode::Edit(u);
    let mut f = UserFormState::initial(&mode);
    f.username = "gina2".into();
    f.max_parental_rating = "abc".into();
    f.is_disabled = true;
    let plan = f.clone().submit(&mode).unwrap();
    assert!(plan.after_create.is_none());
    assert_eq!(plan.actions.len(), 2);
    match (&plan.actions[0], &plan.actions[1]) {
        (UserAction::UpdateUser { user_id, user }, UserAction::UpdatePolicy { user_id: pid, policy }) => {
            assert_eq!((*user_id, *pid), (20, 20));
            assert_eq!(user.name, "gina2");
            assert!(user.policy.filter_rules.is_some());
            assert!(policy.is_disabled);
            assert_eq!(policy.max_parental_rating, None);
            assert_eq!(policy.filter_rules.as_ref().unwrap().match_mode, FilterMatchMode::Any);
        }
        other => panic!("unexpected actions {other:?}"),
    }
    f.password = "new".into();
    f.password2 = "new".into();
    let plan = f.submit(&mode).unwrap();
    assert_eq!(plan.actions.len(), 3);
    match &plan.actions[2] {
        UserAction::SetPassword { user_id, password } => {
            assert_eq!(*user_id, 20);
            assert_eq!(password, "new");
        }
        other => panic!("unexpected action {other:?}"),
    }
}

#[test]
fn max_sessions_field() {
    assert_eq!(max_sessions_from_input("3"), 3);
    assert_eq!(max_sessions_from_input("0"), 1);
    assert_eq!(max_sessions_from_input("-4"), 1);
    assert_eq!(max_sessions_from_input(""), 0);
    assert_eq!(max_sessions_from_input("two"), 0);
    assert_eq!(max_sessions_display(3), "3");
    assert_eq!(max_sessions_display(0), "");
    for n in [1, 7, 1_000_000, i64::MAX] {
        assert_eq!(max_sessions_from_input(&max_sessions_display(n)), n);
    }
}

#[test]
fn confirmation_field_visibility() {
    assert!(confirmation_shown(false, ""));
    assert!(!confirmation_shown(true, ""));
    assert!(confirmation_shown(true, "x"));
}

fn stats() -> UserStats {
    UserStats {
        user_id: ALICE,
        username: "alice".into(),
        is_admin: true,
        is_disabled: false,
        total_plays: 12,
        played_items: 3,
        favorite_items: 2,
        resume_items: 1,
        watch_time_seconds: 3_725,
        last_played_at: None,
        last_login_at: Some(ts(NOW - 60)),
        last_activity_at: Some(ts(NOW - 60)),
        active_device_count: 1,
    }
}

#[test]
fn detail_page_tiles_and_recent_rows() {
    let recent = vec![
        UserRecentItem {
            media_id: 1,
            title: Some("B".into()),
            kind: Some("movie".into()),
            play_count: 2,
            playback_position: 0,
            favorite: false,
            last_played_at: Some(ts(NOW - 3 * 86_400)),
        },
        UserRecentItem {
            media_id: ALICE,
            title: None,
            kind: None,
            play_count: 1,
            playback_position: 0,
            favorite: false,
            last_played_at: None,
        },
    ];
    let v = user_detail_view(ts(NOW), &stats(), &recent);
    assert!(v.online);
    assert_eq!(v.avatar_path, "/users/67e55044-10b1-426f-9247-bb680e5fe0c8/images/primary");
    assert_eq!(v.meta, "last login: 1m ago  \u{b7}  last active: 1m ago");
    let tiles: Vec<(String, String, Option<String>)> =
        v.tiles.iter().map(|t| (t.label.clone(), t.value.clone(), t.sub.clone())).collect();
    assert_eq!(
        tiles,
        vec![
            ("Total Plays".into(), "12".into(), None),
            ("Played Items".into(), "3".into(), None),
            ("Favorites".into(), "2".into(), None),
            ("Resume".into(), "1".into(), None),
            ("Active Devices".into(), "1".into(), Some("online".into())),
            ("Watch Time".into(), "1h 2m".into(), Some("estimated".into())),
        ]
    );
    assert_eq!(v.recent[0].title, "B");
    assert_eq!(v.recent[0].meta, "movie \u{b7} played 2\u{d7}");
    assert_eq!(v.recent[0].when, "3d ago");
    assert_eq!(v.recent[1].title, "67e55044-10b1-426f-9247-bb680e5fe0c8");
    assert_eq!(v.recent[1].meta, " \u{b7} played 1\u{d7}");
    assert_eq!(v.recent[1].when, "\u{2014}");
}

#[test]
fn overview_card_shows_five_leaders() {
    let top: Vec<TopUserStat> = (0..7)
        .map(|i| TopUserStat { user_id: i, username: format!("u{i}"), total_plays: 100 - i as i64, last_activity_at: None })
        .collect();
    let s = UsersOverviewStats {
        total_users: 7,
        admin_users: 1,
        disabled_users: 2,
        active_24h: 3,
        active_7d: 5,
        total_plays: 600,
        top_users: top,
    };
    let c = overview_card(&s);
    assert_eq!(c.top.len(), 5);
    assert_eq!(c.top[0].plays, "100 plays");
    assert_eq!(c.top[4].username, "u4");
    assert_eq!(c.tiles[3].label, "Active 24h");
    assert_eq!(c.tiles[3].value, "3");
    assert_eq!(c.tiles[3].sub.as_deref(), Some("5 in last 7d"));
    let empty = UsersOverviewStats { top_users: vec![], ..s };
    assert!(overview_card(&empty).top.is_empty());
}

#[test]
fn form_labels_by_mode() {
    let edit = remux::user_form::form_labels(true, false);
    assert_eq!(edit.title, "Edit User");
    assert_eq!(edit.password_label, "New Password");
    assert_eq!(edit.password_placeholder, "Leave blank to keep current");
    assert!(!edit.password_required);
    assert_eq!(edit.save_label, "Save");
    let new = remux::user_form::form_labels(false, true);
    assert_eq!(new.title, "New User");
    assert_eq!(new.password_label, "Password");
    assert_eq!(new.password_placeholder, "");
    assert!(new.password_required);
    assert_eq!(new.save_label, "Saving\u{2026}");
    assert!(new.save_disabled);
}

#[test]
fn saving_an_edit_runs_its_requests_in_order() {
    let mode = UserFormMode::Edit(user(30, "ivy"));
    let mut f = UserFormState::initial(&mode);
    f.password = "pw".into();
    f.password2 = "pw".into();
    let plan = f.submit(&mode).unwrap();
    let (p, step) = SubmitProgress::start(plan);
    assert!(matches!(step, FormStep::Send(UserAction::UpdateUser { user_id: 30, .. })));
    let (p, step) = p.on_reply(Reply::Done);
    assert!(matches!(step, FormStep::Send(UserAction::UpdatePolicy { user_id: 30, .. })));
    let (p, step) = p.on_reply(Reply::Done);
    assert!(matches!(step, FormStep::Send(UserAction::SetPassword { user_id: 30, .. })));
    let (_, step) = p.on_reply(Reply::Done);
    assert!(matches!(step, FormStep::Saved));
}

#[test]
fn a_failed_request_stops_the_save() {
    let mode = UserFormMode::Edit(user(31, "jo"));
    let plan = UserFormState::initial(&mode).submit(&mode).unwrap();
    let (p, _) = SubmitProgress::start(plan);
    let (p, step) = p.on_reply(Reply::Failed("Name already taken".into()));
    match step {
        FormStep::Failed(m) => assert_eq!(m, "Name already taken"),
        other => panic!("unexpected step {other:?}"),
    }
    assert!(p.pending.is_empty());
    assert!(matches!(p.on_reply(Reply::Done).1, FormStep::Saved));
}

#[test]
fn creation_is_followed_by_its_settings() {
    let mut f = UserFormState::initial(&UserFormMode::Create);
    f.username = "kim".into();
    f.password = "pw".into();
    f.password2 = "pw".into();
    f.is_disabled = true;
    let plan = f.submit(&UserFormMode::Create).unwrap();
    let (p, step) = SubmitProgress::start(plan);
    assert!(matches!(step, FormStep::Send(UserAction::CreateUser { .. })));
    let (p, step) = p.on_reply(Reply::Created(user(40, "kim")));
    match step {
        FormStep::Send(UserAction::UpdatePolicy { user_id, policy }) => {
            assert_eq!(user_id, 40);
            assert!(policy.is_disabled);
        }
        other => panic!("unexpected step {other:?}"),
    }
    assert!(matches!(p.on_reply(Reply::Done).1, FormStep::Saved));

    let mut g = UserFormState::initial(&UserFormMode::Create);
    g.password = "pw".into();
    g.password2 = "pw".into();
    let (p, _) = SubmitProgress::start(g.submit(&UserFormMode::Create).unwrap());
    assert!(matches!(p.on_reply(Reply::Created(user(41, ""))).1, FormStep::Saved));
}
