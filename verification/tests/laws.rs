use remux::activity::ActivityLogFilter;
use remux::text::{decimal, parse_i64};
use remux::time::Timestamp;
use remux::user_form::{UserAction, UserFormState};
use remux::users::{
    online_at, CollectionFilter, FilterGroup, FilterMatchMode, FilterRule, StreamFilter, StreamRule,
    UserDto, UserFormMode, UserPolicy,
};

#[test]
fn decimal_reads_back() {
    for n in [0, 1, -1, 9, 10, -10, 123_456_789, i64::MIN, i64::MAX] {
        assert_eq!(parse_i64(&decimal(n)), Some(n));
    }
}

#[test]
fn online_boundary_is_960_seconds() {
    let now = Timestamp::new(1_000_000, 0).unwrap();
    let at = |ago: i64| Some(Timestamp::new(1_000_000 - ago, 0).unwrap());
    assert!(online_at(now, false, at(959)));
    assert!(!online_at(now, false, at(960)));
    assert!(online_at(now, false, at(-5000)));
    assert!(!online_at(now, true, at(1)));
    assert!(!online_at(now, false, None));
}

fn placeholders(sql: &str) -> usize {
    sql.chars().filter(|c| *c == '?').count()
}

#[test]
fn every_placeholder_has_one_argument() {
    let full = ActivityLogFilter {
        user_id: Some(1),
        log_type: Some("a?b".into()),
        since: Some("2026".into()),
        limit: Some(1),
        offset: Some(2),
        total_count: true,
    };
    let filters = vec![
        ActivityLogFilter::default(),
        full.clone(),
        ActivityLogFilter { user_id: None, limit: None, ..full.clone() },
        ActivityLogFilter { since: None, offset: None, ..full },
    ];
    for f in filters {
        let c = f.count_query();
        let r = f.records_query();
        assert_eq!(placeholders(&c.sql), c.args.len());
        assert_eq!(placeholders(&r.sql), r.args.len());
        assert_eq!(&r.args[..c.args.len()], &c.args[..]);
    }
}

#[test]
fn unchanged_edit_form_sends_the_account_back() {
    let u = UserDto {
        id: 77,
        name: "hank".into(),
        primary_image_tag: Some("t".into()),
        last_login_date: Timestamp::new(5, 0),
        last_activity_date: None,
        policy: UserPolicy {
            is_administrator: true,
            is_disabled: false,
            enable_remote_search: false,
            max_active_sessions: 3,
            enable_video_playback_transcoding: true,
            max_parental_rating: Some(-7),
            blocked_tags: vec!["x".into(), "y".into()],
            filter_rules: Some(CollectionFilter {
                match_mode: FilterMatchMode::Any,
                groups: vec![FilterGroup {
                    rules: vec![FilterRule { field: "f".into(), operator: "o".into(), value: "v".into() }],
                }],
            }),
            stream_filter: Some(StreamFilter {
                match_mode: FilterMatchMode::All,
                rules: vec![StreamRule { field: "f".into(), operator: "o".into(), value: "v".into() }],
            }),
        },
    };
    let mode = UserFormMode::Edit(u.clone());
    let plan = UserFormState::initial(&mode).submit(&mode).unwrap();
    assert!(plan.after_create.is_none());
    assert_eq!(plan.actions.len(), 2);
    match (&plan.actions[0], &plan.actions[1]) {
        (UserAction::UpdateUser { user_id, user }, UserAction::UpdatePolicy { user_id: pid, policy }) => {
            assert_eq!((*user_id, *pid), (77, 77));
            assert_eq!(user, &u);
            assert_eq!(policy, &u.policy);
        }
        other => panic!("unexpected actions {other:?}"),
    }
}
