//! What the user-detail page and the dashboard's users card show of the
//! server's statistics.

use vstd::prelude::*;
use crate::ids::{uuid_string, uuid_text};
use crate::labels::{duration_text, humanize_seconds, relative_text, relative_time_at};
use crate::stats::{TopUserStat, UserRecentItem, UserStats, UsersOverviewStats};
use crate::text::{decimal, int_decimal};
use crate::time::{chrono_now, Timestamp};
use crate::users::{image_path, is_online, online_at};

verus! {

/// A tile of a statistics grid: a label, a value and an optional note.
#[derive(Debug, Clone, PartialEq)]
pub struct StatTile {
    pub label: String,
    pub value: String,
    pub sub: Option<String>,
}

pub struct StatTileView {
    pub label: Seq<char>,
    pub value: Seq<char>,
    pub sub: Option<Seq<char>>,
}

impl View for StatTile {
    type V = StatTileView;

    open spec fn view(&self) -> StatTileView {
        StatTileView { label: self.label@, value: self.value@, sub: self.sub.deep_view() }
    }
}

pub open spec fn tiles_view(tiles: Seq<StatTile>) -> Seq<StatTileView> {
    tiles.map_values(|t: StatTile| t@)
}

pub open spec fn tile(label: Seq<char>, value: Seq<char>, sub: Option<Seq<char>>) -> StatTileView {
    StatTileView { label, value, sub }
}

fn make_tile(label: &str, value: String, sub: Option<String>) -> (res: StatTile)
    ensures
        res@ == tile(label@, value@, sub.deep_view()),
{
    StatTile { label: String::from_str(label), value, sub }
}

/// One row of a user's recently played items.
#[derive(Debug, Clone, PartialEq)]
pub struct RecentRow {
    /// The item's title, or its id where it has none.
    pub title: String,
    /// "<kind> · played <n>×".
    pub meta: String,
    /// When it was last played, relative to now.
    pub when: String,
}

pub struct RecentRowView {
    pub title: Seq<char>,
    pub meta: Seq<char>,
    pub when: Seq<char>,
}

impl View for RecentRow {
    type V = RecentRowView;

    open spec fn view(&self) -> RecentRowView {
        RecentRowView { title: self.title@, meta: self.meta@, when: self.when@ }
    }
}

pub open spec fn recent_row_of(now: Timestamp, item: UserRecentItem) -> RecentRowView {
    RecentRowView {
        title: match item.title {
            Some(t) => t@,
            None => uuid_text(item.media_id),
        },
        meta: (match item.kind {
            Some(k) => k@,
            None => seq![],
        }) + " \u{b7} played "@ + int_decimal(item.play_count as int) + "\u{d7}"@,
        when: relative_text(now, item.last_played_at),
    }
}

/// The row of a recently played item at `now`.
pub fn recent_row(now: Timestamp, item: &UserRecentItem) -> (res: RecentRow)
    requires
        now.valid(),
        item.wf(),
    ensures
        res@ == recent_row_of(now, *item),
{
    let title = match &item.title {
        Some(t) => t.clone(),
        None => uuid_string(item.media_id),
    };
    let mut meta = match &item.kind {
        Some(k) => k.clone(),
        None => String::new(),
    };
    meta.append(" \u{b7} played ");
    let count = decimal(item.play_count);
    meta.append(count.as_str());
    meta.append("\u{d7}");
    let when = relative_time_at(now, item.last_played_at);
    RecentRow { title, meta, when }
}

/// Everything the user-detail page shows of a user's statistics.
#[derive(Debug, Clone, PartialEq)]
pub struct UserDetailView {
    pub avatar_path: String,
    pub username: String,
    /// "Admin" badge.
    pub is_admin: bool,
    /// "Disabled" badge.
    pub is_disabled: bool,
    /// "last login: … · last active: …".
    pub meta: String,
    pub online: bool,
    pub tiles: Vec<StatTile>,
    pub recent: Vec<RecentRow>,
}

pub open spec fn online_status_text(online: bool) -> Seq<char> {
    if online { "online"@ } else { "offline"@ }
}

pub open spec fn detail_meta(now: Timestamp, s: UserStats) -> Seq<char> {
    "last login: "@ + relative_text(now, s.last_login_at) + "  \u{b7}  last active: "@
        + relative_text(now, s.last_activity_at)
}

/// The statistics grid: plays, played items, favorites, resumable items,
/// active devices (noted online or offline) and estimated watch time.
pub open spec fn detail_tiles(s: UserStats, online: bool) -> Seq<StatTileView> {
    seq![
        tile("Total Plays"@, int_decimal(s.total_plays as int), None),
        tile("Played Items"@, int_decimal(s.played_items as int), None),
        tile("Favorites"@, int_decimal(s.favorite_items as int), None),
        tile("Resume"@, int_decimal(s.resume_items as int), None),
        tile("Active Devices"@, int_decimal(s.active_device_count as int), Some(online_status_text(online))),
        tile("Watch Time"@, duration_text(s.watch_time_seconds as int), Some("estimated"@)),
    ]
}

/// `v` is what the user-detail page shows at `now` of `stats` and `recent`.
pub open spec fn detail_shows(now: Timestamp, v: UserDetailView, stats: UserStats, recent: Seq<UserRecentItem>) -> bool {
    &&& v.avatar_path@ == image_path(stats.user_id)
    &&& v.username@ == stats.username@
    &&& v.is_admin == stats.is_admin
    &&& v.is_disabled == stats.is_disabled
    &&& v.meta@ == detail_meta(now, stats)
    &&& v.online == is_online(now, stats.is_disabled, stats.last_activity_at)
    &&& tiles_view(v.tiles@) == detail_tiles(stats, v.online)
    &&& v.recent.len() == recent.len()
    &&& forall|i: int| 0 <= i < recent.len() ==> #[trigger] v.recent@[i]@ == recent_row_of(now, recent[i])
}

/// The user-detail page at `now` for a user's statistics and recent items.
pub fn user_detail_view(now: Timestamp, stats: &UserStats, recent: &Vec<UserRecentItem>) -> (res:
    UserDetailView)
    requires
        now.valid(),
        stats.wf(),
        forall|i: int| 0 <= i < recent.len() ==> #[trigger] recent@[i].wf(),
    ensures
        detail_shows(now, res, *stats, recent@),
{
    let online = online_at(now, stats.is_disabled, stats.last_activity_at);
    let mut avatar_path = String::from_str("/users/");
    let id_text = uuid_string(stats.user_id);
    avatar_path.append(id_text.as_str());
    avatar_path.append("/images/primary");
    let mut meta = String::from_str("last login: ");
    let login = relative_time_at(now, stats.last_login_at);
    meta.append(login.as_str());
    meta.append("  \u{b7}  last active: ");
    let active = relative_time_at(now, stats.last_activity_at);
    meta.append(active.as_str());
    let status = if online { String::from_str("online") } else { String::from_str("offline") };
    let mut tiles: Vec<StatTile> = Vec::new();
    tiles.push(make_tile("Total Plays", decimal(stats.total_plays), None));
    tiles.push(make_tile("Played Items", decimal(stats.played_items), None));
    tiles.push(make_tile("Favorites", decimal(stats.favorite_items), None));
    tiles.push(make_tile("Resume", decimal(stats.resume_items), None));
    tiles.push(make_tile("Active Devices", decimal(stats.active_device_count), Some(status)));
    tiles.push(
        make_tile(
            "Watch Time",
            humanize_seconds(stats.watch_time_seconds),
            Some(String::from_str("estimated")),
        ),
    );
    assert(tiles_view(tiles@) =~= detail_tiles(*stats, online));
    let mut rows: Vec<RecentRow> = Vec::new();
    let mut i: usize = 0;
    while i < recent.len()
        invariant
            i <= recent.len(),
            now.valid(),
            forall|j: int| 0 <= j < recent.len() ==> #[trigger] recent@[j].wf(),
            rows.len() == i,
            forall|j: int| 0 <= j < i ==> #[trigger] rows@[j]@ == recent_row_of(now, recent@[j]),
        decreases recent.len() - i,
    {
        rows.push(recent_row(now, &recent[i]));
        i = i + 1;
    }
    UserDetailView {
        avatar_path,
        username: stats.username.clone(),
        is_admin: stats.is_admin,
        is_disabled: stats.is_disabled,
        meta,
        online,
        tiles,
        recent: rows,
    }
}

/// The user-detail page at the current time.
pub fn user_detail_view_now(stats: &UserStats, recent: &Vec<UserRecentItem>) -> (res: UserDetailView)
    requires
        stats.wf(),
        forall|i: int| 0 <= i < recent.len() ==> #[trigger] recent@[i].wf(),
    ensures
        exists|now: Timestamp| {
            &&& now.valid()
            &&& now.is_regular()
            &&& now.secs >= 0
            &&& res.meta@ == detail_meta(now, *stats)
            &&& res.online == is_online(now, stats.is_disabled, stats.last_activity_at)
            &&& forall|i: int| 0 <= i < recent.len() ==> #[trigger] res.recent@[i]@ == recent_row_of(now, recent@[i])
        },
        res.avatar_path@ == image_path(stats.user_id),
        res.username@ == stats.username@,
        res.is_admin == stats.is_admin,
        res.is_disabled == stats.is_disabled,
        tiles_view(res.tiles@) == detail_tiles(*stats, res.online),
        res.recent.len() == recent.len(),
{
    let now = chrono_now();
    user_detail_view(now, stats, recent)
}

/// One leaderboard line of the users card.
#[derive(Debug, Clone, PartialEq)]
pub struct TopUserLine {
    pub user_id: u128,
    pub username: String,
    /// "<n> plays".
    pub plays: String,
}

/// What the dashboard's users card shows.
#[derive(Debug, Clone, PartialEq)]
pub struct OverviewCard {
    pub tiles: Vec<StatTile>,
    /// At most the first five leaderboard entries; none means "No playback
    /// activity yet".
    pub top: Vec<TopUserLine>,
}

/// Totals, admins, disabled accounts, active in 24 hours (noted with the
/// 7-day count) and total plays.
pub open spec fn overview_tiles(s: UsersOverviewStats) -> Seq<StatTileView> {
    seq![
        tile("Total"@, int_decimal(s.total_users as int), None),
        tile("Admins"@, int_decimal(s.admin_users as int), None),
        tile("Disabled"@, int_decimal(s.disabled_users as int), None),
        tile("Active 24h"@, int_decimal(s.active_24h as int), Some(int_decimal(s.active_7d as int) + " in last 7d"@)),
        tile("Total Plays"@, int_decimal(s.total_plays as int), None),
    ]
}

pub open spec fn top_line_matches(line: TopUserLine, u: TopUserStat) -> bool {
    &&& line.user_id == u.user_id
    &&& line.username@ == u.username@
    &&& line.plays@ == int_decimal(u.total_plays as int) + " plays"@
}

/// `c` is what the users card shows of `s`: its tiles, and the first five
/// entries of its leaderboard.
pub open spec fn overview_shows(c: OverviewCard, s: UsersOverviewStats) -> bool {
    &&& tiles_view(c.tiles@) == overview_tiles(s)
    &&& c.top.len() == (if s.top_users.len() < 5 { s.top_users.len() } else { 5 })
    &&& forall|i: int| 0 <= i < c.top.len() ==> top_line_matches(#[trigger] c.top@[i], s.top_users@[i])
}

/// The users card for the dashboard statistics.
pub fn overview_card(s: &UsersOverviewStats) -> (res: OverviewCard)
    ensures
        overview_shows(res, *s),
{
    let mut tiles: Vec<StatTile> = Vec::new();
    tiles.push(make_tile("Total", decimal(s.total_users), None));
    tiles.push(make_tile("Admins", decimal(s.admin_users), None));
    tiles.push(make_tile("Disabled", decimal(s.disabled_users), None));
    let mut week = decimal(s.active_7d);
    week.append(" in last 7d");
    tiles.push(make_tile("Active 24h", decimal(s.active_24h), Some(week)));
    tiles.push(make_tile("Total Plays", decimal(s.total_plays), None));
    assert(tiles_view(tiles@) =~= overview_tiles(*s));
    let n = if s.top_users.len() < 5 { s.top_users.len() } else { 5 };
    let mut top: Vec<TopUserLine> = Vec::new();
    let mut i: usize = 0;
    while i < n
        invariant
            n <= s.top_users.len(),
            i <= n,
            top.len() == i,
            forall|j: int| 0 <= j < i ==> top_line_matches(#[trigger] top@[j], s.top_users@[j]),
        decreases n - i,
    {
        let u = &s.top_users[i];
        let mut plays = decimal(u.total_plays);
        plays.append(" plays");
        top.push(TopUserLine { user_id: u.user_id, username: u.username.clone(), plays });
        i = i + 1;
    }
    OverviewCard { tiles, top }
}

/// The users card's tiles, in order, name the value each shows: "Total" the
/// number of users, "Admins" the administrators, "Disabled" the disabled
/// accounts, "Active 24h" those active in the last day (noted with those of
/// the last week) and "Total Plays" all plays.
pub proof fn lemma_overview_tiles_name_their_values(c: OverviewCard, s: UsersOverviewStats)
    requires
        overview_shows(c, s),
    ensures
        c.tiles.len() == 5,
        c.tiles@[0]@ == (StatTileView { label: "Total"@, value: int_decimal(s.total_users as int), sub: None }),
        c.tiles@[1]@ == (StatTileView { label: "Admins"@, value: int_decimal(s.admin_users as int), sub: None }),
        c.tiles@[2]@ == (StatTileView {
            label: "Disabled"@,
            value: int_decimal(s.disabled_users as int),
            sub: None,
        }),
        c.tiles@[3]@ == (StatTileView {
            label: "Active 24h"@,
            value: int_decimal(s.active_24h as int),
            sub: Some(int_decimal(s.active_7d as int) + " in last 7d"@),
        }),
        c.tiles@[4]@ == (StatTileView {
            label: "Total Plays"@,
            value: int_decimal(s.total_plays as int),
            sub: None,
        }),
{
    assert(tiles_view(c.tiles@).len() == c.tiles@.len());
    assert(tiles_view(c.tiles@)[0] == c.tiles@[0]@);
    assert(tiles_view(c.tiles@)[1] == c.tiles@[1]@);
    assert(tiles_view(c.tiles@)[2] == c.tiles@[2]@);
    assert(tiles_view(c.tiles@)[3] == c.tiles@[3]@);
    assert(tiles_view(c.tiles@)[4] == c.tiles@[4]@);
}

/// The detail page's tiles, in order, name the value each shows: plays,
/// played items, favorites, resumable items, active devices (noted online or
/// offline) and the estimated watch time.
pub proof fn lemma_detail_tiles_name_their_values(now: Timestamp, v: UserDetailView, s: UserStats, recent: Seq<
    UserRecentItem,
>)
    requires
        detail_shows(now, v, s, recent),
    ensures
        v.tiles.len() == 6,
        v.tiles@[0]@ == (StatTileView { label: "Total Plays"@, value: int_decimal(s.total_plays as int), sub: None }),
        v.tiles@[1]@ == (StatTileView {
            label: "Played Items"@,
            value: int_decimal(s.played_items as int),
            sub: None,
        }),
        v.tiles@[2]@ == (StatTileView { label: "Favorites"@, value: int_decimal(s.favorite_items as int), sub: None }),
        v.tiles@[3]@ == (StatTileView { label: "Resume"@, value: int_decimal(s.resume_items as int), sub: None }),
        v.tiles@[4]@ == (StatTileView {
            label: "Active Devices"@,
            value: int_decimal(s.active_device_count as int),
            sub: Some(if v.online { "online"@ } else { "offline"@ }),
        }),
        v.tiles@[5]@ == (StatTileView {
            label: "Watch Time"@,
            value: duration_text(s.watch_time_seconds as int),
            sub: Some("estimated"@),
        }),
{
    assert(tiles_view(v.tiles@).len() == v.tiles@.len());
    assert(tiles_view(v.tiles@)[0] == v.tiles@[0]@);
    assert(tiles_view(v.tiles@)[1] == v.tiles@[1]@);
    assert(tiles_view(v.tiles@)[2] == v.tiles@[2]@);
    assert(tiles_view(v.tiles@)[3] == v.tiles@[3]@);
    assert(tiles_view(v.tiles@)[4] == v.tiles@[4]@);
    assert(tiles_view(v.tiles@)[5] == v.tiles@[5]@);
}

} // verus!
