//! The users page of the dashboard: the user records it lists, which of them
//! a search keeps, and what each row shows.

use vstd::prelude::*;
use vstd::std_specs::cmp::PartialEqSpecImpl;
use crate::ids::{uuid_string, uuid_text};
use crate::labels::{initials, initials_text, parse_dt, relative_text, relative_time_at};
use crate::stats::ACTIVE_WINDOW_MINUTES;
use crate::text::{lowercase, seq_contains, std_lowercase, str_contains};
use crate::time::{
    chrono_now, chrono_rfc3339_instant, chrono_rfc3339_text, chrono_seconds_between,
    chrono_seconds_since, chrono_to_rfc3339, in_rfc3339_years, instant_of, trunc_div, Timestamp,
};

verus! {

/// Whether all or any of a filter's parts must match.
#[derive(Debug, Clone, Copy, PartialEq, Eq, Structural)]
pub enum FilterMatchMode {
    All,
    Any,
}

/// One rule of a library filter.
#[derive(Debug, Clone, PartialEq)]
pub struct FilterRule {
    pub field: String,
    pub operator: String,
    pub value: String,
}

/// A group of library filter rules.
#[derive(Debug, Clone, PartialEq)]
pub struct FilterGroup {
    pub rules: Vec<FilterRule>,
}

/// The library filter of a user's policy.
#[derive(Debug, Clone, PartialEq)]
pub struct CollectionFilter {
    pub match_mode: FilterMatchMode,
    pub groups: Vec<FilterGroup>,
}

/// One rule of a stream filter.
#[derive(Debug, Clone, PartialEq)]
pub struct StreamRule {
    pub field: String,
    pub operator: String,
    pub value: String,
}

/// The stream filter of a user's policy.
#[derive(Debug, Clone, PartialEq)]
pub struct StreamFilter {
    pub match_mode: FilterMatchMode,
    pub rules: Vec<StreamRule>,
}

/// The settings of a user account that the user form edits.
#[derive(Debug, Clone, PartialEq)]
pub struct UserPolicy {
    pub is_administrator: bool,
    pub is_disabled: bool,
    pub enable_remote_search: bool,
    pub max_active_sessions: i64,
    pub enable_video_playback_transcoding: bool,
    pub max_parental_rating: Option<i32>,
    pub blocked_tags: Vec<String>,
    pub filter_rules: Option<CollectionFilter>,
    pub stream_filter: Option<StreamFilter>,
}

/// A user account as the server lists it.
#[derive(Debug, Clone, PartialEq)]
pub struct UserDto {
    pub id: u128,
    pub name: String,
    pub primary_image_tag: Option<String>,
    pub last_login_date: Option<Timestamp>,
    pub last_activity_date: Option<Timestamp>,
    pub policy: UserPolicy,
}

pub struct RuleView {
    pub field: Seq<char>,
    pub operator: Seq<char>,
    pub value: Seq<char>,
}

impl View for FilterRule {
    type V = RuleView;

    open spec fn view(&self) -> RuleView {
        RuleView { field: self.field@, operator: self.operator@, value: self.value@ }
    }
}

impl View for StreamRule {
    type V = RuleView;

    open spec fn view(&self) -> RuleView {
        RuleView { field: self.field@, operator: self.operator@, value: self.value@ }
    }
}

impl View for FilterGroup {
    type V = Seq<RuleView>;

    open spec fn view(&self) -> Seq<RuleView> {
        self.rules@.map_values(|r: FilterRule| r@)
    }
}

pub struct CollectionFilterView {
    pub match_mode: FilterMatchMode,
    pub groups: Seq<Seq<RuleView>>,
}

impl View for CollectionFilter {
    type V = CollectionFilterView;

    open spec fn view(&self) -> CollectionFilterView {
        CollectionFilterView {
            match_mode: self.match_mode,
            groups: self.groups@.map_values(|g: FilterGroup| g@),
        }
    }
}

pub struct StreamFilterView {
    pub match_mode: FilterMatchMode,
    pub rules: Seq<RuleView>,
}

impl View for StreamFilter {
    type V = StreamFilterView;

    open spec fn view(&self) -> StreamFilterView {
        StreamFilterView {
            match_mode: self.match_mode,
            rules: self.rules@.map_values(|r: StreamRule| r@),
        }
    }
}

pub open spec fn collection_filter_view(f: Option<CollectionFilter>) -> Option<CollectionFilterView> {
    match f {
        Some(c) => Some(c@),
        None => None,
    }
}

pub open spec fn stream_filter_view(f: Option<StreamFilter>) -> Option<StreamFilterView> {
    match f {
        Some(c) => Some(c@),
        None => None,
    }
}

pub struct UserPolicyView {
    pub is_administrator: bool,
    pub is_disabled: bool,
    pub enable_remote_search: bool,
    pub max_active_sessions: i64,
    pub enable_video_playback_transcoding: bool,
    pub max_parental_rating: Option<i32>,
    pub blocked_tags: Seq<Seq<char>>,
    pub filter_rules: Option<CollectionFilterView>,
    pub stream_filter: Option<StreamFilterView>,
}

impl View for UserPolicy {
    type V = UserPolicyView;

    open spec fn view(&self) -> UserPolicyView {
        UserPolicyView {
            is_administrator: self.is_administrator,
            is_disabled: self.is_disabled,
            enable_remote_search: self.enable_remote_search,
            max_active_sessions: self.max_active_sessions,
            enable_video_playback_transcoding: self.enable_video_playback_transcoding,
            max_parental_rating: self.max_parental_rating,
            blocked_tags: self.blocked_tags.deep_view(),
            filter_rules: collection_filter_view(self.filter_rules),
            stream_filter: stream_filter_view(self.stream_filter),
        }
    }
}

pub struct UserDtoView {
    pub id: u128,
    pub name: Seq<char>,
    pub primary_image_tag: Option<Seq<char>>,
    pub last_login_date: Option<Timestamp>,
    pub last_activity_date: Option<Timestamp>,
    pub policy: UserPolicyView,
}

impl View for UserDto {
    type V = UserDtoView;

    open spec fn view(&self) -> UserDtoView {
        UserDtoView {
            id: self.id,
            name: self.name@,
            primary_image_tag: self.primary_image_tag.deep_view(),
            last_login_date: self.last_login_date,
            last_activity_date: self.last_activity_date,
            policy: self.policy@,
        }
    }
}

fn copy_text(s: &Option<String>) -> (res: Option<String>)
    ensures
        res.deep_view() == s.deep_view(),
{
    match s {
        Some(t) => Some(t.clone()),
        None => None,
    }
}

fn copy_texts(v: &Vec<String>) -> (res: Vec<String>)
    ensures
        res.deep_view() == v.deep_view(),
{
    let mut out: Vec<String> = Vec::new();
    let mut i: usize = 0;
    while i < v.len()
        invariant
            i <= v.len(),
            out.len() == i,
            forall|j: int| 0 <= j < i ==> #[trigger] out@[j]@ == v@[j]@,
        decreases v.len() - i,
    {
        out.push(v[i].clone());
        i = i + 1;
    }
    assert(out.deep_view() =~= v.deep_view());
    out
}

impl FilterRule {
    /// A copy with the same contents.
    pub fn duplicate(&self) -> (res: FilterRule)
        ensures
            res@ == self@,
    {
        FilterRule { field: self.field.clone(), operator: self.operator.clone(), value: self.value.clone() }
    }
}

impl StreamRule {
    /// A copy with the same contents.
    pub fn duplicate(&self) -> (res: StreamRule)
        ensures
            res@ == self@,
    {
        StreamRule { field: self.field.clone(), operator: self.operator.clone(), value: self.value.clone() }
    }
}

impl FilterGroup {
    /// A copy with the same contents.
    pub fn duplicate(&self) -> (res: FilterGroup)
        ensures
            res@ == self@,
    {
        let mut rules: Vec<FilterRule> = Vec::new();
        let mut i: usize = 0;
        while i < self.rules.len()
            invariant
                i <= self.rules.len(),
                rules.len() == i,
                forall|j: int| 0 <= j < i ==> #[trigger] rules@[j]@ == self.rules@[j]@,
            decreases self.rules.len() - i,
        {
            rules.push(self.rules[i].duplicate());
            i = i + 1;
        }
        let res = FilterGroup { rules };
        assert(res@ =~= self@);
        res
    }
}

fn copy_groups(v: &Vec<FilterGroup>) -> (res: Vec<FilterGroup>)
    ensures
        res@.map_values(|g: FilterGroup| g@) == v@.map_values(|g: FilterGroup| g@),
{
    let mut out: Vec<FilterGroup> = Vec::new();
    let mut i: usize = 0;
    while i < v.len()
        invariant
            i <= v.len(),
            out.len() == i,
            forall|j: int| 0 <= j < i ==> #[trigger] out@[j]@ == v@[j]@,
        decreases v.len() - i,
    {
        out.push(v[i].duplicate());
        i = i + 1;
    }
    assert(out@.map_values(|g: FilterGroup| g@) =~= v@.map_values(|g: FilterGroup| g@));
    out
}

fn copy_stream_rules(v: &Vec<StreamRule>) -> (res: Vec<StreamRule>)
    ensures
        res@.map_values(|r: StreamRule| r@) == v@.map_values(|r: StreamRule| r@),
{
    let mut out: Vec<StreamRule> = Vec::new();
    let mut i: usize = 0;
    while i < v.len()
        invariant
            i <= v.len(),
            out.len() == i,
            forall|j: int| 0 <= j < i ==> #[trigger] out@[j]@ == v@[j]@,
        decreases v.len() - i,
    {
        out.push(v[i].duplicate());
        i = i + 1;
    }
    assert(out@.map_values(|r: StreamRule| r@) =~= v@.map_values(|r: StreamRule| r@));
    out
}

impl CollectionFilter {
    /// A copy with the same contents.
    pub fn duplicate(&self) -> (res: CollectionFilter)
        ensures
            res@ == self@,
    {
        CollectionFilter { match_mode: self.match_mode, groups: copy_groups(&self.groups) }
    }
}

impl StreamFilter {
    /// A copy with the same contents.
    pub fn duplicate(&self) -> (res: StreamFilter)
        ensures
            res@ == self@,
    {
        StreamFilter { match_mode: self.match_mode, rules: copy_stream_rules(&self.rules) }
    }
}

impl UserPolicy {
    /// A copy with the same contents.
    pub fn duplicate(&self) -> (res: UserPolicy)
        ensures
            res@ == self@,
    {
        UserPolicy {
            is_administrator: self.is_administrator,
            is_disabled: self.is_disabled,
            enable_remote_search: self.enable_remote_search,
            max_active_sessions: self.max_active_sessions,
            enable_video_playback_transcoding: self.enable_video_playback_transcoding,
            max_parental_rating: self.max_parental_rating,
            blocked_tags: copy_texts(&self.blocked_tags),
            filter_rules: match &self.filter_rules {
                Some(f) => Some(f.duplicate()),
                None => None,
            },
            stream_filter: match &self.stream_filter {
                Some(f) => Some(f.duplicate()),
                None => None,
            },
        }
    }
}

impl UserDto {
    /// A copy with the same contents.
    pub fn duplicate(&self) -> (res: UserDto)
        ensures
            res@ == self@,
    {
        UserDto {
            id: self.id,
            name: self.name.clone(),
            primary_image_tag: copy_text(&self.primary_image_tag),
            last_login_date: self.last_login_date,
            last_activity_date: self.last_activity_date,
            policy: self.policy.duplicate(),
        }
    }
}

impl UserDto {
    /// Its times fall in the years 0 to 9999.
    pub open spec fn times_in_rfc3339_years(self) -> bool {
        &&& (self.last_login_date matches Some(t) ==> in_rfc3339_years(t))
        &&& (self.last_activity_date matches Some(t) ==> in_rfc3339_years(t))
    }

    /// Its times are instants that `chrono` represents.
    pub open spec fn wf(self) -> bool {
        &&& (self.last_login_date matches Some(t) ==> t.valid())
        &&& (self.last_activity_date matches Some(t) ==> t.valid())
    }
}

/// Whether the user form creates an account or edits the given one.
#[derive(Clone, Debug)]
pub enum UserFormMode {
    Create,
    Edit(UserDto),
}

impl UserFormMode {
    /// Two modes are the same when both create, or both edit the same
    /// account (by id, whatever else the records hold).
    pub open spec fn same_mode(self, other: Self) -> bool {
        match (self, other) {
            (UserFormMode::Create, UserFormMode::Create) => true,
            (UserFormMode::Edit(a), UserFormMode::Edit(b)) => a.id == b.id,
            _ => false,
        }
    }
}

impl PartialEq for UserFormMode {
    fn eq(&self, other: &Self) -> (res: bool) {
        match (self, other) {
            (UserFormMode::Create, UserFormMode::Create) => true,
            (UserFormMode::Edit(a), UserFormMode::Edit(b)) => a.id == b.id,
            _ => false,
        }
    }
}

impl PartialEqSpecImpl for UserFormMode {
    open spec fn obeys_eq_spec() -> bool {
        true
    }

    open spec fn eq_spec(&self, other: &Self) -> bool {
        self.same_mode(*other)
    }
}

/// The equality of form modes is an equivalence: reflexive, symmetric and
/// transitive.
pub proof fn lemma_form_mode_eq_is_equivalence(a: UserFormMode, b: UserFormMode, c: UserFormMode)
    ensures
        a.same_mode(a),
        a.same_mode(b) == b.same_mode(a),
        a.same_mode(b) && b.same_mode(c) ==> a.same_mode(c),
{
}

/// A user is kept by a search whose lower-cased text is `query` when that text
/// is empty or occurs in the lower-cased name.
pub open spec fn search_keeps(name: Seq<char>, query: Seq<char>) -> bool {
    query.len() == 0 || seq_contains(std_lowercase(name), query)
}

/// The users a search keeps, in their order.
pub open spec fn search_results(users: Seq<UserDto>, search: Seq<char>) -> Seq<UserDto> {
    users.filter(|u: UserDto| search_keeps(u.name@, std_lowercase(search)))
}

/// Filters users by a search term: a case-insensitive substring match on the
/// name; an empty term keeps everyone.
pub fn filter_users(users: Vec<UserDto>, search: &str) -> (res: Vec<UserDto>)
    ensures
        res@ == search_results(users@, search@),
        search@.len() == 0 ==> res@ == users@,
{
    let ghost all = users@;
    let ghost q = std_lowercase(search@);
    let ghost pred = |u: UserDto| search_keeps(u.name@, q);
    let query = lowercase(search);
    proof {
        if search@.len() == 0 {
            lemma_empty_search_keeps_everyone(all, search@);
        }
    }
    let mut kept: Vec<UserDto> = Vec::new();
    for u in it: users.into_iter()
        invariant
            it.seq() == all,
            query@ == q,
            pred == (|u: UserDto| search_keeps(u.name@, q)),
            kept@ == all.take(it.index() as int).filter(pred),
    {
        let ghost i = it.index();
        proof {
            reveal_with_fuel(Seq::<_>::filter, 1);
            assert(all.take(i + 1).drop_last() =~= all.take(i as int));
            assert(all.take(i + 1).last() == u);
        }
        let name_lower = lowercase(u.name.as_str());
        let keep = query.as_str().is_empty() || str_contains(name_lower.as_str(), query.as_str());
        assert(keep == pred(u));
        if keep {
            kept.push(u);
        }
    }
    assert(all.take(all.len() as int) =~= all);
    kept
}

/// Whole minutes from `d` to `now`, as `chrono`'s `num_minutes` counts them.
pub open spec fn minutes_since(now: Timestamp, d: Timestamp) -> int {
    trunc_div(chrono_seconds_between(now.secs, now.nanos, d.secs, d.nanos) as int, 60)
}

/// A user counts as online when not disabled and last active less than 16
/// minutes ago.
pub open spec fn is_online(now: Timestamp, disabled: bool, last_activity: Option<Timestamp>) -> bool {
    !disabled && match last_activity {
        Some(d) => minutes_since(now, d) < ACTIVE_WINDOW_MINUTES,
        None => false,
    }
}

/// Whether a user is online at `now`.
pub fn online_at(now: Timestamp, disabled: bool, last_activity: Option<Timestamp>) -> (res: bool)
    requires
        now.valid(),
        last_activity matches Some(d) ==> d.valid(),
    ensures
        res == is_online(now, disabled, last_activity),
{
    if disabled {
        return false;
    }
    match last_activity {
        None => false,
        Some(d) => {
            let secs = chrono_seconds_since(now, d) as i128;
            let mins: i128 = if secs >= 0 { secs / 60 } else { -((-secs) / 60) };
            mins < ACTIVE_WINDOW_MINUTES as i128
        },
    }
}

/// A time of a user record as the page reads it: written as RFC 3339 and
/// read back.
pub open spec fn reread(t: Option<Timestamp>) -> Option<Timestamp> {
    match t {
        Some(d) => instant_of(chrono_rfc3339_instant(chrono_rfc3339_text(d.secs, d.nanos))),
        None => None,
    }
}

fn reread_time(t: Option<Timestamp>) -> (res: Option<Timestamp>)
    requires
        t matches Some(d) ==> d.valid(),
    ensures
        res == reread(t),
        res matches Some(d) ==> d.valid(),
        (t matches Some(d) ==> in_rfc3339_years(d)) ==> res == t,
{
    match t {
        Some(d) => {
            let text = chrono_to_rfc3339(d);
            parse_dt(&Some(text))
        },
        None => None,
    }
}

fn lit(s: &str) -> (res: String)
    ensures
        res@ == s@,
{
    String::from_str(s)
}

/// What the avatar of a row shows.
#[derive(Debug, Clone, PartialEq)]
pub enum Avatar {
    /// The user's primary image, at this address.
    Image(String),
    /// The initials of the user's name.
    Initials(String),
}

/// Everything one row of the users list shows.
#[derive(Debug, Clone, PartialEq)]
pub struct UserRow {
    /// The row is the signed-in user ("You" badge).
    pub is_self: bool,
    /// "Admin" badge.
    pub is_admin: bool,
    /// "Disabled" badge.
    pub is_disabled: bool,
    pub online: bool,
    pub status_class: String,
    pub status_title: String,
    pub avatar: Avatar,
    /// "login: … · active: …".
    pub meta: String,
    pub toggle_title: String,
    pub toggle_label: String,
    /// The enable/disable button is usable (not on oneself).
    pub can_toggle: bool,
    /// The delete button is usable (not on oneself).
    pub can_delete: bool,
}

pub open spec fn status_class_text(disabled: bool, online: bool) -> Seq<char> {
    if disabled {
        "user-status user-status-disabled"@
    } else if online {
        "user-status user-status-online"@
    } else {
        "user-status"@
    }
}

pub open spec fn status_title_text(disabled: bool, online: bool) -> Seq<char> {
    if disabled {
        "Disabled"@
    } else if online {
        "Active now"@
    } else {
        "Offline"@
    }
}

pub open spec fn image_path(id: u128) -> Seq<char> {
    "/users/"@ + uuid_text(id) + "/images/primary"@
}

pub open spec fn row_meta(now: Timestamp, user: UserDto) -> Seq<char> {
    "login: "@ + relative_text(now, reread(user.last_login_date)) + "  \u{b7}  active: "@
        + relative_text(now, reread(user.last_activity_date))
}

/// The row of `user` in the list seen by the signed-in user `self_id` at `now`.
pub fn user_row(user: &UserDto, self_id: &String, now: Timestamp) -> (res: UserRow)
    requires
        user.wf(),
        now.valid(),
    ensures
        res.is_self == (uuid_text(user.id) == self_id@),
        res.is_admin == user.policy.is_administrator,
        res.is_disabled == user.policy.is_disabled,
        res.online == is_online(now, user.policy.is_disabled, reread(user.last_activity_date)),
        res.status_class@ == status_class_text(res.is_disabled, res.online),
        res.status_title@ == status_title_text(res.is_disabled, res.online),
        match res.avatar {
            Avatar::Image(p) => user.primary_image_tag is Some && p@ == image_path(user.id),
            Avatar::Initials(t) => user.primary_image_tag is None && t@ == initials_text(user.name@),
        },
        res.meta@ == row_meta(now, *user),
        user.times_in_rfc3339_years() ==> res.online == is_online(
            now,
            user.policy.is_disabled,
            user.last_activity_date,
        ) && res.meta@ == "login: "@ + relative_text(now, user.last_login_date) + "  \u{b7}  active: "@
            + relative_text(now, user.last_activity_date),
        res.toggle_title@ == (if res.is_disabled { "Enable user"@ } else { "Disable user"@ }),
        res.toggle_label@ == (if res.is_disabled { "Enable"@ } else { "Disable"@ }),
        res.can_toggle == !res.is_self,
        res.can_delete == !res.is_self,
{
    let id_text = uuid_string(user.id);
    let is_self = id_text == *self_id;
    let is_admin = user.policy.is_administrator;
    let is_disabled = user.policy.is_disabled;
    let last_login = reread_time(user.last_login_date);
    let last_activity = reread_time(user.last_activity_date);
    let online = online_at(now, is_disabled, last_activity);
    let status_class = if is_disabled {
        lit("user-status user-status-disabled")
    } else if online {
        lit("user-status user-status-online")
    } else {
        lit("user-status")
    };
    let status_title = if is_disabled {
        lit("Disabled")
    } else if online {
        lit("Active now")
    } else {
        lit("Offline")
    };
    let avatar = match &user.primary_image_tag {
        Some(_) => {
            let mut p = lit("/users/");
            p.append(id_text.as_str());
            p.append("/images/primary");
            Avatar::Image(p)
        },
        None => Avatar::Initials(initials(user.name.as_str())),
    };
    let mut meta = lit("login: ");
    let login_text = relative_time_at(now, last_login);
    meta.append(login_text.as_str());
    meta.append("  \u{b7}  active: ");
    let activity_text = relative_time_at(now, last_activity);
    meta.append(activity_text.as_str());
    let toggle_title = if is_disabled { lit("Enable user") } else { lit("Disable user") };
    let toggle_label = if is_disabled { lit("Enable") } else { lit("Disable") };
    UserRow {
        is_self,
        is_admin,
        is_disabled,
        online,
        status_class,
        status_title,
        avatar,
        meta,
        toggle_title,
        toggle_label,
        can_toggle: !is_self,
        can_delete: !is_self,
    }
}

/// The row of `user` for the signed-in user `self_id`, at the current time.
pub fn user_row_now(user: &UserDto, self_id: &String) -> (res: UserRow)
    requires
        user.wf(),
    ensures
        exists|now: Timestamp| {
            &&& now.valid()
            &&& now.is_regular()
            &&& now.secs >= 0
            &&& res.meta@ == row_meta(now, *user)
            &&& res.online == is_online(now, user.policy.is_disabled, reread(user.last_activity_date))
            &&& user.times_in_rfc3339_years() ==> res.online == is_online(
                now,
                user.policy.is_disabled,
                user.last_activity_date,
            ) && res.meta@ == "login: "@ + relative_text(now, user.last_login_date)
                + "  \u{b7}  active: "@ + relative_text(now, user.last_activity_date)
        },
        res.is_self == (uuid_text(user.id) == self_id@),
        res.is_admin == user.policy.is_administrator,
        res.is_disabled == user.policy.is_disabled,
        res.status_class@ == status_class_text(res.is_disabled, res.online),
        res.status_title@ == status_title_text(res.is_disabled, res.online),
        match res.avatar {
            Avatar::Image(p) => user.primary_image_tag is Some && p@ == image_path(user.id),
            Avatar::Initials(t) => user.primary_image_tag is None && t@ == initials_text(user.name@),
        },
        res.toggle_title@ == (if res.is_disabled { "Enable user"@ } else { "Disable user"@ }),
        res.toggle_label@ == (if res.is_disabled { "Enable"@ } else { "Disable"@ }),
        res.can_toggle == !res.is_self,
        res.can_delete == !res.is_self,
{
    let now = chrono_now();
    user_row(user, self_id, now)
}

/// The policy that the enable/disable button sends: the same policy with the
/// account's disabled flag flipped.
pub fn toggled_policy(policy: UserPolicy) -> (res: UserPolicy)
    ensures
        res@ == toggle_view(policy@),
{
    let mut p = policy;
    p.is_disabled = !p.is_disabled;
    p
}

/// Toggling an account twice restores its policy.
pub proof fn lemma_toggle_twice(policy: UserPolicyView)
    ensures
        toggle_view(toggle_view(policy)) == policy,
{
}

/// The policy with the account's disabled flag flipped.
pub open spec fn toggle_view(policy: UserPolicyView) -> UserPolicyView {
    UserPolicyView { is_disabled: !policy.is_disabled, ..policy }
}

/// What the list area of the users page shows.
#[derive(Debug, Clone, Copy, PartialEq, Eq, Structural)]
pub enum UsersListView {
    Loading,
    Error,
    /// "No users found".
    NoUsers,
    /// "No users match your search".
    NoMatches,
    Rows,
}

/// The list area: loading first, then a load error, then the empty states
/// (no users at all, none matching), else the rows.
pub fn users_list_view(loading: bool, failed: bool, total: usize, shown: usize) -> (res: UsersListView)
    ensures
        res == (if loading {
            UsersListView::Loading
        } else if failed {
            UsersListView::Error
        } else if total == 0 {
            UsersListView::NoUsers
        } else if shown == 0 {
            UsersListView::NoMatches
        } else {
            UsersListView::Rows
        }),
{
    if loading {
        UsersListView::Loading
    } else if failed {
        UsersListView::Error
    } else if total == 0 {
        UsersListView::NoUsers
    } else if shown == 0 {
        UsersListView::NoMatches
    } else {
        UsersListView::Rows
    }
}

proof fn lemma_filter_all<A>(s: Seq<A>, pred: spec_fn(A) -> bool)
    requires
        forall|i: int| 0 <= i < s.len() ==> pred(#[trigger] s[i]),
    ensures
        s.filter(pred) == s,
    decreases s.len(),
{
    reveal_with_fuel(Seq::<_>::filter, 1);
    if s.len() > 0 {
        lemma_filter_all(s.drop_last(), pred);
        assert(pred(s[s.len() - 1]));
        assert(s.drop_last().push(s.last()) =~= s);
    } else {
        assert(s =~= Seq::<A>::empty());
    }
}

/// A search whose lower-cased text is empty keeps every user, in order.
pub proof fn lemma_empty_search_keeps_everyone(users: Seq<UserDto>, search: Seq<char>)
    requires
        std_lowercase(search).len() == 0,
    ensures
        search_results(users, search) == users,
{
    lemma_filter_all(users, |u: UserDto| search_keeps(u.name@, std_lowercase(search)));
}

/// A search keeps exactly the users whose lower-cased name contains its
/// lower-cased text (or everyone, when that text is empty): every kept user
/// matches, and every user that matches is kept.
pub proof fn lemma_search_keeps_exactly_the_matches(users: Seq<UserDto>, search: Seq<char>)
    ensures
        forall|i: int| 0 <= i < search_results(users, search).len() ==> search_keeps(
            (#[trigger] search_results(users, search)[i]).name@,
            std_lowercase(search),
        ),
        forall|i: int| 0 <= i < users.len() && search_keeps((#[trigger] users[i]).name@, std_lowercase(search))
            ==> search_results(users, search).contains(users[i]),
        search_results(users, search).len() <= users.len(),
{
    let pred = |u: UserDto| search_keeps(u.name@, std_lowercase(search));
    broadcast use Seq::lemma_filter_pred, Seq::lemma_filter_contains, Seq::lemma_filter_len;
    assert forall|i: int| 0 <= i < search_results(users, search).len() implies search_keeps(
        (#[trigger] search_results(users, search)[i]).name@,
        std_lowercase(search),
    ) by {
        assert(pred(users.filter(pred)[i]));
    }
    assert forall|i: int| 0 <= i < users.len() && search_keeps((#[trigger] users[i]).name@, std_lowercase(search))
        implies search_results(users, search).contains(users[i]) by {
        assert(pred(users[i]));
    }
}

/// Online means active less than 16 minutes (960 seconds) ago, counting
/// whole seconds: a user not disabled is online exactly when fewer than 960
/// whole seconds have passed since their last activity (a last activity in
/// the future counts too).
pub proof fn lemma_online_within_window(now: Timestamp, d: Timestamp)
    ensures
        is_online(now, false, Some(d)) <==> chrono_seconds_between(now.secs, now.nanos, d.secs, d.nanos) < 960,
        !is_online(now, true, Some(d)),
{
    let s = chrono_seconds_between(now.secs, now.nanos, d.secs, d.nanos) as int;
    if s >= 0 {
        assert(trunc_div(s, 60) == s / 60);
    } else {
        assert(trunc_div(s, 60) == -((-s) / 60));
    }
}

/// The search is a case-insensitive substring match on the name: the users
/// kept, in their order, are those whose lower-cased name contains the
/// lower-cased search text, or all of them when that text is empty.
pub proof fn lemma_search_is_case_insensitive_substring(users: Seq<UserDto>, search: Seq<char>)
    ensures
        search_results(users, search) == users.filter(
            |u: UserDto|
                std_lowercase(search).len() == 0 || seq_contains(std_lowercase(u.name@), std_lowercase(search)),
        ),
{
    let kept = |u: UserDto| search_keeps(u.name@, std_lowercase(search));
    let matching = |u: UserDto|
        std_lowercase(search).len() == 0 || seq_contains(std_lowercase(u.name@), std_lowercase(search));
    assert(kept =~= matching);
}

} // verus!
