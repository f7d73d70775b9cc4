//! How the dashboard's pages talk to the server: the requests they send, and
//! what each answer makes of what they show.

use vstd::prelude::*;
use crate::activity::{ActivityLog, ActivityLogFilter, ACTIVITY_CARD_LIMIT};
use crate::dashboard::{
    detail_shows, overview_card, overview_shows, user_detail_view, OverviewCard, UserDetailView,
};
use crate::ids::{uuid_string, uuid_text};
use crate::stats::{UserRecentItem, UserStats, UsersOverviewStats};
use crate::time::Timestamp;
use crate::users::{toggle_view, toggled_policy, UserDto, UserFormMode, UserPolicy, UserPolicyView};

verus! {

/// A request of the dashboard to the server.
#[derive(Debug, Clone, PartialEq)]
pub enum ServerRequest {
    /// Every user account.
    GetUsers,
    /// Replace the policy of an account.
    UpdateUserPolicy { user_id: u128, policy: UserPolicy },
    /// Delete an account.
    DeleteUser { user_id: u128 },
    /// The statistics of an account and at most `recent` of the items it
    /// played last.
    GetUserStats { user_id: u128, recent: Option<u32> },
    /// The statistics of all accounts together.
    GetUsersOverviewStats,
    /// The activity-log entries that the filter selects.
    GetActivityLogEntries(ActivityLogFilter),
}

pub enum ServerRequestView {
    GetUsers,
    UpdateUserPolicy { user_id: u128, policy: UserPolicyView },
    DeleteUser { user_id: u128 },
    GetUserStats { user_id: u128, recent: Option<u32> },
    GetUsersOverviewStats,
    GetActivityLogEntries(ActivityLogFilter),
}

impl View for ServerRequest {
    type V = ServerRequestView;

    open spec fn view(&self) -> ServerRequestView {
        match self {
            ServerRequest::GetUsers => ServerRequestView::GetUsers,
            ServerRequest::UpdateUserPolicy { user_id, policy } => ServerRequestView::UpdateUserPolicy {
                user_id: *user_id,
                policy: policy@,
            },
            ServerRequest::DeleteUser { user_id } => ServerRequestView::DeleteUser { user_id: *user_id },
            ServerRequest::GetUserStats { user_id, recent } => ServerRequestView::GetUserStats {
                user_id: *user_id,
                recent: *recent,
            },
            ServerRequest::GetUsersOverviewStats => ServerRequestView::GetUsersOverviewStats,
            ServerRequest::GetActivityLogEntries(f) => ServerRequestView::GetActivityLogEntries(*f),
        }
    }
}

pub open spec fn request_view(r: Option<ServerRequest>) -> Option<ServerRequestView> {
    match r {
        Some(q) => Some(q@),
        None => None,
    }
}

/// What a page holds of a value that it loads from the server.
#[derive(Debug, Clone, PartialEq)]
pub struct Loadable<T> {
    /// A request for the value is under way.
    pub loading: bool,
    /// The value last received.
    pub value: Option<T>,
    /// The message of the last failed load; a successful load clears it.
    pub error: Option<String>,
}

/// `after` is `before` once the answer `reply` has come: no longer loading;
/// on success the value received and no error; on failure the value kept and
/// the message `prefix` followed by the failure's text.
pub open spec fn finished<T>(before: Loadable<T>, reply: Result<T, String>, prefix: Seq<char>, after: Loadable<T>) -> bool {
    &&& !after.loading
    &&& match reply {
        Ok(v) => after.value == Some(v) && after.error is None,
        Err(m) => after.value == before.value && after.error.deep_view() == Some(prefix + m@),
    }
}

impl<T> Loadable<T> {
    /// A page as it opens: its first load under way, nothing received yet.
    pub fn opening() -> (res: Loadable<T>)
        ensures
            res.loading,
            res.value is None,
            res.error is None,
    {
        Loadable { loading: true, value: None, error: None }
    }

    /// A new load starts: the page shows it loading and keeps what it had.
    pub fn reloading(self) -> (res: Loadable<T>)
        ensures
            res.loading,
            res.value == self.value,
            res.error == self.error,
    {
        Loadable { loading: true, ..self }
    }

    /// The answer to the load has come; a failure is shown as
    /// `failure_prefix` followed by its text.
    pub fn finish(self, reply: Result<T, String>, failure_prefix: &str) -> (res: Loadable<T>)
        ensures
            finished(self, reply, failure_prefix@, res),
    {
        match reply {
            Ok(v) => Loadable { loading: false, value: Some(v), error: None },
            Err(m) => {
                let mut text = String::from_str(failure_prefix);
                text.append(m.as_str());
                Loadable { loading: false, value: self.value, error: Some(text) }
            },
        }
    }
}

/// The request that a row's enable/disable button sends: the row's account,
/// with its policy and the disabled flag flipped.
pub fn toggle_request(user: &UserDto) -> (res: ServerRequest)
    ensures
        res@ == (ServerRequestView::UpdateUserPolicy { user_id: user.id, policy: toggle_view(user.policy@) }),
{
    ServerRequest::UpdateUserPolicy { user_id: user.id, policy: toggled_policy(user.policy.duplicate()) }
}

/// The request that a row's delete button sends: the row's account.
pub fn delete_request(user: &UserDto) -> (res: ServerRequest)
    ensures
        res@ == (ServerRequestView::DeleteUser { user_id: user.id }),
{
    ServerRequest::DeleteUser { user_id: user.id }
}

pub const USERS_FAILURE: &'static str = "Failed to load users: ";

/// The users page: the signed-in user's id, the account list, the search
/// text and the user form, when one is open.
#[derive(Debug, Clone, PartialEq)]
pub struct UsersPage {
    pub self_id: String,
    pub users: Loadable<Vec<UserDto>>,
    pub search: String,
    pub form: Option<UserFormMode>,
}

/// What happens on the users page.
#[derive(Debug)]
pub enum UsersEvent {
    /// The answer to the request for the account list.
    UsersLoaded(Result<Vec<UserDto>, String>),
    /// The search text is now this.
    SearchChanged(String),
    /// "+ New User".
    NewUserClicked,
    /// A row's "Edit".
    EditClicked(UserDto),
    /// A row's "Enable" or "Disable".
    ToggleClicked(UserDto),
    /// A row's "Delete".
    DeleteClicked(UserDto),
    /// The answer to an enable/disable or delete request, whether it
    /// succeeded or failed.
    ActionAnswered(Result<(), String>),
    /// The user form saved its changes.
    FormDone,
    /// The user form was cancelled.
    FormCancelled,
}

/// The page after `event`, and the request it sends, if any.
pub open spec fn users_step(p: UsersPage, event: UsersEvent, next: UsersPage, sent: Option<ServerRequest>) -> bool {
    &&& next.self_id == p.self_id
    &&& match event {
        UsersEvent::UsersLoaded(reply) => {
            &&& finished(p.users, reply, USERS_FAILURE@, next.users)
            &&& next.search == p.search
            &&& next.form == p.form
            &&& sent is None
        },
        UsersEvent::SearchChanged(s) => {
            &&& next == UsersPage { search: s, ..p }
            &&& sent is None
        },
        UsersEvent::NewUserClicked => {
            &&& next == UsersPage { form: Some(UserFormMode::Create), ..p }
            &&& sent is None
        },
        UsersEvent::EditClicked(u) => {
            &&& next == UsersPage { form: Some(UserFormMode::Edit(u)), ..p }
            &&& sent is None
        },
        UsersEvent::ToggleClicked(u) => {
            &&& next == p
            &&& request_view(sent) == if uuid_text(u.id) == p.self_id@ {
                None
            } else {
                Some(ServerRequestView::UpdateUserPolicy { user_id: u.id, policy: toggle_view(u.policy@) })
            }
        },
        UsersEvent::DeleteClicked(u) => {
            &&& next == p
            &&& request_view(sent) == if uuid_text(u.id) == p.self_id@ {
                None
            } else {
                Some(ServerRequestView::DeleteUser { user_id: u.id })
            }
        },
        UsersEvent::ActionAnswered(_) => {
            &&& next.users.loading
            &&& next.users.value == p.users.value
            &&& next.users.error == p.users.error
            &&& next.search == p.search
            &&& next.form == p.form
            &&& request_view(sent) == Some(ServerRequestView::GetUsers)
        },
        UsersEvent::FormDone => {
            &&& next.users.loading
            &&& next.users.value == p.users.value
            &&& next.users.error == p.users.error
            &&& next.search == p.search
            &&& next.form is None
            &&& request_view(sent) == Some(ServerRequestView::GetUsers)
        },
        UsersEvent::FormCancelled => {
            &&& next == UsersPage { form: None, ..p }
            &&& sent is None
        },
    }
}

impl UsersPage {
    /// The page as it opens for the signed-in user `self_id`: the account
    /// list is requested, the search is empty and no form is open.
    pub fn open(self_id: String) -> (res: (UsersPage, ServerRequest))
        ensures
            res.0.self_id == self_id,
            res.0.users.loading,
            res.0.users.value is None,
            res.0.users.error is None,
            res.0.search@ == Seq::<char>::empty(),
            res.0.form is None,
            res.1@ == ServerRequestView::GetUsers,
    {
        (
            UsersPage { self_id, users: Loadable::opening(), search: String::new(), form: None },
            ServerRequest::GetUsers,
        )
    }

    /// Whether `user` is the signed-in user, whose row cannot be disabled or
    /// deleted.
    fn is_self(&self, user: &UserDto) -> (res: bool)
        ensures
            res == (uuid_text(user.id) == self.self_id@),
    {
        let id_text = uuid_string(user.id);
        id_text == self.self_id
    }

    /// The next state of the page after `event`, and the request it sends.
    /// An answer to an enable/disable or delete request, and a saved form,
    /// each reload the account list once.
    pub fn step(self, event: UsersEvent) -> (res: (UsersPage, Option<ServerRequest>))
        ensures
            users_step(self, event, res.0, res.1),
    {
        match event {
            UsersEvent::UsersLoaded(reply) => {
                let UsersPage { self_id, users, search, form } = self;
                let users = users.finish(reply, USERS_FAILURE);
                (UsersPage { self_id, users, search, form }, None)
            },
            UsersEvent::SearchChanged(s) => (UsersPage { search: s, ..self }, None),
            UsersEvent::NewUserClicked => (UsersPage { form: Some(UserFormMode::Create), ..self }, None),
            UsersEvent::EditClicked(u) => (UsersPage { form: Some(UserFormMode::Edit(u)), ..self }, None),
            UsersEvent::ToggleClicked(u) => {
                if self.is_self(&u) {
                    (self, None)
                } else {
                    let request = toggle_request(&u);
                    (self, Some(request))
                }
            },
            UsersEvent::DeleteClicked(u) => {
                if self.is_self(&u) {
                    (self, None)
                } else {
                    let request = delete_request(&u);
                    (self, Some(request))
                }
            },
            UsersEvent::ActionAnswered(_) => {
                let UsersPage { self_id, users, search, form } = self;
                (UsersPage { self_id, users: users.reloading(), search, form }, Some(ServerRequest::GetUsers))
            },
            UsersEvent::FormDone => {
                let UsersPage { self_id, users, search, form: _ } = self;
                (
                    UsersPage { self_id, users: users.reloading(), search, form: None },
                    Some(ServerRequest::GetUsers),
                )
            },
            UsersEvent::FormCancelled => (UsersPage { form: None, ..self }, None),
        }
    }
}

/// How many of the items an account played last its detail page asks for.
pub const DETAIL_RECENT_ITEMS: u32 = 20;

pub const STATS_FAILURE: &'static str = "Failed to load stats: ";

/// The detail page of one account: its statistics and the items it played
/// last.
#[derive(Debug, Clone)]
pub struct UserDetailPage {
    pub user_id: u128,
    pub stats: Loadable<(UserStats, Vec<UserRecentItem>)>,
}

impl UserDetailPage {
    /// The page as it opens for the account `user_id`: its statistics and
    /// its 20 last played items are requested.
    pub fn open(user_id: u128) -> (res: (UserDetailPage, ServerRequest))
        ensures
            res.0.user_id == user_id,
            res.0.stats.loading,
            res.0.stats.value is None,
            res.0.stats.error is None,
            res.1@ == (ServerRequestView::GetUserStats { user_id, recent: Some(DETAIL_RECENT_ITEMS) }),
    {
        (
            UserDetailPage { user_id, stats: Loadable::opening() },
            ServerRequest::GetUserStats { user_id, recent: Some(DETAIL_RECENT_ITEMS) },
        )
    }

    /// The page once the answer to its request has come.
    pub fn on_stats(self, reply: Result<(UserStats, Vec<UserRecentItem>), String>) -> (res: UserDetailPage)
        ensures
            res.user_id == self.user_id,
            finished(self.stats, reply, STATS_FAILURE@, res.stats),
    {
        UserDetailPage { user_id: self.user_id, stats: self.stats.finish(reply, STATS_FAILURE) }
    }
}

pub const OVERVIEW_FAILURE: &'static str = "Failed to fetch user stats: ";

/// The dashboard's users card: the statistics of all accounts together.
#[derive(Debug, Clone)]
pub struct UsersCard {
    pub stats: Loadable<UsersOverviewStats>,
}

impl UsersCard {
    /// The card as it opens: the statistics are requested.
    pub fn open() -> (res: (UsersCard, ServerRequest))
        ensures
            res.0.stats.loading,
            res.0.stats.value is None,
            res.0.stats.error is None,
            res.1@ == ServerRequestView::GetUsersOverviewStats,
    {
        (UsersCard { stats: Loadable::opening() }, ServerRequest::GetUsersOverviewStats)
    }

    /// The card once the answer to its request has come.
    pub fn on_stats(self, reply: Result<UsersOverviewStats, String>) -> (res: UsersCard)
        ensures
            finished(self.stats, reply, OVERVIEW_FAILURE@, res.stats),
    {
        UsersCard { stats: self.stats.finish(reply, OVERVIEW_FAILURE) }
    }
}

pub const ACTIVITY_FAILURE: &'static str = "Failed to fetch activity log: ";

pub const NO_ACTIVITY: &'static str = "No activity recorded yet";

/// The filter of the activity card's request: the latest 200 entries, of any
/// account and type, at any date, without a count.
pub open spec fn is_activity_card_filter(f: ActivityLogFilter) -> bool {
    &&& f.user_id is None
    &&& f.log_type is None
    &&& f.since is None
    &&& f.limit == Some(ACTIVITY_CARD_LIMIT)
    &&& f.offset is None
    &&& !f.total_count
}

/// The dashboard's activity card: the latest entries of the activity log.
#[derive(Debug, Clone)]
pub struct ActivityCard {
    pub entries: Loadable<Vec<ActivityLog>>,
}

/// One row of the activity card: the entry's name, its overview when it has
/// one, and its type.
#[derive(Debug, Clone, PartialEq)]
pub struct ActivityRow {
    pub name: String,
    pub overview: Option<String>,
    pub kind: String,
}

/// What the activity card shows.
#[derive(Debug, Clone, PartialEq)]
pub enum ActivityCardView {
    Loading,
    Error(String),
    /// The log is empty: "No activity recorded yet".
    Empty(String),
    Rows(Vec<ActivityRow>),
}

/// The entries a card holds: none before the first answer.
pub open spec fn held_entries(v: Option<Vec<ActivityLog>>) -> Seq<ActivityLog> {
    match v {
        Some(e) => e@,
        None => seq![],
    }
}

/// `rows` show `entries`, one row per entry, in the same order.
pub open spec fn rows_show(rows: Seq<ActivityRow>, entries: Seq<ActivityLog>) -> bool {
    &&& rows.len() == entries.len()
    &&& forall|i: int|
        0 <= i < rows.len() ==> {
            &&& #[trigger] rows[i].name@ == entries[i].name@
            &&& rows[i].overview.deep_view() == entries[i].short_overview.deep_view()
            &&& rows[i].kind@ == entries[i].log_type@
        }
}

fn copy_text(s: &Option<String>) -> (res: Option<String>)
    ensures
        res.deep_view() == s.deep_view(),
{
    match s {
        Some(t) => Some(t.clone()),
        None => None,
    }
}

fn activity_rows(entries: &Vec<ActivityLog>) -> (res: Vec<ActivityRow>)
    ensures
        rows_show(res@, entries@),
{
    let mut rows: Vec<ActivityRow> = Vec::new();
    let mut i: usize = 0;
    while i < entries.len()
        invariant
            i <= entries.len(),
            rows_show(rows@, entries@.subrange(0, i as int)),
        decreases entries.len() - i,
    {
        let e = &entries[i];
        rows.push(ActivityRow { name: e.name.clone(), overview: copy_text(&e.short_overview), kind: e.log_type.clone() });
        i = i + 1;
        assert(rows_show(rows@, entries@.subrange(0, i as int))) by {
            assert forall|j: int| 0 <= j < rows@.len() implies {
                &&& #[trigger] rows@[j].name@ == entries@.subrange(0, i as int)[j].name@
                &&& rows@[j].overview.deep_view() == entries@.subrange(0, i as int)[j].short_overview.deep_view()
                &&& rows@[j].kind@ == entries@.subrange(0, i as int)[j].log_type@
            } by {
                if j < i - 1 {
                    assert(entries@.subrange(0, i - 1)[j] == entries@.subrange(0, i as int)[j]);
                }
            }
        }
    }
    assert(entries@.subrange(0, entries@.len() as int) =~= entries@);
    rows
}

impl ActivityCard {
    /// The card as it opens: the latest 200 entries are requested.
    pub fn open() -> (res: (ActivityCard, ServerRequest))
        ensures
            res.0.entries.loading,
            res.0.entries.value is None,
            res.0.entries.error is None,
            res.1@ matches ServerRequestView::GetActivityLogEntries(f) && is_activity_card_filter(f),
    {
        (ActivityCard { entries: Loadable::opening() }, ServerRequest::GetActivityLogEntries(ActivityLogFilter::activity_card()))
    }

    /// The card once the answer to its request has come.
    pub fn on_entries(self, reply: Result<Vec<ActivityLog>, String>) -> (res: ActivityCard)
        ensures
            finished(self.entries, reply, ACTIVITY_FAILURE@, res.entries),
    {
        ActivityCard { entries: self.entries.finish(reply, ACTIVITY_FAILURE) }
    }

    /// What the card shows: while loading only that; then a failure's
    /// message; then the empty-log message, or one row per entry.
    pub fn view(&self) -> (res: ActivityCardView)
        ensures
            res is Loading <==> self.entries.loading,
            res is Error <==> !self.entries.loading && self.entries.error is Some,
            res matches ActivityCardView::Error(m) ==> self.entries.error.deep_view() == Some(m@),
            res is Empty <==> !self.entries.loading && self.entries.error is None
                && held_entries(self.entries.value).len() == 0,
            res matches ActivityCardView::Empty(m) ==> m@ == NO_ACTIVITY@,
            res matches ActivityCardView::Rows(rows) ==> rows_show(rows@, held_entries(self.entries.value)),
    {
        if self.entries.loading {
            ActivityCardView::Loading
        } else {
            match &self.entries.error {
                Some(e) => ActivityCardView::Error(e.clone()),
                None => match &self.entries.value {
                    Some(v) => {
                        if v.len() == 0 {
                            ActivityCardView::Empty(String::from_str(NO_ACTIVITY))
                        } else {
                            ActivityCardView::Rows(activity_rows(v))
                        }
                    },
                    None => ActivityCardView::Empty(String::from_str(NO_ACTIVITY)),
                },
            }
        }
    }
}

/// The answer to an enable/disable or delete request reloads the account
/// list once whatever it says: success and failure lead to the same page,
/// and both send one request for the list.
pub proof fn lemma_action_answer_reloads_either_way(
    p: UsersPage,
    first: Result<(), String>,
    second: Result<(), String>,
    after_first: UsersPage,
    sent_first: Option<ServerRequest>,
    after_second: UsersPage,
    sent_second: Option<ServerRequest>,
)
    requires
        users_step(p, UsersEvent::ActionAnswered(first), after_first, sent_first),
        users_step(p, UsersEvent::ActionAnswered(second), after_second, sent_second),
    ensures
        after_first == after_second,
        after_first.users.loading,
        request_view(sent_first) == Some(ServerRequestView::GetUsers),
        request_view(sent_second) == Some(ServerRequestView::GetUsers),
{
}

/// What a card or page that loads one value shows: while loading only that;
/// then a failure's message; then what the value gives, or nothing before
/// any value has come.
#[derive(Debug, Clone, PartialEq)]
pub enum PanelView<C> {
    Loading,
    Error(String),
    Shown(C),
    Blank,
}

/// The case of `PanelView` that `l` falls under; the content of `Shown` is
/// stated apart.
pub open spec fn panel_case<T, C>(l: Loadable<T>, v: PanelView<C>) -> bool {
    &&& v is Loading <==> l.loading
    &&& v is Error <==> !l.loading && l.error is Some
    &&& v matches PanelView::Error(m) ==> l.error.deep_view() == Some(m@)
    &&& v is Shown <==> !l.loading && l.error is None && l.value is Some
}

impl UsersCard {
    /// What the card shows.
    pub fn view(&self) -> (res: PanelView<OverviewCard>)
        ensures
            panel_case(self.stats, res),
            res matches PanelView::Shown(c) ==> overview_shows(c, self.stats.value->Some_0),
    {
        if self.stats.loading {
            PanelView::Loading
        } else {
            match &self.stats.error {
                Some(e) => PanelView::Error(e.clone()),
                None => match &self.stats.value {
                    Some(s) => PanelView::Shown(overview_card(s)),
                    None => PanelView::Blank,
                },
            }
        }
    }
}

impl UserDetailPage {
    /// What the page shows at `now`.
    pub fn view(&self, now: Timestamp) -> (res: PanelView<UserDetailView>)
        requires
            now.valid(),
            self.stats.value matches Some(v) ==> v.0.wf() && forall|i: int|
                0 <= i < v.1.len() ==> #[trigger] v.1@[i].wf(),
        ensures
            panel_case(self.stats, res),
            res matches PanelView::Shown(d) ==> detail_shows(
                now,
                d,
                self.stats.value->Some_0.0,
                self.stats.value->Some_0.1@,
            ),
    {
        if self.stats.loading {
            PanelView::Loading
        } else {
            match &self.stats.error {
                Some(e) => PanelView::Error(e.clone()),
                None => match &self.stats.value {
                    Some(v) => PanelView::Shown(user_detail_view(now, &v.0, &v.1)),
                    None => PanelView::Blank,
                },
            }
        }
    }
}

} // verus!
