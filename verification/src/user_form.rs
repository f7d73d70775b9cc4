//! The create/edit user form: its initial contents, its input fields, and
//! what saving it sends to the server.

use vstd::prelude::*;
use crate::text::{
    decimal, int_decimal, lemma_decimal_parses_back, lemma_decimal_trim_parses_back_i32,
    parse_i32_spec, parse_i32_trimmed, parse_i64, parse_i64_spec, trim,
};
use crate::users::{
    CollectionFilter, CollectionFilterView, FilterGroup, FilterMatchMode, RuleView, StreamFilter,
    StreamFilterView, StreamRule, UserDto, UserDtoView, UserFormMode, UserPolicy, UserPolicyView,
};

verus! {

/// The contents of the user form.
#[derive(Debug, Clone)]
pub struct UserFormState {
    pub username: String,
    pub is_admin: bool,
    pub password: String,
    pub password2: String,
    pub filter_match: FilterMatchMode,
    pub filter_groups: Vec<FilterGroup>,
    pub stream_match: FilterMatchMode,
    pub stream_rules: Vec<StreamRule>,
    pub enable_remote_search: bool,
    pub max_active_sessions: i64,
    pub enable_video_transcoding: bool,
    pub is_disabled: bool,
    /// The parental-rating field as typed.
    pub max_parental_rating: String,
    pub blocked_tags: Vec<String>,
}

pub struct UserFormStateView {
    pub username: Seq<char>,
    pub is_admin: bool,
    pub password: Seq<char>,
    pub password2: Seq<char>,
    pub filter_match: FilterMatchMode,
    pub filter_groups: Seq<Seq<RuleView>>,
    pub stream_match: FilterMatchMode,
    pub stream_rules: Seq<RuleView>,
    pub enable_remote_search: bool,
    pub max_active_sessions: i64,
    pub enable_video_transcoding: bool,
    pub is_disabled: bool,
    pub max_parental_rating: Seq<char>,
    pub blocked_tags: Seq<Seq<char>>,
}

impl View for UserFormState {
    type V = UserFormStateView;

    open spec fn view(&self) -> UserFormStateView {
        UserFormStateView {
            username: self.username@,
            is_admin: self.is_admin,
            password: self.password@,
            password2: self.password2@,
            filter_match: self.filter_match,
            filter_groups: self.filter_groups@.map_values(|g: FilterGroup| g@),
            stream_match: self.stream_match,
            stream_rules: self.stream_rules@.map_values(|r: StreamRule| r@),
            enable_remote_search: self.enable_remote_search,
            max_active_sessions: self.max_active_sessions,
            enable_video_transcoding: self.enable_video_transcoding,
            is_disabled: self.is_disabled,
            max_parental_rating: self.max_parental_rating@,
            blocked_tags: self.blocked_tags.deep_view(),
        }
    }
}

/// The account a mode edits, if any.
pub open spec fn edited(mode: UserFormMode) -> Option<UserDtoView> {
    match mode {
        UserFormMode::Edit(u) => Some(u@),
        UserFormMode::Create => None,
    }
}

/// The form's initial contents: the edited account's name and settings, or
/// for a new account an empty name, one empty filter group, remote search and
/// transcoding allowed, no session limit and nothing else set.
pub open spec fn initial_form(existing: Option<UserDtoView>) -> UserFormStateView {
    match existing {
        None => UserFormStateView {
            username: seq![],
            is_admin: false,
            password: seq![],
            password2: seq![],
            filter_match: FilterMatchMode::All,
            filter_groups: seq![seq![]],
            stream_match: FilterMatchMode::All,
            stream_rules: seq![],
            enable_remote_search: true,
            max_active_sessions: 0,
            enable_video_transcoding: true,
            is_disabled: false,
            max_parental_rating: seq![],
            blocked_tags: seq![],
        },
        Some(u) => UserFormStateView {
            username: u.name,
            is_admin: u.policy.is_administrator,
            password: seq![],
            password2: seq![],
            filter_match: match u.policy.filter_rules {
                Some(f) => f.match_mode,
                None => FilterMatchMode::All,
            },
            filter_groups: match u.policy.filter_rules {
                Some(f) => f.groups,
                None => seq![seq![]],
            },
            stream_match: match u.policy.stream_filter {
                Some(f) => f.match_mode,
                None => FilterMatchMode::All,
            },
            stream_rules: match u.policy.stream_filter {
                Some(f) => f.rules,
                None => seq![],
            },
            enable_remote_search: u.policy.enable_remote_search,
            max_active_sessions: u.policy.max_active_sessions,
            enable_video_transcoding: u.policy.enable_video_playback_transcoding,
            is_disabled: u.policy.is_disabled,
            max_parental_rating: match u.policy.max_parental_rating {
                Some(n) => int_decimal(n as int),
                None => seq![],
            },
            blocked_tags: u.policy.blocked_tags,
        },
    }
}

fn empty_group() -> (g: FilterGroup)
    ensures
        g@ == Seq::<RuleView>::empty(),
{
    let g = FilterGroup { rules: Vec::new() };
    assert(g@ =~= Seq::<RuleView>::empty());
    g
}

impl UserFormState {
    /// The form's contents when it opens in `mode`.
    pub fn initial(mode: &UserFormMode) -> (res: UserFormState)
        ensures
            res@ == initial_form(edited(*mode)),
    {
        match mode {
            UserFormMode::Create => {
                let mut groups: Vec<FilterGroup> = Vec::new();
                groups.push(empty_group());
                let res = UserFormState {
                    username: String::new(),
                    is_admin: false,
                    password: String::new(),
                    password2: String::new(),
                    filter_match: FilterMatchMode::All,
                    filter_groups: groups,
                    stream_match: FilterMatchMode::All,
                    stream_rules: Vec::new(),
                    enable_remote_search: true,
                    max_active_sessions: 0,
                    enable_video_transcoding: true,
                    is_disabled: false,
                    max_parental_rating: String::new(),
                    blocked_tags: Vec::new(),
                };
                assert(res@.filter_groups =~= seq![seq![]]);
                assert(res@.stream_rules =~= seq![]);
                assert(res@.blocked_tags =~= seq![]);
                res
            },
            UserFormMode::Edit(u) => {
                let p = u.policy.duplicate();
                let (filter_match, filter_groups) = match p.filter_rules {
                    Some(f) => (f.match_mode, f.groups),
                    None => {
                        let mut groups: Vec<FilterGroup> = Vec::new();
                        groups.push(empty_group());
                        assert(groups@.map_values(|g: FilterGroup| g@) =~= seq![seq![]]);
                        (FilterMatchMode::All, groups)
                    },
                };
                let (stream_match, stream_rules) = match p.stream_filter {
                    Some(f) => (f.match_mode, f.rules),
                    None => {
                        let rules: Vec<StreamRule> = Vec::new();
                        assert(rules@.map_values(|r: StreamRule| r@) =~= seq![]);
                        (FilterMatchMode::All, rules)
                    },
                };
                let max_parental_rating = match p.max_parental_rating {
                    Some(n) => decimal(n as i64),
                    None => String::new(),
                };
                UserFormState {
                    username: u.name.clone(),
                    is_admin: p.is_administrator,
                    password: String::new(),
                    password2: String::new(),
                    filter_match,
                    filter_groups,
                    stream_match,
                    stream_rules,
                    enable_remote_search: p.enable_remote_search,
                    max_active_sessions: p.max_active_sessions,
                    enable_video_transcoding: p.enable_video_playback_transcoding,
                    is_disabled: p.is_disabled,
                    max_parental_rating,
                    blocked_tags: p.blocked_tags,
                }
            },
        }
    }
}

/// Why saving the form was refused.
#[derive(Debug, Clone, Copy, PartialEq, Eq, Structural)]
pub enum FormError {
    /// A password was typed and its confirmation differs.
    PasswordsDiffer,
    /// A new account needs a password.
    PasswordRequired,
}

impl FormError {
    pub open spec fn message_text(self) -> Seq<char> {
        match self {
            FormError::PasswordsDiffer => "Passwords do not match"@,
            FormError::PasswordRequired => "Password is required"@,
        }
    }

    /// The message the form shows.
    pub fn message(&self) -> (res: String)
        ensures
            res@ == self.message_text(),
    {
        match self {
            FormError::PasswordsDiffer => String::from_str("Passwords do not match"),
            FormError::PasswordRequired => String::from_str("Password is required"),
        }
    }
}

/// The account settings a saved form sets.
#[derive(Debug, Clone)]
pub struct PolicyChanges {
    pub is_administrator: bool,
    pub filter_rules: Option<CollectionFilter>,
    pub stream_filter: Option<StreamFilter>,
    pub enable_remote_search: bool,
    pub max_active_sessions: i64,
    pub enable_video_playback_transcoding: bool,
    pub is_disabled: bool,
    pub max_parental_rating: Option<i32>,
    pub blocked_tags: Vec<String>,
}

pub struct PolicyChangesView {
    pub is_administrator: bool,
    pub filter_rules: Option<CollectionFilterView>,
    pub stream_filter: Option<StreamFilterView>,
    pub enable_remote_search: bool,
    pub max_active_sessions: i64,
    pub enable_video_playback_transcoding: bool,
    pub is_disabled: bool,
    pub max_parental_rating: Option<i32>,
    pub blocked_tags: Seq<Seq<char>>,
}

impl View for PolicyChanges {
    type V = PolicyChangesView;

    open spec fn view(&self) -> PolicyChangesView {
        PolicyChangesView {
            is_administrator: self.is_administrator,
            filter_rules: crate::users::collection_filter_view(self.filter_rules),
            stream_filter: crate::users::stream_filter_view(self.stream_filter),
            enable_remote_search: self.enable_remote_search,
            max_active_sessions: self.max_active_sessions,
            enable_video_playback_transcoding: self.enable_video_playback_transcoding,
            is_disabled: self.is_disabled,
            max_parental_rating: self.max_parental_rating,
            blocked_tags: self.blocked_tags.deep_view(),
        }
    }
}

impl PolicyChangesView {
    /// `policy` with the form's settings written over it.
    pub open spec fn applied_to(self, policy: UserPolicyView) -> UserPolicyView {
        UserPolicyView {
            is_administrator: self.is_administrator,
            filter_rules: self.filter_rules,
            stream_filter: self.stream_filter,
            enable_remote_search: self.enable_remote_search,
            max_active_sessions: self.max_active_sessions,
            enable_video_playback_transcoding: self.enable_video_playback_transcoding,
            is_disabled: self.is_disabled,
            max_parental_rating: self.max_parental_rating,
            blocked_tags: self.blocked_tags,
            ..policy
        }
    }

    /// A new account needs its policy set when any setting differs from what
    /// the server gives a new account.
    pub open spec fn departs_from_defaults(self) -> bool {
        ||| self.is_administrator
        ||| self.filter_rules is Some
        ||| self.stream_filter is Some
        ||| !self.enable_remote_search
        ||| self.max_active_sessions > 0
        ||| !self.enable_video_playback_transcoding
        ||| self.is_disabled
        ||| self.max_parental_rating is Some
        ||| self.blocked_tags.len() > 0
    }
}

impl PolicyChanges {
    /// Writes these settings over `policy`.
    pub fn apply(self, policy: UserPolicy) -> (res: UserPolicy)
        ensures
            res@ == self@.applied_to(policy@),
    {
        let mut p = policy;
        p.is_administrator = self.is_administrator;
        p.filter_rules = self.filter_rules;
        p.stream_filter = self.stream_filter;
        p.enable_remote_search = self.enable_remote_search;
        p.max_active_sessions = self.max_active_sessions;
        p.enable_video_playback_transcoding = self.enable_video_playback_transcoding;
        p.is_disabled = self.is_disabled;
        p.max_parental_rating = self.max_parental_rating;
        p.blocked_tags = self.blocked_tags;
        p
    }

    /// Whether a newly created account needs these settings sent.
    pub fn departs_from_defaults(&self) -> (res: bool)
        ensures
            res == self@.departs_from_defaults(),
    {
        self.is_administrator || self.filter_rules.is_some() || self.stream_filter.is_some()
            || !self.enable_remote_search || self.max_active_sessions > 0
            || !self.enable_video_playback_transcoding || self.is_disabled
            || self.max_parental_rating.is_some() || self.blocked_tags.len() > 0
    }
}

/// Some group holds a rule.
pub open spec fn has_some_rule(groups: Seq<Seq<RuleView>>) -> bool {
    exists|i: int| 0 <= i < groups.len() && #[trigger] groups[i].len() > 0
}

/// The settings of a form: a library filter only when some group holds a
/// rule, a stream filter only when it has rules, and the parental rating read
/// from the trimmed field (nothing when it is not a number).
pub open spec fn changes_of(form: UserFormStateView) -> PolicyChangesView {
    let has_rules = has_some_rule(form.filter_groups);
    PolicyChangesView {
        is_administrator: form.is_admin,
        filter_rules: if has_rules {
            Some(CollectionFilterView { match_mode: form.filter_match, groups: form.filter_groups })
        } else {
            None
        },
        stream_filter: if form.stream_rules.len() == 0 {
            None
        } else {
            Some(StreamFilterView { match_mode: form.stream_match, rules: form.stream_rules })
        },
        enable_remote_search: form.enable_remote_search,
        max_active_sessions: form.max_active_sessions,
        enable_video_playback_transcoding: form.enable_video_transcoding,
        is_disabled: form.is_disabled,
        max_parental_rating: parse_i32_spec(trim(form.max_parental_rating)),
        blocked_tags: form.blocked_tags,
    }
}

/// A request to the server.
#[derive(Debug, Clone)]
pub enum UserAction {
    /// Replace the account record (its name changes).
    UpdateUser { user_id: u128, user: UserDto },
    /// Replace the account's policy.
    UpdatePolicy { user_id: u128, policy: UserPolicy },
    /// Set the account's password as an administrator.
    SetPassword { user_id: u128, password: String },
    /// Create an account.
    CreateUser { name: String, password: String },
}

pub enum UserActionView {
    UpdateUser { user_id: u128, user: UserDtoView },
    UpdatePolicy { user_id: u128, policy: UserPolicyView },
    SetPassword { user_id: u128, password: Seq<char> },
    CreateUser { name: Seq<char>, password: Seq<char> },
}

impl View for UserAction {
    type V = UserActionView;

    open spec fn view(&self) -> UserActionView {
        match self {
            UserAction::UpdateUser { user_id, user } => UserActionView::UpdateUser { user_id: *user_id, user: user@ },
            UserAction::UpdatePolicy { user_id, policy } => UserActionView::UpdatePolicy {
                user_id: *user_id,
                policy: policy@,
            },
            UserAction::SetPassword { user_id, password } => UserActionView::SetPassword {
                user_id: *user_id,
                password: password@,
            },
            UserAction::CreateUser { name, password } => UserActionView::CreateUser {
                name: name@,
                password: password@,
            },
        }
    }
}

/// What saving the form does: the requests to send in order, and for a new
/// account the settings to send once it exists (`SubmitProgress` runs it,
/// stopping at the first request that fails).
#[derive(Debug, Clone)]
pub struct SubmitPlan {
    pub actions: Vec<UserAction>,
    pub after_create: Option<PolicyChanges>,
}

pub open spec fn actions_view(actions: Seq<UserAction>) -> Seq<UserActionView> {
    actions.map_values(|a: UserAction| a@)
}

pub open spec fn after_create_view(c: Option<PolicyChanges>) -> Option<PolicyChangesView> {
    match c {
        Some(p) => Some(p@),
        None => None,
    }
}

/// Saving a form opened on `existing` (none when creating): a typed password
/// must match its confirmation and a new account needs one; an edit renames
/// the account, sets its policy and, when a password was typed, its password;
/// a creation creates the account with its name and password.
pub open spec fn submit_outcome(form: UserFormStateView, existing: Option<UserDtoView>) -> Result<
    (Seq<UserActionView>, Option<PolicyChangesView>),
    FormError,
> {
    if form.password.len() > 0 && form.password != form.password2 {
        Err(FormError::PasswordsDiffer)
    } else if existing is None && form.password.len() == 0 {
        Err(FormError::PasswordRequired)
    } else {
        let changes = changes_of(form);
        match existing {
            Some(u) => Ok(
                (
                    seq![
                        UserActionView::UpdateUser { user_id: u.id, user: UserDtoView { name: form.username, ..u } },
                        UserActionView::UpdatePolicy { user_id: u.id, policy: changes.applied_to(u.policy) },
                    ] + if form.password.len() > 0 {
                        seq![UserActionView::SetPassword { user_id: u.id, password: form.password }]
                    } else {
                        seq![]
                    },
                    None,
                ),
            ),
            None => Ok(
                (
                    seq![UserActionView::CreateUser { name: form.username, password: form.password }],
                    Some(changes),
                ),
            ),
        }
    }
}

fn any_group_has_rules(groups: &Vec<FilterGroup>) -> (res: bool)
    ensures
        res == has_some_rule(groups@.map_values(|g: FilterGroup| g@)),
{
    let ghost gv = groups@.map_values(|g: FilterGroup| g@);
    let mut i: usize = 0;
    while i < groups.len()
        invariant
            i <= groups.len(),
            gv == groups@.map_values(|g: FilterGroup| g@),
            forall|j: int| 0 <= j < i ==> gv[j].len() == 0,
        decreases groups.len() - i,
    {
        assert(gv[i as int].len() == groups@[i as int].rules@.len());
        if groups[i].rules.len() > 0 {
            return true;
        }
        i = i + 1;
    }
    false
}

impl UserFormState {
    /// The settings this form sets.
    pub fn changes(self) -> (res: PolicyChanges)
        ensures
            res@ == changes_of(self@),
    {
        let ghost form = self@;
        let has_rules = any_group_has_rules(&self.filter_groups);
        let parental = parse_i32_trimmed(self.max_parental_rating.as_str());
        let filter_rules = if has_rules {
            Some(CollectionFilter { match_mode: self.filter_match, groups: self.filter_groups })
        } else {
            None
        };
        let stream_filter = if self.stream_rules.len() == 0 {
            None
        } else {
            Some(StreamFilter { match_mode: self.stream_match, rules: self.stream_rules })
        };
        let res = PolicyChanges {
            is_administrator: self.is_admin,
            filter_rules,
            stream_filter,
            enable_remote_search: self.enable_remote_search,
            max_active_sessions: self.max_active_sessions,
            enable_video_playback_transcoding: self.enable_video_transcoding,
            is_disabled: self.is_disabled,
            max_parental_rating: parental,
            blocked_tags: self.blocked_tags,
        };
        assert(res@.filter_rules == changes_of(form).filter_rules);
        res
    }

    /// What saving this form, opened in `mode`, does.
    pub fn submit(self, mode: &UserFormMode) -> (res: Result<SubmitPlan, FormError>)
        ensures
            match submit_outcome(self@, edited(*mode)) {
                Ok((actions, after)) => res matches Ok(plan) && actions_view(plan.actions@) == actions
                    && after_create_view(plan.after_create) == after,
                Err(e) => res == Err::<SubmitPlan, FormError>(e),
            },
    {
        let ghost form = self@;
        let is_edit = match mode {
            UserFormMode::Edit(_) => true,
            UserFormMode::Create => false,
        };
        if !self.password.as_str().is_empty() && self.password != self.password2 {
            return Err(FormError::PasswordsDiffer);
        }
        if !is_edit && self.password.as_str().is_empty() {
            return Err(FormError::PasswordRequired);
        }
        let name = self.username.clone();
        let password = self.password.clone();
        let changes = self.changes();
        match mode {
            UserFormMode::Edit(u) => {
                let mut updated = u.duplicate();
                updated.name = name;
                let policy = changes.apply(u.policy.duplicate());
                let mut actions: Vec<UserAction> = Vec::new();
                actions.push(UserAction::UpdateUser { user_id: u.id, user: updated });
                actions.push(UserAction::UpdatePolicy { user_id: u.id, policy });
                if !password.as_str().is_empty() {
                    actions.push(UserAction::SetPassword { user_id: u.id, password });
                }
                let ghost expected = submit_outcome(form, edited(*mode));
                assert(actions_view(actions@) =~= expected->Ok_0.0);
                Ok(SubmitPlan { actions, after_create: None })
            },
            UserFormMode::Create => {
                let mut actions: Vec<UserAction> = Vec::new();
                actions.push(UserAction::CreateUser { name, password });
                assert(actions_view(actions@) =~= submit_outcome(form, edited(*mode))->Ok_0.0);
                Ok(SubmitPlan { actions, after_create: Some(changes) })
            },
        }
    }
}

/// The request that follows the creation of `new_user`: its policy with the
/// form's settings, when any of them departs from the defaults.
pub fn after_created(changes: PolicyChanges, new_user: UserDto) -> (res: Option<UserAction>)
    ensures
        changes@.departs_from_defaults() ==> (res matches Some(a) && a@ == (UserActionView::UpdatePolicy {
            user_id: new_user.id,
            policy: changes@.applied_to(new_user.policy@),
        })),
        !changes@.departs_from_defaults() ==> res is None,
{
    if changes.departs_from_defaults() {
        Some(UserAction::UpdatePolicy { user_id: new_user.id, policy: changes.apply(new_user.policy) })
    } else {
        None
    }
}

/// The session limit the "max concurrent streams" field holds: the typed
/// number but at least 1, or 0 (unlimited) when it is not a number.
pub open spec fn max_sessions_of_input(v: Seq<char>) -> i64 {
    match parse_i64_spec(v) {
        Some(n) => if n > 1 { n } else { 1 },
        None => 0,
    }
}

/// Reads the "max concurrent streams" field.
pub fn max_sessions_from_input(v: &str) -> (res: i64)
    ensures
        res == max_sessions_of_input(v@),
{
    match parse_i64(v) {
        Some(n) => if n > 1 { n } else { 1 },
        None => 0,
    }
}

/// What the "max concurrent streams" field shows: the limit, or nothing when
/// unlimited.
pub open spec fn max_sessions_text(n: i64) -> Seq<char> {
    if n > 0 {
        int_decimal(n as int)
    } else {
        seq![]
    }
}

pub fn max_sessions_display(n: i64) -> (res: String)
    ensures
        res@ == max_sessions_text(n),
{
    if n > 0 {
        decimal(n)
    } else {
        String::new()
    }
}

/// The field reads back what it shows: a limit stays the same, and
/// "unlimited" stays 0.
pub proof fn lemma_max_sessions_round_trip(n: i64)
    ensures
        max_sessions_of_input(max_sessions_text(n)) == (if n > 0 { n } else { 0 }),
{
    if n > 0 {
        lemma_decimal_parses_back(n);
    }
}

/// The confirmation field is shown when creating, or once a new password is typed.
pub fn confirmation_shown(is_edit: bool, password: &str) -> (res: bool)
    ensures
        res == (password@.len() > 0 || !is_edit),
{
    !password.is_empty() || !is_edit
}

/// Saving an edit form that was opened and left unchanged sends the account
/// back as it was: the same record, the same policy, and no password. This
/// holds for every account whose library and stream filters, when present,
/// hold at least one rule (a present but empty filter is saved as none).
pub proof fn lemma_unchanged_edit_sends_account_back(u: UserDtoView)
    requires
        u.policy.filter_rules matches Some(f) ==> has_some_rule(f.groups),
        u.policy.stream_filter matches Some(f) ==> f.rules.len() > 0,
    ensures
        submit_outcome(initial_form(Some(u)), Some(u)) == Ok::<(Seq<UserActionView>, Option<PolicyChangesView>), FormError>(
            (
                seq![
                    UserActionView::UpdateUser { user_id: u.id, user: u },
                    UserActionView::UpdatePolicy { user_id: u.id, policy: u.policy },
                ],
                None,
            ),
        ),
{
    let form = initial_form(Some(u));
    let c = changes_of(form);
    match u.policy.max_parental_rating {
        Some(n) => {
            lemma_decimal_trim_parses_back_i32(n);
        },
        None => {
            assert(trim(Seq::<char>::empty()) == Seq::<char>::empty());
        },
    }
    if u.policy.filter_rules is None {
        assert(!has_some_rule(seq![Seq::<RuleView>::empty()]));
    }
    assert(c.applied_to(u.policy) == u.policy);
    assert(UserDtoView { name: form.username, ..u } == u);
    let expected = seq![
        UserActionView::UpdateUser { user_id: u.id, user: u },
        UserActionView::UpdatePolicy { user_id: u.id, policy: u.policy },
    ];
    assert(expected + Seq::<UserActionView>::empty() =~= expected);
}

/// A new account left at the form's defaults gets no policy request after
/// its creation.
pub proof fn lemma_default_new_account_sends_no_policy(name: Seq<char>, password: Seq<char>)
    requires
        password.len() > 0,
    ensures
        ({
            let form = UserFormStateView {
                username: name,
                password: password,
                password2: password,
                ..initial_form(None)
            };
            &&& submit_outcome(form, None) matches Ok((actions, Some(c)))
            &&& actions == seq![UserActionView::CreateUser { name, password }]
            &&& !c.departs_from_defaults()
        }),
{
    assert(!has_some_rule(seq![Seq::<RuleView>::empty()]));
    assert(trim(Seq::<char>::empty()) == Seq::<char>::empty());
}

/// The texts and switches of the form that depend on its mode and state.
#[derive(Debug, Clone, PartialEq)]
pub struct FormLabels {
    pub title: String,
    pub password_label: String,
    pub password_placeholder: String,
    /// The password fields must be filled in.
    pub password_required: bool,
    pub save_label: String,
    /// The save button is disabled while saving.
    pub save_disabled: bool,
}

/// "Edit User" / "New User"; an edit asks for a "New Password" that may be
/// left blank to keep the current one, a creation requires one; the save
/// button reads "Saving…" and is disabled while saving.
pub fn form_labels(is_edit: bool, saving: bool) -> (res: FormLabels)
    ensures
        res.title@ == (if is_edit { "Edit User"@ } else { "New User"@ }),
        res.password_label@ == (if is_edit { "New Password"@ } else { "Password"@ }),
        res.password_placeholder@ == (if is_edit { "Leave blank to keep current"@ } else { ""@ }),
        res.password_required == !is_edit,
        res.save_label@ == (if saving { "Saving\u{2026}"@ } else { "Save"@ }),
        res.save_disabled == saving,
{
    FormLabels {
        title: if is_edit { String::from_str("Edit User") } else { String::from_str("New User") },
        password_label: if is_edit { String::from_str("New Password") } else { String::from_str("Password") },
        password_placeholder: if is_edit {
            String::from_str("Leave blank to keep current")
        } else {
            String::from_str("")
        },
        password_required: !is_edit,
        save_label: if saving { String::from_str("Saving\u{2026}") } else { String::from_str("Save") },
        save_disabled: saving,
    }
}

/// The server's answer to the request last sent.
#[derive(Debug, Clone)]
pub enum Reply {
    /// The request succeeded.
    Done,
    /// The account creation succeeded with this account.
    Created(UserDto),
    /// The request failed; the message is the one to show the user.
    Failed(String),
}

pub enum ReplyView {
    Done,
    Created(UserDtoView),
    Failed(Seq<char>),
}

impl View for Reply {
    type V = ReplyView;

    open spec fn view(&self) -> ReplyView {
        match self {
            Reply::Done => ReplyView::Done,
            Reply::Created(u) => ReplyView::Created(u@),
            Reply::Failed(m) => ReplyView::Failed(m@),
        }
    }
}

/// What the form does next while saving.
#[derive(Debug, Clone)]
pub enum FormStep {
    /// Send this request and wait for its reply.
    Send(UserAction),
    /// Every request succeeded: the form is done and closes.
    Saved,
    /// A request failed: the form shows this message, stops saving and stays
    /// open; nothing more is sent.
    Failed(String),
}

pub enum FormStepView {
    Send(UserActionView),
    Saved,
    Failed(Seq<char>),
}

impl View for FormStep {
    type V = FormStepView;

    open spec fn view(&self) -> FormStepView {
        match self {
            FormStep::Send(a) => FormStepView::Send(a@),
            FormStep::Saved => FormStepView::Saved,
            FormStep::Failed(m) => FormStepView::Failed(m@),
        }
    }
}

/// A save in progress: the requests still to send, in order, and for a new
/// account the settings to send once it has been created.
#[derive(Debug, Clone)]
pub struct SubmitProgress {
    pub pending: Vec<UserAction>,
    pub after_create: Option<PolicyChanges>,
}

pub struct SubmitProgressView {
    pub pending: Seq<UserActionView>,
    pub after_create: Option<PolicyChangesView>,
}

impl View for SubmitProgress {
    type V = SubmitProgressView;

    open spec fn view(&self) -> SubmitProgressView {
        SubmitProgressView {
            pending: actions_view(self.pending@),
            after_create: after_create_view(self.after_create),
        }
    }
}

/// Send the next pending request, or finish when none is left.
pub open spec fn advance(p: SubmitProgressView) -> (SubmitProgressView, FormStepView) {
    if p.pending.len() > 0 {
        (SubmitProgressView { pending: p.pending.drop_first(), ..p }, FormStepView::Send(p.pending[0]))
    } else {
        (p, FormStepView::Saved)
    }
}

/// The step after a reply: a failure ends the save with its message and drops
/// what was still to send; the creation of an account is followed first by
/// its settings, when they depart from the defaults; otherwise the next
/// pending request goes out, and when none is left the form is saved.
pub open spec fn next_step(p: SubmitProgressView, reply: ReplyView) -> (SubmitProgressView, FormStepView) {
    match reply {
        ReplyView::Failed(m) => (
            SubmitProgressView { pending: seq![], after_create: None },
            FormStepView::Failed(m),
        ),
        ReplyView::Created(u) => match p.after_create {
            Some(c) => if c.departs_from_defaults() {
                (
                    SubmitProgressView { after_create: None, ..p },
                    FormStepView::Send(
                        UserActionView::UpdatePolicy { user_id: u.id, policy: c.applied_to(u.policy) },
                    ),
                )
            } else {
                advance(SubmitProgressView { after_create: None, ..p })
            },
            None => advance(p),
        },
        ReplyView::Done => advance(p),
    }
}

impl SubmitProgress {
    fn advance(self) -> (res: (SubmitProgress, FormStep))
        ensures
            (res.0@, res.1@) == advance(self@),
    {
        let mut p = self;
        if p.pending.len() > 0 {
            let ghost before = p@;
            let a = p.pending.remove(0);
            assert(p@.pending =~= before.pending.drop_first());
            (p, FormStep::Send(a))
        } else {
            (p, FormStep::Saved)
        }
    }

    /// Starts saving by `plan`: the first request to send.
    pub fn start(plan: SubmitPlan) -> (res: (SubmitProgress, FormStep))
        ensures
            (res.0@, res.1@) == advance(
                SubmitProgressView {
                    pending: actions_view(plan.actions@),
                    after_create: after_create_view(plan.after_create),
                },
            ),
    {
        SubmitProgress { pending: plan.actions, after_create: plan.after_create }.advance()
    }

    /// The next step of the save after `reply` to the request last sent.
    pub fn on_reply(self, reply: Reply) -> (res: (SubmitProgress, FormStep))
        ensures
            (res.0@, res.1@) == next_step(self@, reply@),
    {
        match reply {
            Reply::Failed(m) => {
                let p = SubmitProgress { pending: Vec::new(), after_create: None };
                assert(p@.pending =~= seq![]);
                (p, FormStep::Failed(m))
            },
            Reply::Created(u) => {
                let mut p = self;
                match p.after_create {
                    Some(c) => {
                        p.after_create = None;
                        match after_created(c, u) {
                            Some(a) => (p, FormStep::Send(a)),
                            None => p.advance(),
                        }
                    },
                    None => p.advance(),
                }
            },
            Reply::Done => self.advance(),
        }
    }
}

/// A failure ends the save: after it nothing is left to send, and any later
/// reply finds the form saved with no further request.
pub proof fn lemma_failure_ends_the_save(p: SubmitProgressView, m: Seq<char>, later: ReplyView)
    requires
        !(later is Failed),
    ensures
        next_step(p, ReplyView::Failed(m)).0.pending.len() == 0,
        next_step(p, ReplyView::Failed(m)).1 == FormStepView::Failed(m),
        next_step(next_step(p, ReplyView::Failed(m)).0, later).1 == FormStepView::Saved,
{
}

/// A session limit on a new account is a setting of its own: a change set
/// that limits the streams departs from the defaults, whatever else it holds.
pub proof fn lemma_session_limit_departs_from_defaults(c: PolicyChangesView)
    requires
        c.max_active_sessions > 0,
    ensures
        c.departs_from_defaults(),
{
}

/// A new account gets its settings sent exactly when they differ from those
/// of the form as it opens for a new account (no role, filters, limits or
/// tags; remote search and transcoding allowed), for every session limit the
/// form can hold (none, or at least one).
pub proof fn lemma_departs_exactly_when_settings_differ(c: PolicyChangesView)
    requires
        c.max_active_sessions >= 0,
    ensures
        c.departs_from_defaults() <==> c != changes_of(initial_form(None)),
{
    let d = changes_of(initial_form(None));
    assert(!has_some_rule(seq![Seq::<RuleView>::empty()]));
    assert(trim(Seq::<char>::empty()) == Seq::<char>::empty());
    assert(parse_i32_spec(Seq::<char>::empty()) is None);
    assert(d.blocked_tags.len() == 0);
    if !c.departs_from_defaults() {
        assert(c.blocked_tags =~= d.blocked_tags);
        assert(c == d);
    } else {
        if c.blocked_tags.len() > 0 {
            assert(c.blocked_tags != d.blocked_tags);
        }
    }
}

} // verus!
