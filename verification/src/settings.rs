//! Settings: where they may be changed, and what they change in the runtimes. A change that is
//! refused half way is undone.

use vstd::prelude::*;
use vstd::string::*;

use crate::application::{mode_budget, AppView, HarnessApplication, ModeProfile, ModeView};
use crate::error::{failure, outcome, ApplicationError, Outcome};
use crate::model::{duplicate_all, group_views, option_view, views, Duplicate};
use crate::ordered::TextMap;
use crate::session::{SessionCommand, SessionCommandView};
use crate::text::{
    chars_of, join, joined, same, split, split_parts, string_of, texts, trim, trimmed,
};

verus! {

/// Where a setting comes from.
#[derive(Clone, Copy, Debug, PartialEq, Eq, Structural)]
pub enum ConfigLayer {
    Default,
    Global,
    Project,
    Session,
    Runtime,
}

/// How much an agent may do without asking.
#[derive(Clone, Copy, Debug, PartialEq, Eq, Structural)]
pub enum PermissionMode {
    Safe,
    Ask,
    Custom,
    Auto,
    Full,
}

/// When a call of a tool has to be approved.
#[derive(Clone, Copy, Debug, PartialEq, Eq, Structural)]
pub enum ApprovalPolicy {
    Always,
    OnRequest,
    UntrustedOnly,
    NeverWithinSandbox,
}

/// A model that may stand in for another.
#[derive(Debug, PartialEq, Eq)]
pub struct FailoverTarget {
    pub provider_id: String,
    pub model_id: String,
}

pub struct TargetView {
    pub provider_id: Seq<char>,
    pub model_id: Seq<char>,
}

impl View for FailoverTarget {
    type V = TargetView;

    open spec fn view(&self) -> TargetView {
        TargetView {
            provider_id: self.provider_id@,
            model_id: self.model_id@,
        }
    }
}

impl Duplicate for FailoverTarget {
    fn duplicate(&self) -> (r: Self) {
        FailoverTarget {
            provider_id: self.provider_id.clone(),
            model_id: self.model_id.clone(),
        }
    }
}

/// Which models may stand in for another.
#[derive(Debug, PartialEq, Eq)]
pub struct ModelRoutePolicy {
    pub enabled: bool,
    pub user_confirmed_cost_scope: bool,
    pub allowlist: Vec<FailoverTarget>,
}

pub struct RouteView {
    pub enabled: bool,
    pub user_confirmed_cost_scope: bool,
    pub allowlist: Seq<TargetView>,
}

impl View for ModelRoutePolicy {
    type V = RouteView;

    open spec fn view(&self) -> RouteView {
        RouteView {
            enabled: self.enabled,
            user_confirmed_cost_scope: self.user_confirmed_cost_scope,
            allowlist: views(self.allowlist@),
        }
    }
}

impl Duplicate for ModelRoutePolicy {
    fn duplicate(&self) -> (r: Self) {
        ModelRoutePolicy {
            enabled: self.enabled,
            user_confirmed_cost_scope: self.user_confirmed_cost_scope,
            allowlist: duplicate_all(&self.allowlist),
        }
    }
}

/// The settings that the runtimes depend on.
#[derive(Debug, PartialEq, Eq)]
pub struct RuntimeSettings {
    pub permission_mode: PermissionMode,
    pub failover_enabled: bool,
    pub failover_cost_confirmed: bool,
    pub failover_targets: String,
}

pub struct SettingsView {
    pub permission_mode: PermissionMode,
    pub failover_enabled: bool,
    pub failover_cost_confirmed: bool,
    pub failover_targets: Seq<char>,
}

impl View for RuntimeSettings {
    type V = SettingsView;

    open spec fn view(&self) -> SettingsView {
        SettingsView {
            permission_mode: self.permission_mode,
            failover_enabled: self.failover_enabled,
            failover_cost_confirmed: self.failover_cost_confirmed,
            failover_targets: self.failover_targets@,
        }
    }
}

/// The models that may stand in, as they are shown.
#[derive(Debug, PartialEq, Eq)]
pub struct FailoverView {
    pub enabled: bool,
    pub cost_confirmed: bool,
    pub targets: Vec<String>,
}

pub struct FailoverModel {
    pub enabled: bool,
    pub cost_confirmed: bool,
    pub targets: Seq<Seq<char>>,
}

impl View for FailoverView {
    type V = FailoverModel;

    open spec fn view(&self) -> FailoverModel {
        FailoverModel {
            enabled: self.enabled,
            cost_confirmed: self.cost_confirmed,
            targets: texts(self.targets@),
        }
    }
}

pub open spec fn policy_of(mode: PermissionMode) -> ApprovalPolicy {
    match mode {
        PermissionMode::Safe => ApprovalPolicy::Always,
        PermissionMode::Ask | PermissionMode::Custom => ApprovalPolicy::OnRequest,
        PermissionMode::Auto => ApprovalPolicy::UntrustedOnly,
        PermissionMode::Full => ApprovalPolicy::NeverWithinSandbox,
    }
}

pub fn permission_approval_policy(mode: PermissionMode) -> (r: ApprovalPolicy)
    ensures
        r == policy_of(mode),
{
    match mode {
        PermissionMode::Safe => ApprovalPolicy::Always,
        PermissionMode::Ask | PermissionMode::Custom => ApprovalPolicy::OnRequest,
        PermissionMode::Auto => ApprovalPolicy::UntrustedOnly,
        PermissionMode::Full => ApprovalPolicy::NeverWithinSandbox,
    }
}

/// What stands before and behind the first occurrence of a character.
pub open spec fn cut(s: Seq<char>, c: char) -> Option<(Seq<char>, Seq<char>)>
    decreases s.len(),
{
    if s.len() == 0 {
        None
    } else if s[0] == c {
        Some((Seq::empty(), s.drop_first()))
    } else {
        match cut(s.drop_first(), c) {
            Some((before, behind)) => Some((seq![s[0]] + before, behind)),
            None => None,
        }
    }
}

proof fn lemma_cut(s: Seq<char>, c: char, at: int)
    requires
        0 <= at <= s.len(),
        forall|k: int| 0 <= k < at ==> s[k] != c,
        at < s.len() ==> s[at] == c,
    ensures
        cut(s, c) == if at < s.len() {
            Some((s.subrange(0, at), s.subrange(at + 1, s.len() as int)))
        } else {
            None
        },
    decreases s.len(),
{
    if s.len() > 0 {
        if at == 0 {
            assert(s.subrange(0, 0) =~= Seq::empty());
            assert(s.subrange(1, s.len() as int) =~= s.drop_first());
        } else {
            let rest = s.drop_first();
            assert forall|k: int| 0 <= k < at - 1 implies rest[k] != c by {
                assert(rest[k] == s[k + 1]);
            }
            lemma_cut(rest, c, at - 1);
            if at < s.len() {
                assert(seq![s[0]] + rest.subrange(0, at - 1) =~= s.subrange(0, at));
                assert(rest.subrange(at, rest.len() as int) =~= s.subrange(at + 1, s.len() as int));
            }
        }
    }
}

/// One target of a list: a provider, a slash and a model. What has no slash is none.
pub open spec fn read_target(part: Seq<char>) -> Option<TargetView> {
    match cut(trimmed(part), '/') {
        Some((provider_id, model_id)) => Some(TargetView { provider_id, model_id }),
        None => None,
    }
}

pub open spec fn read_targets(parts: Seq<Seq<char>>) -> Seq<TargetView>
    decreases parts.len(),
{
    if parts.len() == 0 {
        Seq::empty()
    } else {
        match read_target(parts.last()) {
            Some(target) => read_targets(parts.drop_last()).push(target),
            None => read_targets(parts.drop_last()),
        }
    }
}

/// The targets of a list in which they are parted by commas.
pub open spec fn targets_in(value: Seq<char>) -> Seq<TargetView> {
    read_targets(split_parts(value, ','))
}

fn parse_target(part: &str) -> (r: Option<FailoverTarget>)
    ensures
        option_view(r) == read_target(part@),
{
    let text = trim(part);
    let chars = chars_of(text.as_str());
    let mut at: usize = 0;
    while at < chars.len() && chars[at] != '/'
        invariant
            at <= chars.len(),
            chars@ == text@,
            forall|k: int| 0 <= k < at ==> chars@[k] != '/',
        decreases chars.len() - at,
    {
        at = at + 1;
    }
    proof {
        lemma_cut(text@, '/', at as int);
    }
    if at < chars.len() {
        Some(
            FailoverTarget {
                provider_id: string_of(&chars, 0, at),
                model_id: string_of(&chars, at + 1, chars.len()),
            },
        )
    } else {
        None
    }
}

/// Reads a list of targets.
pub fn parse_failover_targets(value: &str) -> (r: Vec<FailoverTarget>)
    ensures
        views(r@) == targets_in(value@),
{
    broadcast use group_views;

    let parts = split(value, ',');
    let ghost all = texts(parts@);
    let mut r: Vec<FailoverTarget> = Vec::new();
    let mut i: usize = 0;
    assert(all.subrange(0, 0) =~= Seq::empty());
    assert(views(r@) =~= Seq::empty());
    while i < parts.len()
        invariant
            i <= parts.len(),
            all == texts(parts@),
            views(r@) == read_targets(all.subrange(0, i as int)),
        decreases parts.len() - i,
    {
        let ghost next = all.subrange(0, i as int + 1);
        assert(next.drop_last() =~= all.subrange(0, i as int));
        assert(next.last() == parts@[i as int]@);
        match parse_target(parts[i].as_str()) {
            Some(target) => {
                r.push(target);
            },
            None => {},
        }
        i = i + 1;
    }
    assert(all.subrange(0, all.len() as int) =~= all);
    r
}

/// Whoever wants models to stand in has to say which.
pub open spec fn route_of(settings: SettingsView) -> Outcome<RouteView> {
    let targets = targets_in(settings.failover_targets);
    if settings.failover_enabled && targets.len() == 0 {
        failure("failover-targets-empty"@, "启用 Failover 必须提供精确 provider/model allowlist"@)
    } else {
        Outcome::Done(
            RouteView {
                enabled: settings.failover_enabled,
                user_confirmed_cost_scope: settings.failover_cost_confirmed,
                allowlist: targets,
            },
        )
    }
}

pub fn model_route_policy(settings: &RuntimeSettings) -> (r: Result<
    ModelRoutePolicy,
    ApplicationError,
>)
    ensures
        outcome(r) == route_of(settings@),
{
    let targets = parse_failover_targets(settings.failover_targets.as_str());
    assert(views(targets@).len() == targets@.len());
    if settings.failover_enabled && targets.len() == 0 {
        return Err(
            ApplicationError::new(
                "failover-targets-empty",
                "启用 Failover 必须提供精确 provider/model allowlist",
            ),
        );
    }
    Ok(
        ModelRoutePolicy {
            enabled: settings.failover_enabled,
            user_confirmed_cost_scope: settings.failover_cost_confirmed,
            allowlist: targets,
        },
    )
}

pub open spec fn target_text(target: TargetView) -> Seq<char> {
    target.provider_id + "/"@ + target.model_id
}

pub open spec fn failover_shown(settings: SettingsView) -> FailoverModel {
    FailoverModel {
        enabled: settings.failover_enabled,
        cost_confirmed: settings.failover_cost_confirmed,
        targets: targets_in(settings.failover_targets).map_values(|t: TargetView| target_text(t)),
    }
}

/// Shows which models may stand in.
pub fn failover(settings: &RuntimeSettings) -> (r: FailoverView)
    ensures
        r@ == failover_shown(settings@),
{
    let found = parse_failover_targets(settings.failover_targets.as_str());
    let ghost all = views(found@);
    let ghost spec = failover_shown(settings@).targets;
    let mut targets: Vec<String> = Vec::new();
    let mut i: usize = 0;
    while i < found.len()
        invariant
            i <= found.len(),
            all == views(found@),
            spec == all.map_values(|t: TargetView| target_text(t)),
            targets@.len() == i,
            forall|k: int| 0 <= k < i ==> (#[trigger] targets@[k])@ == spec[k],
        decreases found.len() - i,
    {
        assert(all[i as int] == found@[i as int]@);
        let mut text = found[i].provider_id.clone();
        text.append("/");
        text.append(found[i].model_id.as_str());
        targets.push(text);
        i = i + 1;
    }
    assert(texts(targets@) =~= spec);
    FailoverView {
        enabled: settings.failover_enabled,
        cost_confirmed: settings.failover_cost_confirmed,
        targets,
    }
}

pub open spec fn flag_text(flag: bool) -> Seq<char> {
    if flag {
        "true"@
    } else {
        "false"@
    }
}

/// The settings that say which models may stand in, in the order in which they are made.
pub fn configure_failover(enabled: bool, cost_confirmed: bool, targets: &Vec<String>) -> (r: Vec<(
    String,
    String,
)>)
    ensures
        r@.len() == 3,
        (r@[0].0@, r@[0].1@) == ("failover.targets"@, joined(texts(targets@), ","@)),
        (r@[1].0@, r@[1].1@) == ("failover.cost-confirmed"@, flag_text(cost_confirmed)),
        (r@[2].0@, r@[2].1@) == ("failover.enabled"@, flag_text(enabled)),
{
    let confirmed: String = if cost_confirmed {
        "true".to_string()
    } else {
        "false".to_string()
    };
    let on: String = if enabled {
        "true".to_string()
    } else {
        "false".to_string()
    };
    vec![
        ("failover.targets".to_string(), join(targets, ",")),
        ("failover.cost-confirmed".to_string(), confirmed),
        ("failover.enabled".to_string(), on),
    ]
}

/// What is put back when a change is refused.
pub enum Undo {
    Approval { policy: ApprovalPolicy },
    Route { policy: ModelRoutePolicy },
}

pub enum UndoView {
    Approval { policy: ApprovalPolicy },
    Route { policy: RouteView },
}

impl View for Undo {
    type V = UndoView;

    open spec fn view(&self) -> UndoView {
        match *self {
            Undo::Approval { policy } => UndoView::Approval {
                policy,
            },
            Undo::Route { policy } => UndoView::Route {
                policy: policy@,
            },
        }
    }
}

/// A change of one setting: what it is, and what the runtimes had before.
pub struct SettingChange {
    pub layer: ConfigLayer,
    pub key: String,
    /// The new value; none if the setting is cleared.
    pub value: Option<String>,
    pub previous_approval: Option<ApprovalPolicy>,
    pub previous_route: Option<ModelRoutePolicy>,
}

pub struct ChangeView {
    pub layer: ConfigLayer,
    pub key: Seq<char>,
    pub value: Option<Seq<char>>,
    pub previous_approval: Option<ApprovalPolicy>,
    pub previous_route: Option<RouteView>,
}

impl View for SettingChange {
    type V = ChangeView;

    open spec fn view(&self) -> ChangeView {
        ChangeView {
            layer: self.layer,
            key: self.key@,
            value: option_view(self.value),
            previous_approval: self.previous_approval,
            previous_route: option_view(self.previous_route),
        }
    }
}

/// Only the settings of the session and of the running process can be changed.
pub open spec fn begin_change(layer: ConfigLayer, key: Seq<char>, value: Option<Seq<char>>) -> Outcome<
    ChangeView,
> {
    if layer == ConfigLayer::Session || layer == ConfigLayer::Runtime {
        Outcome::Done(
            ChangeView { layer, key, value, previous_approval: None, previous_route: None },
        )
    } else if value is Some {
        failure(
            "config-layer-read-only"@,
            "终端只允许修改 session 或 runtime；global/project 请编辑 TOML"@,
        )
    } else {
        failure("config-layer-read-only"@, "终端只允许清除 session 或 runtime 设置"@)
    }
}

/// The policy that the tools get, if it is another than they have.
pub open spec fn approval_step(c: ChangeView, mode: PermissionMode, current: ApprovalPolicy) -> (
    ChangeView,
    Option<ApprovalPolicy>,
) {
    if current != policy_of(mode) {
        (ChangeView { previous_approval: Some(current), ..c }, Some(policy_of(mode)))
    } else {
        (c, None)
    }
}

/// The policy that the models get, if it is another than they have.
pub open spec fn route_step(c: ChangeView, settings: SettingsView, current: RouteView) -> (
    ChangeView,
    Outcome<Option<RouteView>>,
) {
    match route_of(settings) {
        Outcome::Failed(error) => (c, Outcome::Failed(error)),
        Outcome::Done(target) => if current != target {
            (ChangeView { previous_route: Some(current), ..c }, Outcome::Done(Some(target)))
        } else {
            (c, Outcome::Done(None))
        },
    }
}

/// The command that keeps the setting in the session, if it is kept there and is not there yet.
pub open spec fn change_command(c: ChangeView, stored: Map<Seq<char>, Seq<char>>) -> Option<
    SessionCommandView,
> {
    if c.layer != ConfigLayer::Session {
        None
    } else {
        match c.value {
            Some(value) => if stored.contains_key(c.key) && stored[c.key] == value {
                None
            } else {
                Some(SessionCommandView::SetSetting { key: c.key, value })
            },
            None => if stored.contains_key(c.key) {
                Some(SessionCommandView::ClearSetting { key: c.key })
            } else {
                None
            },
        }
    }
}

pub open spec fn undo_approval(c: ChangeView) -> Seq<UndoView> {
    match c.previous_approval {
        Some(policy) => seq![UndoView::Approval { policy }],
        None => Seq::empty(),
    }
}

/// What is put back after the session refused the setting.
pub open spec fn undo_all(c: ChangeView) -> Seq<UndoView> {
    match c.previous_route {
        Some(policy) => undo_approval(c).push(UndoView::Route { policy }),
        None => undo_approval(c),
    }
}

fn same_targets(a: &Vec<FailoverTarget>, b: &Vec<FailoverTarget>) -> (r: bool)
    ensures
        r == (views(a@) == views(b@)),
{
    assert(views(a@).len() == a@.len());
    assert(views(b@).len() == b@.len());
    if a.len() != b.len() {
        return false;
    }
    let mut i: usize = 0;
    while i < a.len()
        invariant
            i <= a.len() == b.len(),
            forall|k: int| 0 <= k < i ==> (#[trigger] views(a@)[k]) == views(b@)[k],
        decreases a.len() - i,
    {
        assert(views(a@)[i as int] == a@[i as int]@);
        assert(views(b@)[i as int] == b@[i as int]@);
        if !(same(a[i].provider_id.as_str(), b[i].provider_id.as_str()) && same(
            a[i].model_id.as_str(),
            b[i].model_id.as_str(),
        )) {
            return false;
        }
        i = i + 1;
    }
    assert(views(a@) =~= views(b@));
    true
}

impl SettingChange {
    /// Sets a setting.
    pub fn set_setting(layer: ConfigLayer, key: &str, value: &str) -> (r: Result<
        SettingChange,
        ApplicationError,
    >)
        ensures
            outcome(r) == begin_change(layer, key@, Some(value@)),
    {
        if layer == ConfigLayer::Session || layer == ConfigLayer::Runtime {
            Ok(
                SettingChange {
                    layer,
                    key: key.to_string(),
                    value: Some(value.to_string()),
                    previous_approval: None,
                    previous_route: None,
                },
            )
        } else {
            Err(
                ApplicationError::new(
                    "config-layer-read-only",
                    "终端只允许修改 session 或 runtime；global/project 请编辑 TOML",
                ),
            )
        }
    }

    /// Clears a setting.
    pub fn clear_setting(layer: ConfigLayer, key: &str) -> (r: Result<
        SettingChange,
        ApplicationError,
    >)
        ensures
            outcome(r) == begin_change(layer, key@, None),
    {
        if layer == ConfigLayer::Session || layer == ConfigLayer::Runtime {
            Ok(
                SettingChange {
                    layer,
                    key: key.to_string(),
                    value: None,
                    previous_approval: None,
                    previous_route: None,
                },
            )
        } else {
            Err(
                ApplicationError::new(
                    "config-layer-read-only",
                    "终端只允许清除 session 或 runtime 设置",
                ),
            )
        }
    }

    /// What the tools are to be told.
    pub fn choose_approval(&mut self, mode: PermissionMode, current: ApprovalPolicy) -> (r: Option<
        ApprovalPolicy,
    >)
        ensures
            (final(self)@, r) == approval_step(old(self)@, mode, current),
    {
        let target = permission_approval_policy(mode);
        if current != target {
            self.previous_approval = Some(current);
            Some(target)
        } else {
            None
        }
    }

    /// What the models are to be told.
    pub fn choose_route(&mut self, settings: &RuntimeSettings, current: ModelRoutePolicy) -> (r:
        Result<Option<ModelRoutePolicy>, ApplicationError>)
        ensures
            (
                final(self)@,
                match r {
                    Ok(target) => Outcome::Done(option_view(target)),
                    Err(error) => Outcome::Failed(error@),
                },
            ) == route_step(old(self)@, settings@, current@),
    {
        let target = match model_route_policy(settings) {
            Ok(target) => target,
            Err(error) => {
                return Err(error);
            },
        };
        if current.enabled == target.enabled && current.user_confirmed_cost_scope
            == target.user_confirmed_cost_scope && same_targets(
            &current.allowlist,
            &target.allowlist,
        ) {
            Ok(None)
        } else {
            self.previous_route = Some(current);
            Ok(Some(target))
        }
    }

    /// What the session is to be told.
    pub fn choose_command(&self, stored: &TextMap<String>) -> (r: Option<SessionCommand>)
        ensures
            option_view(r) == change_command(self@, stored@),
    {
        if self.layer != ConfigLayer::Session {
            return None;
        }
        match &self.value {
            Some(value) => {
                let kept = match stored.get(self.key.as_str()) {
                    Some(text) => same(text.as_str(), value.as_str()),
                    None => false,
                };
                if kept {
                    None
                } else {
                    Some(
                        SessionCommand::SetSetting {
                            key: self.key.clone(),
                            value: value.clone(),
                        },
                    )
                }
            },
            None => if stored.contains_key(self.key.as_str()) {
                Some(SessionCommand::ClearSetting { key: self.key.clone() })
            } else {
                None
            },
        }
    }

    /// What is put back if the models refuse their policy.
    pub fn route_refused(&self) -> (r: Vec<Undo>)
        ensures
            views(r@) == undo_approval(self@),
    {
        let mut r: Vec<Undo> = Vec::new();
        match self.previous_approval {
            Some(policy) => {
                r.push(Undo::Approval { policy });
            },
            None => {},
        }
        assert(views(r@) =~= undo_approval(self@));
        r
    }

    /// What is put back if the session refuses the setting.
    pub fn command_refused(&self) -> (r: Vec<Undo>)
        ensures
            views(r@) == undo_all(self@),
    {
        broadcast use group_views;

        let mut r = self.route_refused();
        match &self.previous_route {
            Some(policy) => {
                r.push(Undo::Route { policy: policy.duplicate() });
            },
            None => {},
        }
        r
    }
}

/// What the two runtimes go by.
pub struct Policies {
    pub approval: ApprovalPolicy,
    pub route: RouteView,
}

pub open spec fn put_back(p: Policies, undo: UndoView) -> Policies {
    match undo {
        UndoView::Approval { policy } => Policies { approval: policy, ..p },
        UndoView::Route { policy } => Policies { route: policy, ..p },
    }
}

pub open spec fn put_all_back(p: Policies, undo: Seq<UndoView>) -> Policies
    decreases undo.len(),
{
    if undo.len() == 0 {
        p
    } else {
        put_back(put_all_back(p, undo.drop_last()), undo.last())
    }
}

/// A setting that the session refuses leaves both runtimes as they were; one that the models refuse
/// leaves the tools as they were.
pub proof fn law_refused_settings_are_undone(
    c: ChangeView,
    settings: SettingsView,
    before: Policies,
)
    requires
        c.previous_approval is None,
        c.previous_route is None,
    ensures
        ({
            let (first, approval) = approval_step(c, settings.permission_mode, before.approval);
            let (second, route) = route_step(first, settings, before.route);
            let told = Policies {
                approval: match approval {
                    Some(policy) => policy,
                    None => before.approval,
                },
                ..before
            };
            let told_both = Policies {
                route: match route {
                    Outcome::Done(Some(policy)) => policy,
                    _ => before.route,
                },
                ..told
            };
            &&& put_all_back(told, undo_approval(first)) == before
            &&& put_all_back(told, undo_approval(second)) == before
            &&& put_all_back(told_both, undo_all(second)) == before
        }),
{
    reveal_with_fuel(put_all_back, 3);
    let (first, approval) = approval_step(c, settings.permission_mode, before.approval);
    let (second, route) = route_step(first, settings, before.route);
    if second.previous_route is Some {
        let last = UndoView::Route { policy: second.previous_route->0 };
        assert(undo_all(second).drop_last() =~= undo_approval(second));
    }
    if first.previous_approval is Some {
        assert(undo_approval(first).drop_last() =~= Seq::empty());
    }
}

proof fn lemma_split_behind(a: Seq<char>, b: Seq<char>, c: char)
    requires
        !b.contains(c),
    ensures
        split_parts(a + seq![c] + b, c) == split_parts(a, c).push(b),
    decreases b.len(),
{
    if b.len() == 0 {
        let s = a + seq![c] + b;
        assert(s.drop_last() =~= a);
        assert(s.last() == c);
        assert(b =~= Seq::empty());
    } else {
        let s = a + seq![c] + b;
        assert(s.drop_last() =~= a + seq![c] + b.drop_last());
        assert(s.last() == b.last());
        assert(b[b.len() - 1] != c);
        assert forall|x: char| b.drop_last().contains(x) implies b.contains(x) by {
            let k = b.drop_last().index_of(x);
            assert(b[k] == x);
        }
        lemma_split_behind(a, b.drop_last(), c);
        let before = split_parts(s.drop_last(), c);
        assert(before.drop_last() =~= split_parts(a, c));
        assert(b.drop_last().push(b.last()) =~= b);
    }
}

proof fn lemma_split_single(b: Seq<char>, c: char)
    requires
        !b.contains(c),
    ensures
        split_parts(b, c) == seq![b],
    decreases b.len(),
{
    if b.len() == 0 {
        assert(b =~= Seq::empty());
    } else {
        assert(b[b.len() - 1] != c);
        assert forall|x: char| b.drop_last().contains(x) implies b.contains(x) by {
            let k = b.drop_last().index_of(x);
            assert(b[k] == x);
        }
        lemma_split_single(b.drop_last(), c);
        let before = split_parts(b.drop_last(), c);
        assert(b.drop_last().push(b.last()) =~= b);
        assert(before.drop_last().push(before.last().push(b.last())) =~= seq![b]);
    }
}

proof fn lemma_joined_parts(parts: Seq<Seq<char>>)
    requires
        parts.len() > 0,
        forall|i: int| 0 <= i < parts.len() ==> !(#[trigger] parts[i]).contains(','),
    ensures
        split_parts(joined(parts, ","@), ',') == parts,
    decreases parts.len(),
{
    reveal_strlit(",");
    assert(","@ =~= seq![',']);
    if parts.len() == 1 {
        assert(!parts[0].contains(','));
        lemma_split_single(parts[0], ',');
        assert(parts =~= seq![parts[0]]);
    } else {
        assert forall|i: int| 0 <= i < parts.drop_last().len() implies !(#[trigger] parts.drop_last()[i]).contains(',') by {
            assert(parts.drop_last()[i] == parts[i]);
        }
        lemma_joined_parts(parts.drop_last());
        assert(!parts[parts.len() - 1].contains(','));
        lemma_split_behind(joined(parts.drop_last(), ","@), parts.last(), ',');
        assert(parts.drop_last().push(parts.last()) =~= parts);
    }
}

/// A target that a list can hold: it is not cut by a comma, and its provider not by a slash.
pub open spec fn is_plain(t: TargetView) -> bool {
    &&& !target_text(t).contains(',')
    &&& trimmed(target_text(t)) == target_text(t)
    &&& !t.provider_id.contains('/')
}

/// The targets that were configured are the targets that are read.
pub proof fn law_targets_are_read_back(targets: Seq<TargetView>)
    requires
        targets.len() > 0,
        forall|i: int| 0 <= i < targets.len() ==> is_plain(#[trigger] targets[i]),
    ensures
        targets_in(joined(targets.map_values(|t: TargetView| target_text(t)), ","@)) == targets,
{
    let parts = targets.map_values(|t: TargetView| target_text(t));
    assert forall|i: int| 0 <= i < parts.len() implies !(#[trigger] parts[i]).contains(',') by {
        assert(is_plain(targets[i]));
    }
    lemma_joined_parts(parts);
    lemma_read_back(targets, parts);
}

proof fn lemma_read_back(targets: Seq<TargetView>, parts: Seq<Seq<char>>)
    requires
        parts == targets.map_values(|t: TargetView| target_text(t)),
        forall|i: int| 0 <= i < targets.len() ==> is_plain(#[trigger] targets[i]),
    ensures
        read_targets(parts) == targets,
    decreases targets.len(),
{
    if targets.len() == 0 {
        assert(targets =~= Seq::empty());
    } else {
        let fewer = targets.drop_last();
        let t = targets.last();
        assert(parts.drop_last() =~= fewer.map_values(|t: TargetView| target_text(t)));
        assert forall|i: int| 0 <= i < fewer.len() implies is_plain(#[trigger] fewer[i]) by {
            assert(fewer[i] == targets[i]);
        }
        lemma_read_back(fewer, parts.drop_last());
        assert(is_plain(targets[targets.len() - 1]));
        reveal_strlit("/");
        let text = target_text(t);
        let at = t.provider_id.len() as int;
        assert(text[at] == '/');
        assert forall|k: int| 0 <= k < at implies text[k] != '/' by {
            assert(text[k] == t.provider_id[k]);
            assert(t.provider_id.contains(t.provider_id[k]));
        }
        lemma_cut(text, '/', at);
        assert(text.subrange(0, at) =~= t.provider_id);
        assert(text.subrange(at + 1, text.len() as int) =~= t.model_id);
        assert(fewer.push(t) =~= targets);
    }
}

/// What the runtimes are told when a configuration comes into force: how the tools ask for
/// approval, and which models may stand in.
#[derive(Debug, PartialEq, Eq)]
pub struct Configured {
    pub approval: Option<ApprovalPolicy>,
    pub route: Option<ModelRoutePolicy>,
}

pub struct ConfiguredView {
    pub approval: Option<ApprovalPolicy>,
    pub route: Option<RouteView>,
}

impl View for Configured {
    type V = ConfiguredView;

    open spec fn view(&self) -> ConfiguredView {
        ConfiguredView { approval: self.approval, route: option_view(self.route) }
    }
}

/// A configuration gives the application its mode and its budget. Only a runtime that is there is
/// told anything.
pub open spec fn config_step(s: AppView, mode: ModeView, settings: SettingsView) -> Outcome<
    (AppView, ConfiguredView),
> {
    let after = AppView {
        mode_profile: mode,
        agent_budget_policy: mode_budget(mode),
        ..s
    };
    let approval = if s.tools_ready {
        Some(policy_of(settings.permission_mode))
    } else {
        None
    };
    if !s.model_ready {
        Outcome::Done((after, ConfiguredView { approval, route: None }))
    } else {
        match route_of(settings) {
            Outcome::Failed(e) => Outcome::Failed(e),
            Outcome::Done(route) => Outcome::Done(
                (after, ConfiguredView { approval, route: Some(route) }),
            ),
        }
    }
}

impl HarnessApplication {
    pub fn with_config(self, mode_profile: ModeProfile, settings: &RuntimeSettings) -> (r: Result<
        (Self, Configured),
        ApplicationError,
    >)
        ensures
            (match r {
                Ok((app, told)) => Outcome::Done((app@, told@)),
                Err(error) => Outcome::Failed(error@),
            }) == config_step(self@, mode_profile@, settings@),
    {
        let approval: Option<ApprovalPolicy> = if self.tools_ready {
            Some(permission_approval_policy(settings.permission_mode))
        } else {
            None
        };
        let route: Option<ModelRoutePolicy> = if self.model_ready {
            match model_route_policy(settings) {
                Ok(policy) => Some(policy),
                Err(error) => {
                    return Err(error);
                },
            }
        } else {
            None
        };
        let mut app = self;
        app.set_mode(mode_profile);
        Ok((app, Configured { approval, route }))
    }
}

/// Only what is set for the session is stored with it, and it is stored once: what stands there
/// already is not stored again.
pub proof fn law_only_session_settings_are_stored(
    change: ChangeView,
    stored: Map<Seq<char>, Seq<char>>,
)
    ensures
        change_command(change, stored) is Some ==> change.layer is Session,
        match change.value {
            Some(value) => change_command(change, stored.insert(change.key, value)) is None,
            None => change_command(change, stored.remove(change.key)) is None,
        },
{
}

} // verus!
