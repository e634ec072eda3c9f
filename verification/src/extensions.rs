//! What others add to the application: plugins with their skills and servers, and the accounts.

use vstd::prelude::*;
use vstd::string::*;

use crate::error::{failure, outcome, unit_outcome, ApplicationError, Outcome};
use crate::mission::{EventView, HarnessEvent};
use crate::model::{duplicate_all, group_views, option_view, views, Duplicate};
use crate::ordered::TextMap;
use crate::text::{ascii_lowered, decimal, decimal_of, same, texts, to_ascii_lower};

verus! {

/// What a plugin has added.
#[derive(Debug, PartialEq, Eq)]
pub struct PluginExtensionRegistration {
    pub skill_ids: Vec<String>,
    pub mcp_server_ids: Vec<String>,
}

pub struct RegistrationView {
    pub skill_ids: Seq<Seq<char>>,
    pub mcp_server_ids: Seq<Seq<char>>,
}

impl View for PluginExtensionRegistration {
    type V = RegistrationView;

    open spec fn view(&self) -> RegistrationView {
        RegistrationView {
            skill_ids: texts(self.skill_ids@),
            mcp_server_ids: texts(self.mcp_server_ids@),
        }
    }
}

impl Duplicate for PluginExtensionRegistration {
    fn duplicate(&self) -> (r: Self) {
        PluginExtensionRegistration {
            skill_ids: duplicate_all(&self.skill_ids),
            mcp_server_ids: duplicate_all(&self.mcp_server_ids),
        }
    }
}

/// A plugin as it is shown.
#[derive(Debug, PartialEq, Eq)]
pub struct PluginView {
    pub id: String,
    pub active: bool,
    pub status: String,
    pub last_error: Option<String>,
    pub contribution_count: usize,
}

pub struct PluginModel {
    pub id: Seq<char>,
    pub active: bool,
    pub status: Seq<char>,
    pub last_error: Option<Seq<char>>,
    pub contribution_count: usize,
}

impl View for PluginView {
    type V = PluginModel;

    open spec fn view(&self) -> PluginModel {
        PluginModel {
            id: self.id@,
            active: self.active,
            status: self.status@,
            last_error: option_view(self.last_error),
            contribution_count: self.contribution_count,
        }
    }
}

/// What is to be done next for a plugin.
#[derive(Debug, PartialEq, Eq)]
pub enum PluginAction {
    InstallSkill { path: String },
    AddServers { path: String },
    Finish,
}

pub enum PluginActionView {
    InstallSkill { path: Seq<char> },
    AddServers { path: Seq<char> },
    Finish,
}

impl View for PluginAction {
    type V = PluginActionView;

    open spec fn view(&self) -> PluginActionView {
        match *self {
            PluginAction::InstallSkill { path } => PluginActionView::InstallSkill {
                path: path@,
            },
            PluginAction::AddServers { path } => PluginActionView::AddServers {
                path: path@,
            },
            PluginAction::Finish => PluginActionView::Finish,
        }
    }
}

/// What is to be taken back of a plugin.
#[derive(Debug, PartialEq, Eq)]
pub enum PluginUndo {
    UninstallSkill { skill_id: String },
    RemoveServer { server_id: String },
}

pub enum PluginUndoView {
    UninstallSkill { skill_id: Seq<char> },
    RemoveServer { server_id: Seq<char> },
}

impl View for PluginUndo {
    type V = PluginUndoView;

    open spec fn view(&self) -> PluginUndoView {
        match *self {
            PluginUndo::UninstallSkill { skill_id } => PluginUndoView::UninstallSkill {
                skill_id: skill_id@,
            },
            PluginUndo::RemoveServer { server_id } => PluginUndoView::RemoveServer {
                server_id: server_id@,
            },
        }
    }
}

/// A plugin that is being enabled: what it brings, and what of it has been added so far.
#[derive(Debug, PartialEq, Eq)]
pub struct PluginEnabling {
    pub plugin_id: String,
    pub skill_paths: Vec<String>,
    pub mcp_paths: Vec<String>,
    pub has_skills: bool,
    pub has_servers: bool,
    pub skills_done: usize,
    pub paths_done: usize,
    pub registration: PluginExtensionRegistration,
}

pub struct EnablingView {
    pub plugin_id: Seq<char>,
    pub skill_paths: Seq<Seq<char>>,
    pub mcp_paths: Seq<Seq<char>>,
    pub has_skills: bool,
    pub has_servers: bool,
    pub skills_done: usize,
    pub paths_done: usize,
    pub registration: RegistrationView,
}

impl View for PluginEnabling {
    type V = EnablingView;

    open spec fn view(&self) -> EnablingView {
        EnablingView {
            plugin_id: self.plugin_id@,
            skill_paths: texts(self.skill_paths@),
            mcp_paths: texts(self.mcp_paths@),
            has_skills: self.has_skills,
            has_servers: self.has_servers,
            skills_done: self.skills_done,
            paths_done: self.paths_done,
            registration: self.registration@,
        }
    }
}

/// An account as it is shown; its secret is not.
#[derive(Debug, PartialEq, Eq)]
pub struct AuthView {
    pub provider_id: String,
    pub auth_method: String,
    pub configured: bool,
    pub storage: String,
}

pub struct AuthModel {
    pub provider_id: Seq<char>,
    pub auth_method: Seq<char>,
    pub configured: bool,
    pub storage: Seq<char>,
}

impl View for AuthView {
    type V = AuthModel;

    open spec fn view(&self) -> AuthModel {
        AuthModel {
            provider_id: self.provider_id@,
            auth_method: self.auth_method@,
            configured: self.configured,
            storage: self.storage@,
        }
    }
}

/// A server as it is shown.
#[derive(Debug, PartialEq, Eq)]
pub struct McpServerView {
    pub id: String,
    pub status: String,
    pub tool_count: usize,
    pub supported_tool_count: usize,
    pub resource_count: usize,
    pub prompt_count: usize,
}

pub struct ServerModel {
    pub id: Seq<char>,
    pub status: Seq<char>,
    pub tool_count: usize,
    pub supported_tool_count: usize,
    pub resource_count: usize,
    pub prompt_count: usize,
}

impl View for McpServerView {
    type V = ServerModel;

    open spec fn view(&self) -> ServerModel {
        ServerModel {
            id: self.id@,
            status: self.status@,
            tool_count: self.tool_count,
            supported_tool_count: self.supported_tool_count,
            resource_count: self.resource_count,
            prompt_count: self.prompt_count,
        }
    }
}

/// What comes next: the skills, one after the other, and then the servers. What cannot be added
/// because there is nothing to add it to is an error.
pub open spec fn next_step(e: EnablingView) -> Outcome<PluginActionView> {
    if e.has_skills && e.skills_done < e.skill_paths.len() {
        Outcome::Done(PluginActionView::InstallSkill { path: e.skill_paths[e.skills_done as int] })
    } else if !e.has_skills && e.skill_paths.len() > 0 {
        failure("skill-runtime-missing"@, "Plugin 声明了 Skill，但 Skill Registry 未注入"@)
    } else if e.has_servers && e.paths_done < e.mcp_paths.len() {
        Outcome::Done(PluginActionView::AddServers { path: e.mcp_paths[e.paths_done as int] })
    } else if !e.has_servers && e.mcp_paths.len() > 0 {
        failure("mcp-runtime-missing"@, "Plugin 声明了 MCP Server，但 MCP Runtime 未注入"@)
    } else {
        Outcome::Done(PluginActionView::Finish)
    }
}

pub open spec fn with_skill(e: EnablingView, skill_id: Seq<char>) -> EnablingView {
    EnablingView {
        skills_done: if e.skills_done < usize::MAX {
            (e.skills_done + 1) as usize
        } else {
            e.skills_done
        },
        registration: RegistrationView {
            skill_ids: e.registration.skill_ids.push(skill_id),
            ..e.registration
        },
        ..e
    }
}

pub open spec fn with_server(e: EnablingView, server_id: Seq<char>) -> EnablingView {
    EnablingView {
        registration: RegistrationView {
            mcp_server_ids: e.registration.mcp_server_ids.push(server_id),
            ..e.registration
        },
        ..e
    }
}

pub open spec fn with_servers(e: EnablingView) -> EnablingView {
    EnablingView {
        paths_done: if e.paths_done < usize::MAX {
            (e.paths_done + 1) as usize
        } else {
            e.paths_done
        },
        ..e
    }
}

/// What is taken back: the skills and then the servers, the last of each first.
pub open spec fn undo_of(r: RegistrationView, has_skills: bool, has_servers: bool) -> Seq<
    PluginUndoView,
> {
    let skills = if has_skills {
        r.skill_ids.reverse().map_values(
            |id: Seq<char>| PluginUndoView::UninstallSkill { skill_id: id },
        )
    } else {
        Seq::empty()
    };
    let servers = if has_servers {
        r.mcp_server_ids.reverse().map_values(
            |id: Seq<char>| PluginUndoView::RemoveServer { server_id: id },
        )
    } else {
        Seq::empty()
    };
    skills + servers
}

/// What is to be taken back of a plugin.
pub fn rollback_plugin_extensions(
    registration: &PluginExtensionRegistration,
    has_skills: bool,
    has_servers: bool,
) -> (r: Vec<PluginUndo>)
    ensures
        views(r@) == undo_of(registration@, has_skills, has_servers),
{
    broadcast use group_views;

    let ghost skills = if has_skills {
        registration@.skill_ids.reverse().map_values(
            |id: Seq<char>| PluginUndoView::UninstallSkill { skill_id: id },
        )
    } else {
        Seq::empty()
    };
    let ghost servers = if has_servers {
        registration@.mcp_server_ids.reverse().map_values(
            |id: Seq<char>| PluginUndoView::RemoveServer { server_id: id },
        )
    } else {
        Seq::empty()
    };
    let mut r: Vec<PluginUndo> = Vec::new();
    assert(views(r@) =~= skills.subrange(0, 0));
    if has_skills {
        let total: usize = registration.skill_ids.len();
        assert(registration@.skill_ids.len() == total);
        let mut i: usize = 0;
        while i < total
            invariant
                i <= total,
                total == registration.skill_ids@.len(),
                registration@.skill_ids.len() == total,
                skills == registration@.skill_ids.reverse().map_values(
                    |id: Seq<char>| PluginUndoView::UninstallSkill { skill_id: id },
                ),
                views(r@) == skills.subrange(0, i as int),
            decreases total - i,
        {
            broadcast use group_views;

            let at: usize = total - 1 - i;
            assert(registration@.skill_ids[at as int] == registration.skill_ids@[at as int]@);
            r.push(PluginUndo::UninstallSkill { skill_id: registration.skill_ids[at].clone() });
            i = i + 1;
            assert(views(r@) =~= skills.subrange(0, i as int));
        }
    }
    assert(views(r@) =~= skills);
    assert(views(r@) =~= skills + servers.subrange(0, 0));
    if has_servers {
        let total: usize = registration.mcp_server_ids.len();
        assert(registration@.mcp_server_ids.len() == total);
        let mut i: usize = 0;
        while i < total
            invariant
                i <= total,
                total == registration.mcp_server_ids@.len(),
                registration@.mcp_server_ids.len() == total,
                servers == registration@.mcp_server_ids.reverse().map_values(
                    |id: Seq<char>| PluginUndoView::RemoveServer { server_id: id },
                ),
                views(r@) == skills + servers.subrange(0, i as int),
            decreases total - i,
        {
            broadcast use group_views;

            let at: usize = total - 1 - i;
            assert(registration@.mcp_server_ids[at as int]
                == registration.mcp_server_ids@[at as int]@);
            r.push(PluginUndo::RemoveServer { server_id: registration.mcp_server_ids[at].clone() });
            i = i + 1;
            assert(views(r@) =~= skills + servers.subrange(0, i as int));
        }
    }
    assert(views(r@) =~= skills + servers);
    r
}

impl PluginEnabling {
    pub fn new(
        plugin_id: &str,
        skill_paths: Vec<String>,
        mcp_paths: Vec<String>,
        has_skills: bool,
        has_servers: bool,
    ) -> (r: Self)
        ensures
            r@ == (EnablingView {
                plugin_id: plugin_id@,
                skill_paths: texts(skill_paths@),
                mcp_paths: texts(mcp_paths@),
                has_skills,
                has_servers,
                skills_done: 0,
                paths_done: 0,
                registration: RegistrationView {
                    skill_ids: Seq::empty(),
                    mcp_server_ids: Seq::empty(),
                },
            }),
    {
        let registration = PluginExtensionRegistration {
            skill_ids: Vec::new(),
            mcp_server_ids: Vec::new(),
        };
        assert(registration@.skill_ids =~= Seq::empty());
        assert(registration@.mcp_server_ids =~= Seq::empty());
        PluginEnabling {
            plugin_id: plugin_id.to_string(),
            skill_paths,
            mcp_paths,
            has_skills,
            has_servers,
            skills_done: 0,
            paths_done: 0,
            registration,
        }
    }

    /// What comes next.
    pub fn enable_plugin(&self) -> (r: Result<PluginAction, ApplicationError>)
        ensures
            outcome(r) == next_step(self@),
    {
        assert(self@.skill_paths.len() == self.skill_paths@.len());
        assert(self@.mcp_paths.len() == self.mcp_paths@.len());
        if self.has_skills && self.skills_done < self.skill_paths.len() {
            Ok(PluginAction::InstallSkill { path: self.skill_paths[self.skills_done].clone() })
        } else if !self.has_skills && self.skill_paths.len() > 0 {
            Err(
                ApplicationError::new(
                    "skill-runtime-missing",
                    "Plugin 声明了 Skill，但 Skill Registry 未注入",
                ),
            )
        } else if self.has_servers && self.paths_done < self.mcp_paths.len() {
            Ok(PluginAction::AddServers { path: self.mcp_paths[self.paths_done].clone() })
        } else if !self.has_servers && self.mcp_paths.len() > 0 {
            Err(
                ApplicationError::new(
                    "mcp-runtime-missing",
                    "Plugin 声明了 MCP Server，但 MCP Runtime 未注入",
                ),
            )
        } else {
            Ok(PluginAction::Finish)
        }
    }

    /// The skill that came next has been installed.
    pub fn skill_installed(&mut self, skill_id: &str)
        ensures
            final(self)@ == with_skill(old(self)@, skill_id@),
    {
        let ghost before = self@.registration.skill_ids;
        self.skills_done = self.skills_done.saturating_add(1);
        self.registration.skill_ids.push(skill_id.to_string());
        assert(self@.registration.skill_ids =~= before.push(skill_id@));
    }

    /// A server of the file that came next has been added.
    pub fn server_added(&mut self, server_id: &str)
        ensures
            final(self)@ == with_server(old(self)@, server_id@),
    {
        let ghost before = self@.registration.mcp_server_ids;
        self.registration.mcp_server_ids.push(server_id.to_string());
        assert(self@.registration.mcp_server_ids =~= before.push(server_id@));
    }

    /// All servers of the file that came next have been added.
    pub fn servers_added(&mut self)
        ensures
            final(self)@ == with_servers(old(self)@),
    {
        self.paths_done = self.paths_done.saturating_add(1);
    }

    /// What is to be taken back after an error.
    pub fn failed(&self) -> (r: Vec<PluginUndo>)
        ensures
            views(r@) == undo_of(self@.registration, self@.has_skills, self@.has_servers),
    {
        rollback_plugin_extensions(&self.registration, self.has_skills, self.has_servers)
    }
}

/// Whatever a plugin added before an error is taken back, and nothing else: the number of what is
/// taken back is the number of what was added.
pub proof fn law_a_failed_plugin_leaves_nothing(e: EnablingView)
    requires
        !e.has_skills ==> e.registration.skill_ids.len() == 0,
        !e.has_servers ==> e.registration.mcp_server_ids.len() == 0,
    ensures
        ({
            let undo = undo_of(e.registration, e.has_skills, e.has_servers);
            &&& undo.len() == e.registration.skill_ids.len() + e.registration.mcp_server_ids.len()
            &&& forall|i: int|
                0 <= i < e.registration.skill_ids.len() ==> undo.contains(
                    PluginUndoView::UninstallSkill {
                        skill_id: #[trigger] e.registration.skill_ids[i],
                    },
                )
            &&& forall|i: int|
                0 <= i < e.registration.mcp_server_ids.len() ==> undo.contains(
                    PluginUndoView::RemoveServer {
                        server_id: #[trigger] e.registration.mcp_server_ids[i],
                    },
                )
        }),
{
    let undo = undo_of(e.registration, e.has_skills, e.has_servers);
    let n = e.registration.skill_ids.len();
    let m = e.registration.mcp_server_ids.len();
    assert forall|i: int| 0 <= i < n implies undo.contains(
        PluginUndoView::UninstallSkill { skill_id: #[trigger] e.registration.skill_ids[i] },
    ) by {
        assert(undo[n - 1 - i] == (PluginUndoView::UninstallSkill {
            skill_id: e.registration.skill_ids[i],
        }));
    }
    assert forall|i: int| 0 <= i < m implies undo.contains(
        PluginUndoView::RemoveServer { server_id: #[trigger] e.registration.mcp_server_ids[i] },
    ) by {
        assert(undo[n + m - 1 - i] == (PluginUndoView::RemoveServer {
            server_id: e.registration.mcp_server_ids[i],
        }));
    }
}

/// How many steps there are until a plugin is enabled.
pub open spec fn steps_left(e: EnablingView) -> int {
    e.skill_paths.len() - e.skills_done + e.mcp_paths.len() - e.paths_done
}

/// Every step brings a plugin nearer to being enabled, and when there is none left it is enabled or
/// cannot be.
pub proof fn law_enabling_comes_to_an_end(e: EnablingView, skill_id: Seq<char>)
    requires
        e.skills_done <= e.skill_paths.len() <= usize::MAX,
        e.paths_done <= e.mcp_paths.len() <= usize::MAX,
    ensures
        next_step(e) matches Outcome::Done(PluginActionView::InstallSkill { .. }) ==> steps_left(
            with_skill(e, skill_id),
        ) == steps_left(e) - 1,
        next_step(e) matches Outcome::Done(PluginActionView::AddServers { .. }) ==> steps_left(
            with_servers(e),
        ) == steps_left(e) - 1,
        steps_left(e) >= 0,
        steps_left(e) == 0 ==> (next_step(e) == Outcome::Done(PluginActionView::Finish) || next_step(
            e,
        ) is Failed),
{
}

/// A plugin that did not become active, as others see it.
pub open spec fn inactive_event(view: PluginModel) -> EventView {
    EventView::PluginStatus {
        plugin_id: view.id,
        status: ascii_lowered(view.status),
        detail: match view.last_error {
            Some(error) => error,
            None => "activation did not become active"@,
        },
    }
}

pub fn plugin_inactive(view: &PluginView) -> (r: HarnessEvent)
    ensures
        r@ == inactive_event(view@),
{
    let detail: String = match &view.last_error {
        Some(error) => error.clone(),
        None => "activation did not become active".to_string(),
    };
    HarnessEvent::PluginStatus {
        plugin_id: view.id.clone(),
        status: to_ascii_lower(view.status.as_str()),
        detail,
    }
}

pub fn plugin_enabled(view: &PluginView) -> (r: HarnessEvent)
    ensures
        r@ == (EventView::PluginStatus {
            plugin_id: view@.id,
            status: ascii_lowered(view@.status),
            detail: "contributions="@ + decimal(view@.contribution_count as nat),
        }),
{
    let mut detail: String = "contributions=".to_string();
    detail.append(decimal_of(view.contribution_count as u64).as_str());
    HarnessEvent::PluginStatus {
        plugin_id: view.id.clone(),
        status: to_ascii_lower(view.status.as_str()),
        detail,
    }
}

pub fn plugin_disabled(view: &PluginView) -> (r: HarnessEvent)
    ensures
        r@ == (EventView::PluginStatus {
            plugin_id: view@.id,
            status: ascii_lowered(view@.status),
            detail: "contributions removed"@,
        }),
{
    HarnessEvent::PluginStatus {
        plugin_id: view.id.clone(),
        status: to_ascii_lower(view.status.as_str()),
        detail: "contributions removed".to_string(),
    }
}

/// What the plugins that are enabled have added.
pub struct PluginExtensions {
    pub entries: TextMap<PluginExtensionRegistration>,
}

impl View for PluginExtensions {
    type V = Map<Seq<char>, RegistrationView>;

    open spec fn view(&self) -> Map<Seq<char>, RegistrationView> {
        self.entries@
    }
}

impl PluginExtensions {
    pub fn new() -> (r: Self)
        ensures
            r@ == Map::<Seq<char>, RegistrationView>::empty(),
    {
        PluginExtensions { entries: TextMap::new() }
    }

    pub fn holds(&self, plugin_id: &str) -> (r: bool)
        ensures
            r == self@.contains_key(plugin_id@),
    {
        self.entries.contains_key(plugin_id)
    }

    /// Notes what a plugin has added.
    pub fn enabled(&mut self, enabling: PluginEnabling)
        ensures
            final(self)@ == old(self)@.insert(enabling@.plugin_id, enabling@.registration),
    {
        self.entries.insert(enabling.plugin_id, enabling.registration);
    }

    /// What is to be taken back of a plugin that is disabled. It is taken back once.
    pub fn disable_plugin(&mut self, plugin_id: &str, has_skills: bool, has_servers: bool) -> (r: Vec<
        PluginUndo,
    >)
        ensures
            final(self)@ == old(self)@.remove(plugin_id@),
            views(r@) == if old(self)@.contains_key(plugin_id@) {
                undo_of(old(self)@[plugin_id@], has_skills, has_servers)
            } else {
                Seq::empty()
            },
    {
        match self.entries.remove(plugin_id) {
            Some(registration) => rollback_plugin_extensions(
                &registration,
                has_skills,
                has_servers,
            ),
            None => {
                let none: Vec<PluginUndo> = Vec::new();
                assert(views(none@) =~= Seq::empty());
                none
            },
        }
    }
}

/// A server that is connected, as others see it.
pub open spec fn connected_event(server: ServerModel) -> EventView {
    EventView::McpStatus {
        server_id: server.id,
        status: ascii_lowered(server.status),
        detail: "tools="@ + decimal(server.supported_tool_count as nat) + "/"@ + decimal(
            server.tool_count as nat,
        ) + ", resources="@ + decimal(server.resource_count as nat) + ", prompts="@ + decimal(
            server.prompt_count as nat,
        ),
    }
}

pub fn mcp_connected(server: &McpServerView) -> (r: HarnessEvent)
    ensures
        r@ == connected_event(server@),
{
    let mut detail: String = "tools=".to_string();
    detail.append(decimal_of(server.supported_tool_count as u64).as_str());
    detail.append("/");
    detail.append(decimal_of(server.tool_count as u64).as_str());
    detail.append(", resources=");
    detail.append(decimal_of(server.resource_count as u64).as_str());
    detail.append(", prompts=");
    detail.append(decimal_of(server.prompt_count as u64).as_str());
    HarnessEvent::McpStatus {
        server_id: server.id.clone(),
        status: to_ascii_lower(server.status.as_str()),
        detail,
    }
}

/// The state of a sign-in at a server, as others see it.
pub open spec fn oauth_event(
    server_id: Seq<char>,
    authenticated: bool,
    pending: bool,
    credential_id: Option<Seq<char>>,
) -> EventView {
    EventView::McpStatus {
        server_id,
        status: if authenticated {
            "authenticated"@
        } else if pending {
            "oauth-pending"@
        } else {
            "unauthenticated"@
        },
        detail: match credential_id {
            Some(id) => "credential="@ + id,
            None => "no credential"@,
        },
    }
}

pub fn publish_mcp_oauth_status(
    server_id: &str,
    authenticated: bool,
    pending: bool,
    credential_id: Option<&str>,
) -> (r: HarnessEvent)
    ensures
        r@ == oauth_event(
            server_id@,
            authenticated,
            pending,
            match credential_id {
                Some(id) => Some(id@),
                None => None,
            },
        ),
{
    let status: String = if authenticated {
        "authenticated".to_string()
    } else if pending {
        "oauth-pending".to_string()
    } else {
        "unauthenticated".to_string()
    };
    let detail: String = match credential_id {
        Some(id) => {
            let mut text: String = "credential=".to_string();
            text.append(id);
            text
        },
        None => "no credential".to_string(),
    };
    HarnessEvent::McpStatus { server_id: server_id.to_string(), status, detail }
}

/// The account as it is shown.
pub fn account(configured: bool) -> (r: AuthView)
    ensures
        r@ == (AuthModel {
            provider_id: "openai"@,
            auth_method: "api-key"@,
            configured,
            storage: "os-credential-store"@,
        }),
{
    AuthView {
        provider_id: "openai".to_string(),
        auth_method: "api-key".to_string(),
        configured,
        storage: "os-credential-store".to_string(),
    }
}

/// Only one account can be signed out of.
pub fn logout(provider: &str) -> (r: Result<(), ApplicationError>)
    ensures
        unit_outcome(r) == if provider@ != "openai"@ {
            failure(
                "logout-provider-unsupported"@,
                "当前只实现 OpenAI API Key logout："@ + provider@,
            )
        } else {
            Outcome::Done(())
        },
{
    if !same(provider, "openai") {
        let mut message: String = "当前只实现 OpenAI API Key logout：".to_string();
        message.append(provider);
        return Err(ApplicationError::new("logout-provider-unsupported", message.as_str()));
    }
    Ok(())
}

} // verus!
