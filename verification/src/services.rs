//! What is said and decided about the services around a session: its model, its browser, its servers
//! and its skills.

use vstd::prelude::*;
use vstd::string::*;

use crate::error::{failure, outcome, ApplicationError, Outcome};
use crate::mission::{EventPriority, EventView, HarnessEvent};
use crate::profile::ReasoningLevel;
use crate::session::{has_model, SessionCommand, SessionCommandView, SessionModel};
use crate::text::{ascii_lowered, decimal, decimal_of, to_ascii_lower};

verus! {

/// What is to be done about a choice: nothing if it stands already; else the runtime takes it up, the
/// session is told by a command, and if it refuses, the runtime goes back.
#[derive(Debug, PartialEq, Eq)]
pub enum ModelChoice {
    Keep,
    Change { command: SessionCommand },
}

pub enum ModelChoiceView {
    Keep,
    Change { command: SessionCommandView },
}

impl View for ModelChoice {
    type V = ModelChoiceView;

    open spec fn view(&self) -> ModelChoiceView {
        match *self {
            ModelChoice::Keep => ModelChoiceView::Keep,
            ModelChoice::Change { command } => ModelChoiceView::Change { command: command@ },
        }
    }
}

pub open spec fn choice(stands: bool, ready: bool, command: SessionCommandView) -> Outcome<
    ModelChoiceView,
> {
    if stands {
        Outcome::Done(ModelChoiceView::Keep)
    } else if !ready {
        failure("model-runtime-missing"@, "Model Runtime 尚未注入"@)
    } else {
        Outcome::Done(ModelChoiceView::Change { command })
    }
}

/// What is to be done when a model is selected.
pub fn select_model(session: &SessionModel, ready: bool, provider_id: &str, model_id: &str) -> (r: Result<
    ModelChoice,
    ApplicationError,
>)
    ensures
        outcome(r) == choice(
            session@.provider_id == Some(provider_id@) && session@.model_id == Some(model_id@),
            ready,
            SessionCommandView::SelectModel { provider_id: provider_id@, model_id: model_id@ },
        ),
{
    if has_model(session, provider_id, model_id) {
        return Ok(ModelChoice::Keep);
    }
    if !ready {
        return Err(ApplicationError::new("model-runtime-missing", "Model Runtime 尚未注入"));
    }
    Ok(
        ModelChoice::Change {
            command: SessionCommand::SelectModel {
                provider_id: provider_id.to_string(),
                model_id: model_id.to_string(),
            },
        },
    )
}

/// What is to be done when a level of reasoning is set.
pub fn set_reasoning(session: &SessionModel, ready: bool, reasoning: ReasoningLevel) -> (r: Result<
    ModelChoice,
    ApplicationError,
>)
    ensures
        outcome(r) == choice(
            session@.reasoning == reasoning,
            ready,
            SessionCommandView::SetReasoning { reasoning },
        ),
{
    if session.reasoning == reasoning {
        return Ok(ModelChoice::Keep);
    }
    if !ready {
        return Err(ApplicationError::new("model-runtime-missing", "Model Runtime 尚未注入"));
    }
    Ok(ModelChoice::Change { command: SessionCommand::SetReasoning { reasoning } })
}

/// The provider whose models are read anew: one has to be named, so that no others are asked.
pub fn refresh_models(ready: bool, provider_id: Option<String>) -> (r: Result<String, ApplicationError>)
    ensures
        outcome(r) == (if !ready {
            failure("model-runtime-missing"@, "Model Runtime 尚未注入"@)
        } else {
            match provider_id {
                Some(provider) => Outcome::Done(provider@),
                None => failure(
                    "model-refresh-provider-required"@,
                    "刷新必须显式指定一个 Provider，避免无意访问多个网络目录"@,
                ),
            }
        }),
{
    if !ready {
        return Err(ApplicationError::new("model-runtime-missing", "Model Runtime 尚未注入"));
    }
    match provider_id {
        Some(provider) => Ok(provider),
        None => Err(
            ApplicationError::new(
                "model-refresh-provider-required",
                "刷新必须显式指定一个 Provider，避免无意访问多个网络目录",
            ),
        ),
    }
}

/// The command that locks or unlocks the goal.
pub fn set_goal_lock(locked: bool) -> (r: SessionCommand)
    ensures
        r@ == (SessionCommandView::SetGoalLock { locked }),
{
    SessionCommand::SetGoalLock { locked }
}

/// What is said of a browser that was opened; the status is given by its name.
pub fn open_browser(session_id: &str, status: &str) -> (r: (HarnessEvent, EventPriority))
    ensures
        r.0@ == (EventView::BrowserStatus {
            session_id: session_id@,
            status: ascii_lowered(status@),
            detail: "isolated profile ready"@,
        }),
        r.1 is Normal,
{
    (
        HarnessEvent::BrowserStatus {
            session_id: session_id.to_string(),
            status: to_ascii_lower(status),
            detail: "isolated profile ready".to_string(),
        },
        EventPriority::Normal,
    )
}

/// What is said of a browser that went to a page.
pub fn navigate_browser(session_id: &str, url: &str) -> (r: (HarnessEvent, EventPriority))
    ensures
        r.0@ == (EventView::BrowserStatus {
            session_id: session_id@,
            status: "navigated"@,
            detail: url@,
        }),
        r.1 is Normal,
{
    (
        HarnessEvent::BrowserStatus {
            session_id: session_id.to_string(),
            status: "navigated".to_string(),
            detail: url.to_string(),
        },
        EventPriority::Normal,
    )
}

/// What is said of a browser that was closed.
pub fn close_browser(session_id: &str) -> (r: (HarnessEvent, EventPriority))
    ensures
        r.0@ == (EventView::BrowserStatus {
            session_id: session_id@,
            status: "closed"@,
            detail: "process reaped"@,
        }),
        r.1 is Normal,
{
    (
        HarnessEvent::BrowserStatus {
            session_id: session_id.to_string(),
            status: "closed".to_string(),
            detail: "process reaped".to_string(),
        },
        EventPriority::Normal,
    )
}

/// What is said of a browser that the user has taken over.
pub fn handoff_browser(session_id: &str) -> (r: (HarnessEvent, EventPriority))
    ensures
        r.0@ == (EventView::BrowserStatus {
            session_id: session_id@,
            status: "user-control"@,
            detail: "visible browser uses the same isolated profile"@,
        }),
        r.1 is Critical,
{
    (
        HarnessEvent::BrowserStatus {
            session_id: session_id.to_string(),
            status: "user-control".to_string(),
            detail: "visible browser uses the same isolated profile".to_string(),
        },
        EventPriority::Critical,
    )
}

/// What is said of a browser that the user has given back.
pub fn reclaim_browser(session_id: &str) -> (r: (HarnessEvent, EventPriority))
    ensures
        r.0@ == (EventView::BrowserStatus {
            session_id: session_id@,
            status: "agent-control"@,
            detail: "headless browser restored with the same isolated profile"@,
        }),
        r.1 is Critical,
{
    (
        HarnessEvent::BrowserStatus {
            session_id: session_id.to_string(),
            status: "agent-control".to_string(),
            detail: "headless browser restored with the same isolated profile".to_string(),
        },
        EventPriority::Critical,
    )
}

/// What is said of a server that was added.
pub fn mcp_add_server(server_id: &str, transport: &str) -> (r: (HarnessEvent, EventPriority))
    ensures
        r.0@ == (EventView::McpStatus {
            server_id: server_id@,
            status: "added"@,
            detail: transport@ + " · runtime-only"@,
        }),
        r.1 is Normal,
{
    let mut detail: String = transport.to_string();
    detail.append(" · runtime-only");
    (
        HarnessEvent::McpStatus {
            server_id: server_id.to_string(),
            status: "added".to_string(),
            detail,
        },
        EventPriority::Normal,
    )
}

/// What is said of a server that was removed.
pub fn mcp_remove_server(server_id: &str) -> (r: (HarnessEvent, EventPriority))
    ensures
        r.0@ == (EventView::McpStatus {
            server_id: server_id@,
            status: "removed"@,
            detail: "runtime registry"@,
        }),
        r.1 is Normal,
{
    (
        HarnessEvent::McpStatus {
            server_id: server_id.to_string(),
            status: "removed".to_string(),
            detail: "runtime registry".to_string(),
        },
        EventPriority::Normal,
    )
}

/// What is said of a server that was enabled.
pub fn mcp_enable_server(server_id: &str) -> (r: (HarnessEvent, EventPriority))
    ensures
        r.0@ == (EventView::McpStatus {
            server_id: server_id@,
            status: "enabled"@,
            detail: "permission allowlist synchronized"@,
        }),
        r.1 is Normal,
{
    (
        HarnessEvent::McpStatus {
            server_id: server_id.to_string(),
            status: "enabled".to_string(),
            detail: "permission allowlist synchronized".to_string(),
        },
        EventPriority::Normal,
    )
}

/// What is said of a server that was disabled.
pub fn mcp_disable_server(server_id: &str) -> (r: (HarnessEvent, EventPriority))
    ensures
        r.0@ == (EventView::McpStatus {
            server_id: server_id@,
            status: "disabled"@,
            detail: "disconnected and permission allowlist removed"@,
        }),
        r.1 is Normal,
{
    (
        HarnessEvent::McpStatus {
            server_id: server_id.to_string(),
            status: "disabled".to_string(),
            detail: "disconnected and permission allowlist removed".to_string(),
        },
        EventPriority::Normal,
    )
}

/// What is said of a server that was disconnected.
pub fn mcp_disconnect(server_id: &str) -> (r: (HarnessEvent, EventPriority))
    ensures
        r.0@ == (EventView::McpStatus {
            server_id: server_id@,
            status: "disconnected"@,
            detail: "catalog contributions removed"@,
        }),
        r.1 is Normal,
{
    (
        HarnessEvent::McpStatus {
            server_id: server_id.to_string(),
            status: "disconnected".to_string(),
            detail: "catalog contributions removed".to_string(),
        },
        EventPriority::Normal,
    )
}

/// What is said of a sign-in that was begun.
pub fn mcp_oauth_start(server_id: &str, redirect_uri: &str) -> (r: (HarnessEvent, EventPriority))
    ensures
        r.0@ == (EventView::McpStatus {
            server_id: server_id@,
            status: "oauth-pending"@,
            detail: "callback="@ + redirect_uri@,
        }),
        r.1 is Normal,
{
    let mut detail: String = "callback=".to_string();
    detail.append(redirect_uri);
    (
        HarnessEvent::McpStatus {
            server_id: server_id.to_string(),
            status: "oauth-pending".to_string(),
            detail,
        },
        EventPriority::Normal,
    )
}

/// What is said of a skill that was loaded.
pub fn load_skill(skill_id: &str, prompt_bytes: usize, references: usize) -> (r: (HarnessEvent, EventPriority))
    ensures
        r.0@ == (EventView::SkillStatus {
            skill_id: skill_id@,
            status: "loaded"@,
            detail: "promptBytes="@ + decimal(prompt_bytes as nat) + ", references="@ + decimal(references as nat),
        }),
        r.1 is Normal,
{
    let mut detail: String = "promptBytes=".to_string();
    detail.append(decimal_of(prompt_bytes as u64).as_str());
    detail.append(", references=");
    detail.append(decimal_of(references as u64).as_str());
    (
        HarnessEvent::SkillStatus {
            skill_id: skill_id.to_string(),
            status: "loaded".to_string(),
            detail,
        },
        EventPriority::Normal,
    )
}

/// What is said of a skill that was unloaded.
pub fn unload_skill(skill_id: &str) -> (r: (HarnessEvent, EventPriority))
    ensures
        r.0@ == (EventView::SkillStatus {
            skill_id: skill_id@,
            status: "metadata-only"@,
            detail: "prompt/reference cache released"@,
        }),
        r.1 is Normal,
{
    (
        HarnessEvent::SkillStatus {
            skill_id: skill_id.to_string(),
            status: "metadata-only".to_string(),
            detail: "prompt/reference cache released".to_string(),
        },
        EventPriority::Normal,
    )
}

/// What is said when a system is started, when it is ready, and when its session is open.
pub fn boot(version: &str, mode: &str, project_root: &str) -> (r: Vec<(HarnessEvent, EventPriority)>)
    ensures
        r@.len() == 3,
        r@[0].0@ == (EventView::SystemStarted { version: version@, mode: mode@ }),
        r@[0].1 is Critical,
        r@[1].0@ == (EventView::SystemReady { project_root: project_root@ }),
        r@[1].1 is Critical,
        r@[2].0@ == (EventView::SessionChanged { status: "active"@ }),
        r@[2].1 is Normal,
{
    vec![
        (
            HarnessEvent::SystemStarted { version: version.to_string(), mode: mode.to_string() },
            EventPriority::Critical,
        ),
        (
            HarnessEvent::SystemReady { project_root: project_root.to_string() },
            EventPriority::Critical,
        ),
        (HarnessEvent::SessionChanged { status: "active".to_string() }, EventPriority::Normal),
    ]
}

/// What is said when a system is shut down.
pub fn shutdown(reason: &str) -> (r: (HarnessEvent, EventPriority))
    ensures
        r.0@ == (EventView::SystemShutdown { reason: reason@ }),
        r.1 is Critical,
{
    (HarnessEvent::SystemShutdown { reason: reason.to_string() }, EventPriority::Critical)
}

} // verus!
