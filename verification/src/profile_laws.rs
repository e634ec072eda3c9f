//! What holds of the profiles of all roles.

use vstd::prelude::*;

use crate::profile::{is_filled, profile_of, profile_outcome, sources_of};
use crate::profiles_build_hold::{
    lemma_coder, lemma_debugger, lemma_merge_agent, lemma_release_manager,
};
use crate::profiles_control_hold::{lemma_coordinator, lemma_staffing_router, lemma_supervisor};
use crate::profiles_design_hold::{
    lemma_architect, lemma_explorer, lemma_planner, lemma_requirements_analyst, lemma_researcher,
};
use crate::profiles_quality_hold::{
    lemma_performance_engineer, lemma_reviewer, lemma_security_auditor, lemma_tester,
};
use crate::roles::AgentRole;
use crate::text::{is_blank_text, is_white_space, lemma_blank};

verus! {

/// A text that begins with a character that can be seen is not blank.
pub broadcast proof fn lemma_said(s: Seq<char>)
    requires
        s.len() > 0,
        !is_white_space(s[0]),
    ensures
        !#[trigger] is_blank_text(s),
{
    lemma_blank(s);
}

pub proof fn lemma_sources(role: AgentRole)
    ensures
        is_filled(sources_of(role)),
{
    broadcast use lemma_said;

    reveal_strlit("https://basecamp.com/shapeup/0.3-chapter-01");
    reveal_strlit("https://basecamp.com/shapeup/2.3-chapter-09");
    reveal_strlit("https://www.12factor.net/");
    reveal_strlit("https://github.com/microsoft/api-guidelines");
    reveal_strlit("https://playwright.dev/docs/best-practices");
    reveal_strlit("https://martinfowler.com/articles/practical-test-pyramid.html");
    reveal_strlit("https://martinfowler.com/bliki/DeploymentPipeline.html");
    reveal_strlit("https://sre.google/workbook/part-I-foundations/");
    reveal_strlit("https://opentelemetry.io/docs/concepts/observability-primer/");
    reveal_strlit("https://docs.github.com/en/search-github/searching-on-github/searching-code");
    reveal_strlit("https://google.github.io/eng-practices/review/");
    reveal_strlit("https://owasp.org/www-project-application-security-verification-standard/");
    reveal_strlit("https://sre.google/workbook/monitoring/");
}

/// The identifier of the profile of a role.
pub open spec fn profile_id_of(role: AgentRole) -> Seq<char> {
    match role {
        AgentRole::RequirementsAnalyst => "requirements-v1"@,
        AgentRole::Explorer => "explorer-v1"@,
        AgentRole::Architect => "architect-v1"@,
        AgentRole::Planner => "planner-v1"@,
        AgentRole::Coder => "coder-v1"@,
        AgentRole::Reviewer => "review-v1"@,
        AgentRole::SecurityAuditor => "security-v1"@,
        AgentRole::PerformanceEngineer => "performance-v1"@,
        AgentRole::Tester => "tester-v1"@,
        AgentRole::ReleaseManager => "release-v1"@,
        AgentRole::Debugger => "debugger-v1"@,
        AgentRole::Researcher => "researcher-v1"@,
        AgentRole::MergeAgent => "merge-v1"@,
        AgentRole::Coordinator => "coordinator-v1"@,
        AgentRole::StaffingRouter => "staffing-router-v1"@,
        AgentRole::Supervisor => "supervisor-v1"@,
    }
}

proof fn lemma_profile_id(role: AgentRole)
    ensures
        profile_of(role).profile_id == profile_id_of(role),
        profile_of(role).role == role,
        profile_of(role).methodology_sources == sources_of(role),
{
}

/// Each role has a profile of its own, which holds together and says where its way of working is
/// described. Only those who explore and those who staff write nothing into the memory, and only
/// those who staff call no tools.
pub proof fn law_every_role_has_a_profile(role: AgentRole)
    ensures
        profile_of(role).role == role,
        profile_outcome(profile_of(role)) is Done,
        profile_of(role).write_scope is None <==> role is Explorer || role is StaffingRouter,
        profile_of(role).model_policy.max_tool_calls == 0 <==> role is StaffingRouter,
        profile_of(role).methodology_sources == sources_of(role),
        profile_of(role).methodology_sources.len() > 0,
{
    lemma_profile_id(role);
    lemma_sources(role);
    match role {
        AgentRole::RequirementsAnalyst => {
            lemma_requirements_analyst();
        },
        AgentRole::Explorer => {
            lemma_explorer();
        },
        AgentRole::Architect => {
            lemma_architect();
        },
        AgentRole::Planner => {
            lemma_planner();
        },
        AgentRole::Coder => {
            lemma_coder();
        },
        AgentRole::Reviewer => {
            lemma_reviewer();
        },
        AgentRole::SecurityAuditor => {
            lemma_security_auditor();
        },
        AgentRole::PerformanceEngineer => {
            lemma_performance_engineer();
        },
        AgentRole::Tester => {
            lemma_tester();
        },
        AgentRole::ReleaseManager => {
            lemma_release_manager();
        },
        AgentRole::Debugger => {
            lemma_debugger();
        },
        AgentRole::Researcher => {
            lemma_researcher();
        },
        AgentRole::MergeAgent => {
            lemma_merge_agent();
        },
        AgentRole::Coordinator => {
            lemma_coordinator();
        },
        AgentRole::StaffingRouter => {
            lemma_staffing_router();
        },
        AgentRole::Supervisor => {
            lemma_supervisor();
        },
    }
}

/// Different roles have profiles under different identifiers.
#[verifier::rlimit(60)]
pub proof fn law_profiles_are_told_apart(role: AgentRole, other: AgentRole)
    requires
        role != other,
    ensures
        profile_of(role).profile_id != profile_of(other).profile_id,
{
    lemma_profile_id(role);
    lemma_profile_id(other);
    reveal_strlit("requirements-v1");
    reveal_strlit("explorer-v1");
    reveal_strlit("architect-v1");
    reveal_strlit("planner-v1");
    reveal_strlit("coder-v1");
    reveal_strlit("review-v1");
    reveal_strlit("security-v1");
    reveal_strlit("performance-v1");
    reveal_strlit("tester-v1");
    reveal_strlit("release-v1");
    reveal_strlit("debugger-v1");
    reveal_strlit("researcher-v1");
    reveal_strlit("merge-v1");
    reveal_strlit("coordinator-v1");
    reveal_strlit("staffing-router-v1");
    reveal_strlit("supervisor-v1");
    assert("requirements-v1"@.len() == 15);
    assert("explorer-v1"@.len() == 11);
    assert("architect-v1"@.len() == 12);
    assert("planner-v1"@.len() == 10);
    assert("coder-v1"@.len() == 8);
    assert("review-v1"@.len() == 9);
    assert("security-v1"@.len() == 11);
    assert("performance-v1"@.len() == 14);
    assert("tester-v1"@.len() == 9);
    assert("release-v1"@.len() == 10);
    assert("debugger-v1"@.len() == 11);
    assert("researcher-v1"@.len() == 13);
    assert("merge-v1"@.len() == 8);
    assert("coordinator-v1"@.len() == 14);
    assert("staffing-router-v1"@.len() == 18);
    assert("supervisor-v1"@.len() == 13);
    assert("explorer-v1"@[0] == 'e');
    assert("security-v1"@[0] == 's');
    assert("debugger-v1"@[0] == 'd');
    assert("planner-v1"@[0] == 'p');
    assert("release-v1"@[0] == 'r');
    assert("coder-v1"@[0] == 'c');
    assert("merge-v1"@[0] == 'm');
    assert("review-v1"@[0] == 'r');
    assert("tester-v1"@[0] == 't');
    assert("performance-v1"@[0] == 'p');
    assert("coordinator-v1"@[0] == 'c');
    assert("researcher-v1"@[0] == 'r');
    assert("supervisor-v1"@[0] == 's');
}

} // verus!
