//! How a team is mustered, from agent to agent: each is started, its effect is claimed, it is briefed
//! and equipped, until all of them can be called.

use vstd::prelude::*;
use vstd::string::*;

use crate::application::{AppView, HarnessApplication, PreparedAgentTeam, PreparedView};
use crate::error::{failure, outcome, ApplicationError, Outcome};
use crate::execution::{AgentWorkingContext, RequestView, WorkingView};
use crate::mission::{
    ClaimedEffect, ClaimedEffectView, CommandView, EffectEntry, EffectView, EventPriority,
    MissionCommand, MissionNode, MissionNodeView, MissionState, MissionStep, MissionStepView,
    MissionView,
};
use crate::model::{group_views, option_view, views, Duplicate};
use crate::roles::AgentRole;
use crate::runs::{begin_run_step, session_of_run, set_fingerprint_step};
use crate::state_store::{AgentSession, SessionView};
use crate::text::texts;
use crate::waves::{
    add_dependencies, agent_status, agent_status_event, check_recovered, claimable_recovery_effect,
    claimable_start_effect, dependency_summary, dependency_text, effect_or, empty_team,
    endpoint_of_run, enlisted, first_effect, mustered, permitted, recovered_request,
    recovery_check, research_asked, research_request, role_request, run_endpoint, tools_query,
    wave_request, with_dependencies, DescriptorView, ToolDescriptor,
};
use crate::exchange::{ToolDefinition, ToolView};

verus! {

/// What a team is mustered for.
#[derive(Clone, Copy, Debug, PartialEq, Eq, Structural)]
pub enum MusterKind {
    Research,
    Wave,
    Recovery,
}

/// An agent that is still to be mustered: its task, and its session if it goes on after a restart.
pub struct Recruit {
    pub task_id: String,
    pub session: Option<AgentSession>,
}

pub struct RecruitView {
    pub task_id: Seq<char>,
    pub session: Option<SessionView>,
}

impl View for Recruit {
    type V = RecruitView;

    open spec fn view(&self) -> RecruitView {
        RecruitView {
            task_id: self.task_id@,
            session: option_view(self.session),
        }
    }
}

/// A team that is being mustered.
pub struct Muster {
    pub kind: MusterKind,
    pub mission: MissionState,
    pub steering: Vec<String>,
    pub recruits: Vec<Recruit>,
    pub team: PreparedAgentTeam,
}

pub struct MusterView {
    pub kind: MusterKind,
    pub mission: MissionView,
    pub steering: Seq<Seq<char>>,
    pub recruits: Seq<RecruitView>,
    pub team: PreparedView,
}

impl View for Muster {
    type V = MusterView;

    open spec fn view(&self) -> MusterView {
        MusterView {
            kind: self.kind,
            mission: self.mission@,
            steering: texts(self.steering@),
            recruits: views(self.recruits@),
            team: self.team@,
        }
    }
}

/// The agent that is being mustered, the node it works on, and when it was started.
pub struct Member {
    pub node: MissionNode,
    pub run_id: String,
    pub session: Option<AgentSession>,
    pub started: i64,
}

pub struct MemberView {
    pub node: MissionNodeView,
    pub run_id: Seq<char>,
    pub session: Option<SessionView>,
    pub started: i64,
}

impl View for Member {
    type V = MemberView;

    open spec fn view(&self) -> MemberView {
        MemberView {
            node: self.node@,
            run_id: self.run_id@,
            session: option_view(self.session),
            started: self.started,
        }
    }
}

/// What is known of the agent that is being mustered once it was briefed.
pub struct Crew {
    pub claimed: ClaimedEffect,
    pub agent_id: String,
    pub role: AgentRole,
    pub context: AgentWorkingContext,
    pub state: MissionState,
}

pub struct CrewView {
    pub claimed: ClaimedEffectView,
    pub agent_id: Seq<char>,
    pub role: AgentRole,
    pub context: WorkingView,
    pub state: MissionView,
}

impl View for Crew {
    type V = CrewView;

    open spec fn view(&self) -> CrewView {
        CrewView {
            claimed: self.claimed@,
            agent_id: self.agent_id@,
            role: self.role,
            context: self.context@,
            state: self.state@,
        }
    }
}

/// How far a team is mustered: a run is named and started, its effect is found and claimed, the agent is
/// briefed, what its node waited for is counted, it is shown, and it is equipped with tools.
pub enum MusterPhase {
    Naming { muster: Muster, node: MissionNode },
    Starting { muster: Muster, member: Member },
    Listing { muster: Muster, member: Member },
    Claiming { muster: Muster, member: Member },
    Briefing { muster: Muster, member: Member, claimed: ClaimedEffect },
    Counting { muster: Muster, member: Member, crew: Crew, summary: String },
    Showing { muster: Muster, member: Member, crew: Crew },
    Equipping { muster: Muster, member: Member, crew: Crew, endpoint_id: String },
    Over,
}

pub enum MusterPhaseView {
    Naming { muster: MusterView, node: MissionNodeView },
    Starting { muster: MusterView, member: MemberView },
    Listing { muster: MusterView, member: MemberView },
    Claiming { muster: MusterView, member: MemberView },
    Briefing { muster: MusterView, member: MemberView, claimed: ClaimedEffectView },
    Counting { muster: MusterView, member: MemberView, crew: CrewView, summary: Seq<char> },
    Showing { muster: MusterView, member: MemberView, crew: CrewView },
    Equipping { muster: MusterView, member: MemberView, crew: CrewView, endpoint_id: Seq<char> },
    Over,
}

impl View for MusterPhase {
    type V = MusterPhaseView;

    open spec fn view(&self) -> MusterPhaseView {
        match *self {
            MusterPhase::Naming { muster, node } => MusterPhaseView::Naming {
                muster: muster@,
                node: node@,
            },
            MusterPhase::Starting { muster, member } => MusterPhaseView::Starting {
                muster: muster@,
                member: member@,
            },
            MusterPhase::Listing { muster, member } => MusterPhaseView::Listing {
                muster: muster@,
                member: member@,
            },
            MusterPhase::Claiming { muster, member } => MusterPhaseView::Claiming {
                muster: muster@,
                member: member@,
            },
            MusterPhase::Briefing { muster, member, claimed } => MusterPhaseView::Briefing {
                muster: muster@,
                member: member@,
                claimed: claimed@,
            },
            MusterPhase::Counting { muster, member, crew, summary } => MusterPhaseView::Counting {
                muster: muster@,
                member: member@,
                crew: crew@,
                summary: summary@,
            },
            MusterPhase::Showing { muster, member, crew } => MusterPhaseView::Showing {
                muster: muster@,
                member: member@,
                crew: crew@,
            },
            MusterPhase::Equipping { muster, member, crew, endpoint_id } => MusterPhaseView::Equipping {
                muster: muster@,
                member: member@,
                crew: crew@,
                endpoint_id: endpoint_id@,
            },
            MusterPhase::Over => MusterPhaseView::Over,
        }
    }
}

/// What came of an action.
pub enum MusterReply {
    Named { run_id: String },
    Did,
    Effects { entries: Vec<EffectEntry> },
    Claimed { claimed: Option<ClaimedEffect> },
    Briefed { state: MissionState, context: AgentWorkingContext },
    Counted { tokens: u32 },
    Found { tools: Vec<ToolDescriptor> },
}

pub enum MusterReplyView {
    Named { run_id: Seq<char> },
    Did,
    Effects { entries: Seq<EffectView> },
    Claimed { claimed: Option<ClaimedEffectView> },
    Briefed { state: MissionView, context: WorkingView },
    Counted { tokens: u32 },
    Found { tools: Seq<DescriptorView> },
}

impl View for MusterReply {
    type V = MusterReplyView;

    open spec fn view(&self) -> MusterReplyView {
        match *self {
            MusterReply::Named { run_id } => MusterReplyView::Named {
                run_id: run_id@,
            },
            MusterReply::Did => MusterReplyView::Did,
            MusterReply::Effects { entries } => MusterReplyView::Effects {
                entries: views(entries@),
            },
            MusterReply::Claimed { claimed } => MusterReplyView::Claimed {
                claimed: option_view(claimed),
            },
            MusterReply::Briefed { state, context } => MusterReplyView::Briefed {
                state: state@,
                context: context@,
            },
            MusterReply::Counted { tokens } => MusterReplyView::Counted {
                tokens,
            },
            MusterReply::Found { tools } => MusterReplyView::Found {
                tools: views(tools@),
            },
        }
    }
}

/// What is to be done next.
pub enum MusterAction {
    /// Give a name to a run.
    NameRun,
    /// Do these steps, in order.
    Do { steps: Vec<MissionStep> },
    /// List the effects that can be claimed.
    ListEffects,
    Claim { effect_id: String },
    /// Read the mission, and put together what an agent for this node is told.
    Brief { node_id: String },
    /// Count the tokens of a text.
    Count { text: String },
    /// Find tools.
    FindTools { query: String },
    /// The team can be called.
    Ready { team: PreparedAgentTeam },
}

pub enum MusterActionView {
    NameRun,
    Do { steps: Seq<MissionStepView> },
    ListEffects,
    Claim { effect_id: Seq<char> },
    Brief { node_id: Seq<char> },
    Count { text: Seq<char> },
    FindTools { query: Seq<char> },
    Ready { team: PreparedView },
}

impl View for MusterAction {
    type V = MusterActionView;

    open spec fn view(&self) -> MusterActionView {
        match *self {
            MusterAction::NameRun => MusterActionView::NameRun,
            MusterAction::Do { steps } => MusterActionView::Do { steps: views(steps@) },
            MusterAction::ListEffects => MusterActionView::ListEffects,
            MusterAction::Claim { effect_id } => MusterActionView::Claim { effect_id: effect_id@ },
            MusterAction::Brief { node_id } => MusterActionView::Brief { node_id: node_id@ },
            MusterAction::Count { text } => MusterActionView::Count { text: text@ },
            MusterAction::FindTools { query } => MusterActionView::FindTools { query: query@ },
            MusterAction::Ready { team } => MusterActionView::Ready { team: team@ },
        }
    }
}

pub open spec fn muster_reply_fits(phase: MusterPhaseView, reply: MusterReplyView) -> bool {
    match phase {
        MusterPhaseView::Naming { .. } => reply is Named,
        MusterPhaseView::Starting { .. } => reply is Did,
        MusterPhaseView::Listing { .. } => reply is Effects,
        MusterPhaseView::Claiming { .. } => reply is Claimed,
        MusterPhaseView::Briefing { .. } => reply is Briefed,
        MusterPhaseView::Counting { .. } => reply is Counted,
        MusterPhaseView::Showing { .. } => reply is Did,
        MusterPhaseView::Equipping { .. } => reply is Found,
        MusterPhaseView::Over => false,
    }
}

pub open spec fn muster_on(phase: MusterPhaseView, action: MusterActionView) -> Outcome<
    (MusterPhaseView, MusterActionView),
> {
    Outcome::Done((phase, action))
}

/// The node of an agent that is to be mustered.
pub open spec fn recruit_node(m: MissionView, recruit: RecruitView) -> Outcome<MissionNodeView> {
    match recruit.session {
        Some(session) => recovery_check(m, session),
        None => if m.nodes.contains_key(recruit.task_id) {
            Outcome::Done(m.nodes[recruit.task_id])
        } else {
            failure("agent-node-missing"@, recruit.task_id)
        },
    }
}

/// The next agent; after the last one the team is complete.
pub open spec fn next_recruit(s: AppView, m: MusterView, now: i64) -> Outcome<
    (MusterPhaseView, MusterActionView),
> {
    if m.recruits.len() == 0 {
        match mustered(m.team, s.agent_budget_policy.max_parallel_agents, now) {
            Outcome::Failed(e) => Outcome::Failed(e),
            Outcome::Done(team) => muster_on(
                MusterPhaseView::Over,
                MusterActionView::Ready { team },
            ),
        }
    } else {
        let recruit = m.recruits[0];
        let left = MusterView { recruits: m.recruits.subrange(1, m.recruits.len() as int), ..m };
        match recruit_node(m.mission, recruit) {
            Outcome::Failed(e) => Outcome::Failed(e),
            Outcome::Done(node) => match recruit.session {
                Some(session) => muster_on(
                    MusterPhaseView::Listing {
                        muster: left,
                        member: MemberView {
                            node,
                            run_id: session.run_id,
                            session: Some(session),
                            started: now,
                        },
                    },
                    MusterActionView::ListEffects,
                ),
                None => muster_on(
                    MusterPhaseView::Naming { muster: left, node },
                    MusterActionView::NameRun,
                ),
            },
        }
    }
}

/// What the agent that is being mustered is asked.
pub open spec fn member_request(
    m: MusterView,
    member: MemberView,
    crew: CrewView,
    endpoint_id: Seq<char>,
    tools: Seq<ToolView>,
) -> RequestView {
    match member.session {
        Some(session) => role_request(
            session.id,
            m.mission.mission_id,
            session.task_id,
            session.run_id,
            session.parent_run_id,
            session.endpoint_id,
            crew.agent_id,
            crew.role,
            m.mission.goal + "\n恢复任务 "@ + session.task_id + "："@ + member.node.title,
            member.started,
            crew.context,
            m.steering,
            tools,
        ),
        None => if m.kind is Research {
            research_asked(
                m.mission.mission_id,
                m.team.continuation.prompt,
                member.node.id,
                member.run_id,
                endpoint_id,
                crew.agent_id,
                crew.role,
                member.started,
                crew.context,
                m.steering,
            )
        } else {
            role_request(
                session_of_run(member.run_id),
                m.mission.mission_id,
                member.node.id,
                member.run_id,
                None,
                endpoint_id,
                crew.agent_id,
                crew.role,
                m.mission.goal + "\n当前节点："@ + member.node.title,
                member.started,
                crew.context,
                m.steering,
                tools,
            )
        },
    }
}

/// An agent joins the team, and the next one is mustered.
pub open spec fn joined_step(
    s: AppView,
    m: MusterView,
    member: MemberView,
    crew: CrewView,
    endpoint_id: Seq<char>,
    tools: Seq<ToolView>,
    now: i64,
) -> Outcome<(MusterPhaseView, MusterActionView)> {
    let request = member_request(m, member, crew, endpoint_id, tools);
    next_recruit(s, MusterView { team: enlisted(m.team, request, crew.claimed), ..m }, now)
}

/// An agent is equipped: its endpoint has to be known, and tools are looked for unless it is there for
/// research.
pub open spec fn equip_step(
    s: AppView,
    m: MusterView,
    member: MemberView,
    crew: CrewView,
    now: i64,
) -> Outcome<(MusterPhaseView, MusterActionView)> {
    let endpoint = match member.session {
        Some(session) => Outcome::Done(session.endpoint_id),
        None => run_endpoint(crew.state, member.run_id),
    };
    match endpoint {
        Outcome::Failed(e) => Outcome::Failed(e),
        Outcome::Done(endpoint_id) => if m.kind is Research {
            joined_step(s, m, member, crew, endpoint_id, Seq::empty(), now)
        } else {
            match tools_query(s, crew.agent_id, crew.role, member.node.title) {
                Outcome::Failed(e) => Outcome::Failed(e),
                Outcome::Done(None) => joined_step(
                    s,
                    m,
                    member,
                    crew,
                    endpoint_id,
                    Seq::empty(),
                    now,
                ),
                Outcome::Done(Some(query)) => muster_on(
                    MusterPhaseView::Equipping { muster: m, member, crew, endpoint_id },
                    MusterActionView::FindTools { query },
                ),
            }
        },
    }
}

/// An agent was briefed and its run began. One for research, or one that goes on, is shown; one of a
/// wave is told what its node waited for.
pub open spec fn briefed_step(
    s: AppView,
    m: MusterView,
    member: MemberView,
    claimed: ClaimedEffectView,
    state: MissionView,
    context: WorkingView,
    now: i64,
) -> (AppView, Outcome<(MusterPhaseView, MusterActionView)>) {
    let (s1, r1) = begin_run_step(
        s,
        state,
        m.mission.mission_id,
        member.node.id,
        member.run_id,
        context,
        now,
    );
    (
        s1,
        match r1 {
            Outcome::Failed(e) => Outcome::Failed(e),
            Outcome::Done((agent_id, role)) => {
                let crew = CrewView { claimed, agent_id, role, context, state };
                if m.kind is Wave {
                    let summary = dependency_text(m.mission, member.node);
                    if summary.len() == 0 {
                        equip_step(s1, m, member, crew, now)
                    } else {
                        muster_on(
                            MusterPhaseView::Counting { muster: m, member, crew, summary },
                            MusterActionView::Count { text: summary },
                        )
                    }
                } else {
                    let status = if m.kind is Recovery {
                        "resumed"@
                    } else {
                        "running"@
                    };
                    muster_on(
                        MusterPhaseView::Showing { muster: m, member, crew },
                        MusterActionView::Do {
                            steps: seq![
                                MissionStepView::Publish {
                                    event: agent_status(agent_id, role, status, member.node.id),
                                    priority: EventPriority::Normal,
                                },
                            ],
                        },
                    )
                }
            },
        },
    )
}

/// The effect with which a run is started, or goes on.
pub open spec fn effect_of_run(
    entries: Seq<EffectView>,
    mission_id: Seq<char>,
    member: MemberView,
) -> Outcome<Seq<char>> {
    let run = member.run_id;
    if member.session is Some {
        effect_or(
            first_effect(entries, mission_id, run, true, true),
            "agent-recovery-effect-not-claimable"@,
            "run="@ + run + "；原 worker 租约可能仍有效，请稍后重试 /resume"@,
        )
    } else {
        effect_or(
            first_effect(entries, mission_id, run, true, false),
            "agent-start-effect-missing"@,
            run,
        )
    }
}

/// One step of mustering a team.
pub open spec fn muster_step(
    s: AppView,
    phase: MusterPhaseView,
    reply: MusterReplyView,
    now: i64,
) -> (AppView, Outcome<(MusterPhaseView, MusterActionView)>) {
    match phase {
        MusterPhaseView::Naming { muster, node } => {
            let member = MemberView {
                node,
                run_id: reply->run_id,
                session: None,
                started: now,
            };
            (
                s,
                muster_on(
                    MusterPhaseView::Starting { muster, member },
                    MusterActionView::Do {
                        steps: seq![
                            MissionStepView::Command {
                                command: CommandView::StartNode {
                                    node_id: node.id,
                                    run_id: reply->run_id,
                                },
                            },
                        ],
                    },
                ),
            )
        },
        MusterPhaseView::Starting { muster, member } => (
            s,
            muster_on(
                MusterPhaseView::Listing {
                    muster,
                    member: MemberView { started: now, ..member },
                },
                MusterActionView::ListEffects,
            ),
        ),
        MusterPhaseView::Listing { muster, member } => (
            s,
            match effect_of_run(reply->entries, muster.mission.mission_id, member) {
                Outcome::Failed(e) => Outcome::Failed(e),
                Outcome::Done(effect_id) => muster_on(
                    MusterPhaseView::Claiming { muster, member },
                    MusterActionView::Claim { effect_id },
                ),
            },
        ),
        MusterPhaseView::Claiming { muster, member } => (
            s,
            match reply->claimed {
                None => failure(
                    if member.session is Some {
                        "agent-recovery-effect-claim-lost"@
                    } else {
                        "agent-start-effect-claim-lost"@
                    },
                    member.run_id,
                ),
                Some(claimed) => muster_on(
                    MusterPhaseView::Briefing { muster, member, claimed },
                    MusterActionView::Brief { node_id: member.node.id },
                ),
            },
        ),
        MusterPhaseView::Briefing { muster, member, claimed } => briefed_step(
            s,
            muster,
            member,
            claimed,
            reply->state,
            reply->context,
            now,
        ),
        MusterPhaseView::Counting { muster, member, crew, summary } => {
            let context = with_dependencies(crew.context, summary, reply->tokens);
            let (s1, r1) = set_fingerprint_step(s, member.run_id, context.fingerprint, now);
            (
                s1,
                match r1 {
                    Outcome::Failed(e) => Outcome::Failed(e),
                    Outcome::Done(_) => equip_step(
                        s1,
                        muster,
                        member,
                        CrewView { context, ..crew },
                        now,
                    ),
                },
            )
        },
        MusterPhaseView::Showing { muster, member, crew } => (
            s,
            equip_step(s, muster, member, crew, now),
        ),
        MusterPhaseView::Equipping { muster, member, crew, endpoint_id } => {
            let tools = match s.agent_catalog {
                Some(c) => if c.contains_key(crew.agent_id) {
                    permitted(reply->tools, c[crew.agent_id].definition.allowed_tools)
                } else {
                    Seq::empty()
                },
                None => Seq::empty(),
            };
            (s, joined_step(s, muster, member, crew, endpoint_id, tools, now))
        },
        MusterPhaseView::Over => (s, muster_on(MusterPhaseView::Over, MusterActionView::NameRun)),
    }
}

/// What a team is there for: a team for research has been told, any other works for the goal of its
/// mission.
pub open spec fn team_prompt(kind: MusterKind, mission: MissionView, told: Seq<char>) -> Seq<char> {
    if kind is Research {
        told
    } else {
        mission.goal
    }
}

/// The first step of mustering a team for the tasks or the sessions that were chosen.
pub open spec fn first_muster_step(
    s: AppView,
    kind: MusterKind,
    mission: MissionView,
    told: Seq<char>,
    recruits: Seq<RecruitView>,
    steering: Seq<Seq<char>>,
    now: i64,
) -> Outcome<(MusterPhaseView, MusterActionView)> {
    next_recruit(
        s,
        MusterView {
            kind,
            mission,
            steering,
            recruits,
            team: empty_team(mission.mission_id, team_prompt(kind, mission, told)),
        },
        now,
    )
}

pub open spec fn mustering(r: Result<(MusterPhase, MusterAction), ApplicationError>) -> Outcome<
    (MusterPhaseView, MusterActionView),
> {
    match r {
        Ok((phase, action)) => Outcome::Done((phase@, action@)),
        Err(error) => Outcome::Failed(error@),
    }
}

fn node_of_recruit(mission: &MissionState, recruit: &Recruit) -> (r: Result<MissionNode, ApplicationError>)
    ensures
        outcome(r) == recruit_node(mission@, recruit@),
{
    match &recruit.session {
        Some(session) => check_recovered(mission, session),
        None => match mission.nodes.get(recruit.task_id.as_str()) {
            Some(node) => Ok(node.duplicate()),
            None => Err(ApplicationError::new("agent-node-missing", recruit.task_id.as_str())),
        },
    }
}

impl HarnessApplication {
    fn take_recruit(&self, muster: Muster, now: i64) -> (r: Result<
        (MusterPhase, MusterAction),
        ApplicationError,
    >)
        ensures
            mustering(r) == next_recruit(self@, muster@, now),
    {
        assert(muster@.recruits.len() == muster.recruits@.len());
        if muster.recruits.len() == 0 {
            return match muster.team.muster(self.agent_budget_policy.max_parallel_agents, now) {
                Ok(team) => Ok((MusterPhase::Over, MusterAction::Ready { team })),
                Err(error) => Err(error),
            };
        }
        let ghost before = muster@;
        let mut muster = muster;
        assert(before.recruits[0] == muster.recruits@[0]@);
        let recruit = muster.recruits.remove(0);
        assert(muster@.recruits =~= before.recruits.subrange(1, before.recruits.len() as int));
        let node = match node_of_recruit(&muster.mission, &recruit) {
            Ok(node) => node,
            Err(error) => {
                return Err(error);
            },
        };
        match recruit.session {
            Some(session) => {
                let run_id = session.run_id.clone();
                Ok(
                    (
                        MusterPhase::Listing {
                            muster,
                            member: Member { node, run_id, session: Some(session), started: now },
                        },
                        MusterAction::ListEffects,
                    ),
                )
            },
            None => Ok((MusterPhase::Naming { muster, node }, MusterAction::NameRun)),
        }
    }

    fn join_team(
        &self,
        muster: Muster,
        member: Member,
        crew: Crew,
        endpoint_id: String,
        tools: Vec<ToolDefinition>,
        now: i64,
    ) -> (r: Result<(MusterPhase, MusterAction), ApplicationError>)
        ensures
            mustering(r) == joined_step(
                self@,
                muster@,
                member@,
                crew@,
                endpoint_id@,
                views(tools@),
                now,
            ),
    {
        let mut muster = muster;
        let request = match &member.session {
            Some(session) => recovered_request(
                &muster.mission,
                &member.node,
                session,
                crew.agent_id,
                crew.role,
                member.started,
                crew.context,
                &muster.steering,
                tools,
            ),
            None => if muster.kind == MusterKind::Research {
                research_request(
                    muster.mission.mission_id.as_str(),
                    muster.team.continuation.prompt.as_str(),
                    member.node.id.as_str(),
                    member.run_id.as_str(),
                    endpoint_id,
                    crew.agent_id,
                    crew.role,
                    member.started,
                    crew.context,
                    &muster.steering,
                )
            } else {
                wave_request(
                    &muster.mission,
                    &member.node,
                    member.run_id.as_str(),
                    endpoint_id,
                    crew.agent_id,
                    crew.role,
                    member.started,
                    crew.context,
                    &muster.steering,
                    tools,
                )
            },
        };
        muster.team.enlist(request, crew.claimed);
        self.take_recruit(muster, now)
    }

    fn equip_agent(&self, muster: Muster, member: Member, crew: Crew, now: i64) -> (r: Result<
        (MusterPhase, MusterAction),
        ApplicationError,
    >)
        ensures
            mustering(r) == equip_step(self@, muster@, member@, crew@, now),
    {
        broadcast use group_views;

        let endpoint_id = match &member.session {
            Some(session) => session.endpoint_id.clone(),
            None => match endpoint_of_run(&crew.state, member.run_id.as_str()) {
                Ok(endpoint_id) => endpoint_id,
                Err(error) => {
                    return Err(error);
                },
            },
        };
        let none: Vec<ToolDefinition> = Vec::new();
        assert(views(none@) =~= Seq::empty());
        if muster.kind == MusterKind::Research {
            return self.join_team(muster, member, crew, endpoint_id, none, now);
        }
        match self.agent_tools_query(
            crew.agent_id.as_str(),
            crew.role,
            member.node.title.as_str(),
        ) {
            Err(error) => Err(error),
            Ok(None) => self.join_team(muster, member, crew, endpoint_id, none, now),
            Ok(Some(query)) => Ok(
                (
                    MusterPhase::Equipping { muster, member, crew, endpoint_id },
                    MusterAction::FindTools { query },
                ),
            ),
        }
    }

    fn brief_agent(
        &mut self,
        muster: Muster,
        member: Member,
        claimed: ClaimedEffect,
        state: MissionState,
        context: AgentWorkingContext,
        now: i64,
    ) -> (r: Result<(MusterPhase, MusterAction), ApplicationError>)
        ensures
            (final(self)@, mustering(r)) == briefed_step(
                old(self)@,
                muster@,
                member@,
                claimed@,
                state@,
                context@,
                now,
            ),
    {
        let (agent_id, role) = match self.begin_agent_run(
            &state,
            muster.mission.mission_id.as_str(),
            member.node.id.as_str(),
            member.run_id.as_str(),
            &context,
            now,
        ) {
            Ok(begun) => begun,
            Err(error) => {
                return Err(error);
            },
        };
        if muster.kind == MusterKind::Wave {
            let crew = Crew { claimed, agent_id, role, context, state };
            let summary = dependency_summary(&muster.mission, &member.node);
            if summary.as_str().unicode_len() == 0 {
                return self.equip_agent(muster, member, crew, now);
            }
            let text = summary.clone();
            return Ok(
                (
                    MusterPhase::Counting { muster, member, crew, summary },
                    MusterAction::Count { text },
                ),
            );
        }
        let status: &str = if muster.kind == MusterKind::Recovery {
            "resumed"
        } else {
            "running"
        };
        let event = agent_status_event(agent_id.as_str(), role, status, member.node.id.as_str());
        let ghost shown = event@;
        let steps: Vec<MissionStep> = vec![
            MissionStep::Publish { event, priority: EventPriority::Normal },
        ];
        assert(views(steps@) =~= seq![
            MissionStepView::Publish { event: shown, priority: EventPriority::Normal },
        ]);
        let crew = Crew { claimed, agent_id, role, context, state };
        Ok((MusterPhase::Showing { muster, member, crew }, MusterAction::Do { steps }))
    }

    /// Begins to muster a team. One for research is there for what was told.
    pub fn begin_muster(
        &self,
        kind: MusterKind,
        mission: MissionState,
        told: &str,
        recruits: Vec<Recruit>,
        steering: Vec<String>,
        now: i64,
    ) -> (r: Result<(MusterPhase, MusterAction), ApplicationError>)
        ensures
            mustering(r) == first_muster_step(
                self@,
                kind,
                mission@,
                told@,
                views(recruits@),
                texts(steering@),
                now,
            ),
    {
        let prompt: String = if kind == MusterKind::Research {
            told.to_string()
        } else {
            mission.goal.clone()
        };
        let team = PreparedAgentTeam::new(mission.mission_id.clone(), prompt);
        self.take_recruit(Muster { kind, mission, steering, recruits, team }, now)
    }

    /// One step of mustering a team.
    pub fn muster_team(&mut self, phase: MusterPhase, reply: MusterReply, now: i64) -> (r: Result<
        (MusterPhase, MusterAction),
        ApplicationError,
    >)
        requires
            muster_reply_fits(phase@, reply@),
        ensures
            (final(self)@, mustering(r)) == muster_step(old(self)@, phase@, reply@, now),
    {
        match (phase, reply) {
            (MusterPhase::Naming { muster, node }, MusterReply::Named { run_id }) => {
                let command = MissionCommand::StartNode {
                    node_id: node.id.clone(),
                    run_id: run_id.clone(),
                };
                let ghost shown = command@;
                let steps: Vec<MissionStep> = vec![MissionStep::Command { command }];
                assert(views(steps@) =~= seq![MissionStepView::Command { command: shown }]);
                let member = Member { node, run_id, session: None, started: now };
                Ok((MusterPhase::Starting { muster, member }, MusterAction::Do { steps }))
            },
            (MusterPhase::Starting { muster, member }, _) => {
                let mut member = member;
                member.started = now;
                Ok((MusterPhase::Listing { muster, member }, MusterAction::ListEffects))
            },
            (MusterPhase::Listing { muster, member }, MusterReply::Effects { entries }) => {
                let found = if member.session.is_some() {
                    claimable_recovery_effect(
                        &entries,
                        muster.mission.mission_id.as_str(),
                        member.run_id.as_str(),
                    )
                } else {
                    claimable_start_effect(
                        &entries,
                        muster.mission.mission_id.as_str(),
                        member.run_id.as_str(),
                    )
                };
                match found {
                    Ok(effect_id) => Ok(
                        (
                            MusterPhase::Claiming { muster, member },
                            MusterAction::Claim { effect_id },
                        ),
                    ),
                    Err(error) => Err(error),
                }
            },
            (MusterPhase::Claiming { muster, member }, MusterReply::Claimed { claimed }) => {
                match claimed {
                    None => {
                        let code: &str = if member.session.is_some() {
                            "agent-recovery-effect-claim-lost"
                        } else {
                            "agent-start-effect-claim-lost"
                        };
                        Err(ApplicationError::new(code, member.run_id.as_str()))
                    },
                    Some(claimed) => {
                        let node_id = member.node.id.clone();
                        Ok(
                            (
                                MusterPhase::Briefing { muster, member, claimed },
                                MusterAction::Brief { node_id },
                            ),
                        )
                    },
                }
            },
            (
                MusterPhase::Briefing { muster, member, claimed },
                MusterReply::Briefed { state, context },
            ) => self.brief_agent(muster, member, claimed, state, context, now),
            (
                MusterPhase::Counting { muster, member, crew, summary },
                MusterReply::Counted { tokens },
            ) => {
                let mut crew = crew;
                crew.context = add_dependencies(crew.context, summary.as_str(), tokens);
                match self.set_agent_session_context_fingerprint(
                    member.run_id.as_str(),
                    crew.context.fingerprint.as_str(),
                    now,
                ) {
                    Ok(()) => self.equip_agent(muster, member, crew, now),
                    Err(error) => Err(error),
                }
            },
            (MusterPhase::Showing { muster, member, crew }, _) => self.equip_agent(
                muster,
                member,
                crew,
                now,
            ),
            (
                MusterPhase::Equipping { muster, member, crew, endpoint_id },
                MusterReply::Found { tools },
            ) => {
                let offered = self.agent_model_tools(crew.agent_id.as_str(), &tools);
                self.join_team(muster, member, crew, endpoint_id, offered, now)
            },
            _ => Ok((MusterPhase::Over, MusterAction::NameRun)),
        }
    }
}

/// How many agents are still to be mustered, counting the one that is being mustered.
pub open spec fn recruits_left(phase: MusterPhaseView) -> nat {
    match phase {
        MusterPhaseView::Naming { muster, .. } => muster.recruits.len() + 1,
        MusterPhaseView::Starting { muster, .. } => muster.recruits.len() + 1,
        MusterPhaseView::Listing { muster, .. } => muster.recruits.len() + 1,
        MusterPhaseView::Claiming { muster, .. } => muster.recruits.len() + 1,
        MusterPhaseView::Briefing { muster, .. } => muster.recruits.len() + 1,
        MusterPhaseView::Counting { muster, .. } => muster.recruits.len() + 1,
        MusterPhaseView::Showing { muster, .. } => muster.recruits.len() + 1,
        MusterPhaseView::Equipping { muster, .. } => muster.recruits.len() + 1,
        MusterPhaseView::Over => 0,
    }
}

/// How much is left to be done for the agent that is being mustered.
pub open spec fn duties_left(phase: MusterPhaseView) -> int {
    match phase {
        MusterPhaseView::Naming { .. } => 7,
        MusterPhaseView::Starting { .. } => 6,
        MusterPhaseView::Listing { .. } => 5,
        MusterPhaseView::Claiming { .. } => 4,
        MusterPhaseView::Briefing { .. } => 3,
        MusterPhaseView::Counting { .. } => 2,
        MusterPhaseView::Showing { .. } => 2,
        MusterPhaseView::Equipping { .. } => 1,
        MusterPhaseView::Over => 0,
    }
}

/// Mustering a team comes to an end: with every step there is less to be done.
pub proof fn law_musters_come_to_an_end(
    s: AppView,
    phase: MusterPhaseView,
    reply: MusterReplyView,
    now: i64,
)
    requires
        muster_reply_fits(phase, reply),
    ensures
        muster_step(s, phase, reply, now).1 matches Outcome::Done((next, _)) ==> {
            ||| recruits_left(next) < recruits_left(phase)
            ||| recruits_left(next) == recruits_left(phase) && 0 <= duties_left(next) < duties_left(
                phase,
            )
        },
{
}

/// The team that is mustered so far, if it is not complete.
pub open spec fn mustered_so_far(phase: MusterPhaseView) -> Option<PreparedView> {
    match phase {
        MusterPhaseView::Naming { muster, .. } => Some(muster.team),
        MusterPhaseView::Starting { muster, .. } => Some(muster.team),
        MusterPhaseView::Listing { muster, .. } => Some(muster.team),
        MusterPhaseView::Claiming { muster, .. } => Some(muster.team),
        MusterPhaseView::Briefing { muster, .. } => Some(muster.team),
        MusterPhaseView::Counting { muster, .. } => Some(muster.team),
        MusterPhaseView::Showing { muster, .. } => Some(muster.team),
        MusterPhaseView::Equipping { muster, .. } => Some(muster.team),
        MusterPhaseView::Over => None,
    }
}

/// The effect that was claimed for the agent that is being mustered.
pub open spec fn claimed_so_far(phase: MusterPhaseView) -> Option<ClaimedEffectView> {
    match phase {
        MusterPhaseView::Briefing { claimed, .. } => Some(claimed),
        MusterPhaseView::Counting { crew, .. } => Some(crew.claimed),
        MusterPhaseView::Showing { crew, .. } => Some(crew.claimed),
        MusterPhaseView::Equipping { crew, .. } => Some(crew.claimed),
        _ => None,
    }
}

proof fn lemma_joining(
    s: AppView,
    m: MusterView,
    member: MemberView,
    crew: CrewView,
    endpoint_id: Seq<char>,
    tools: Seq<ToolView>,
    now: i64,
)
    ensures
        joined_step(s, m, member, crew, endpoint_id, tools, now) matches Outcome::Done((next, _))
            ==> (mustered_so_far(next) matches Some(after) ==> after == enlisted(
            m.team,
            member_request(m, member, crew, endpoint_id, tools),
            crew.claimed,
        )),
{
}

/// What can come of equipping an agent.
pub open spec fn joins_under(next: MusterPhaseView, before: PreparedView, claimed: ClaimedEffectView) -> bool {
    mustered_so_far(next) matches Some(after) ==> after == before || exists|request: RequestView|
        after == #[trigger] enlisted(before, request, claimed)
}

proof fn lemma_equipping(s: AppView, m: MusterView, member: MemberView, crew: CrewView, now: i64)
    ensures
        equip_step(s, m, member, crew, now) matches Outcome::Done((next, _)) ==> joins_under(
            next,
            m.team,
            crew.claimed,
        ),
{
    let endpoint_id = match member.session {
        Some(session) => session.endpoint_id,
        None => crew.state.runs[member.run_id].endpoint_id,
    };
    lemma_joining(s, m, member, crew, endpoint_id, Seq::empty(), now);
}

/// With each step a team stays as it is, or takes in one agent, under the effect that was claimed for
/// it.
pub proof fn law_agents_join_under_a_claimed_effect(
    s: AppView,
    phase: MusterPhaseView,
    reply: MusterReplyView,
    now: i64,
)
    requires
        muster_reply_fits(phase, reply),
    ensures
        muster_step(s, phase, reply, now).1 matches Outcome::Done((next, _)) ==> (
        mustered_so_far(phase) matches Some(before) ==> match claimed_so_far(phase) {
            Some(claimed) => joins_under(next, before, claimed),
            None => mustered_so_far(next) == Some(before),
        }),
{
    match phase {
        MusterPhaseView::Briefing { muster, member, claimed } => {
            let (s1, r1) = begin_run_step(
                s,
                reply->state,
                muster.mission.mission_id,
                member.node.id,
                member.run_id,
                reply->context,
                now,
            );
            if let Outcome::Done((agent_id, role)) = r1 {
                let crew = CrewView {
                    claimed,
                    agent_id,
                    role,
                    context: reply->context,
                    state: reply->state,
                };
                lemma_equipping(s1, muster, member, crew, now);
            }
        },
        MusterPhaseView::Counting { muster, member, crew, summary } => {
            let context = with_dependencies(crew.context, summary, reply->tokens);
            let s1 = set_fingerprint_step(s, member.run_id, context.fingerprint, now).0;
            lemma_equipping(s1, muster, member, CrewView { context, ..crew }, now);
        },
        MusterPhaseView::Showing { muster, member, crew } => {
            lemma_equipping(s, muster, member, crew, now);
        },
        MusterPhaseView::Equipping { muster, member, crew, endpoint_id } => {
            let tools = match s.agent_catalog {
                Some(c) => if c.contains_key(crew.agent_id) {
                    permitted(reply->tools, c[crew.agent_id].definition.allowed_tools)
                } else {
                    Seq::empty()
                },
                None => Seq::empty(),
            };
            lemma_joining(s, muster, member, crew, endpoint_id, tools, now);
        },
        _ => {},
    }
}

} // verus!
