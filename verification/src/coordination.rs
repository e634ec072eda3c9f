//! Conflicts between the results of agents: the meeting about them, and the task that settles them.

use vstd::prelude::*;
use vstd::string::*;

use crate::application::{AppView, HarnessApplication};
use crate::error::{failure, outcome, ApplicationError, Outcome};
use crate::messages::BusView;
use crate::mission::{
    CommandView, MissionCommand, MissionState, MissionView, NodeKind, NodePlanView,
    WorkflowNodeDefinition,
};
use crate::model::{option_view, views};
use crate::ordered::{in_order, TextSet};
use crate::results::{
    all_conflicts, conflict_meeting, AgentResultEnvelope, Coordinator, EnvelopeView, MeetingRecord,
    MeetingView,
};
use crate::text::{copy_texts, same, texts};

verus! {

/// What came of a coordination as it is shown.
#[derive(Debug, PartialEq, Eq)]
pub struct CoordinationView {
    pub conflict_count: usize,
    pub meeting_id: Option<String>,
    pub memory_id: Option<String>,
    pub merge_required: bool,
    pub merge_task_id: Option<String>,
}

pub struct CoordinationModel {
    pub conflict_count: nat,
    pub meeting_id: Option<Seq<char>>,
    pub memory_id: Option<Seq<char>>,
    pub merge_required: bool,
    pub merge_task_id: Option<Seq<char>>,
}

impl View for CoordinationView {
    type V = CoordinationModel;

    open spec fn view(&self) -> CoordinationModel {
        CoordinationModel {
            conflict_count: self.conflict_count as nat,
            meeting_id: option_view(self.meeting_id),
            memory_id: option_view(self.memory_id),
            merge_required: self.merge_required,
            merge_task_id: option_view(self.merge_task_id),
        }
    }
}

/// The conflicts between results: how many there are, the meeting about them, and the tasks whose
/// results are to be merged.
pub struct Conflicts {
    pub count: usize,
    pub meeting: Option<MeetingRecord>,
    pub merge_dependencies: Vec<String>,
}

pub struct ConflictsModel {
    pub count: nat,
    pub meeting: Option<MeetingView>,
    pub merge_dependencies: Seq<Seq<char>>,
}

impl View for Conflicts {
    type V = ConflictsModel;

    open spec fn view(&self) -> ConflictsModel {
        ConflictsModel {
            count: self.count as nat,
            meeting: option_view(self.meeting),
            merge_dependencies: texts(self.merge_dependencies@),
        }
    }
}

/// The tasks that results are of.
pub open spec fn tasks_of(results: Seq<EnvelopeView>) -> Set<Seq<char>> {
    Seq::new(results.len(), |i: int| results[i].task_id).to_set()
}

/// Looking for conflicts. A meeting about them is put on record; without conflicts nothing changes.
pub open spec fn coordinate_step(
    s: AppView,
    mission_id: Seq<char>,
    results: Seq<EnvelopeView>,
    meeting_id: Seq<char>,
    now: i64,
    fold_case: bool,
) -> (AppView, Outcome<ConflictsModel>) {
    let count = all_conflicts(results, fold_case).len();
    let merge_dependencies = in_order(tasks_of(results));
    if count == 0 {
        (s, Outcome::Done(ConflictsModel { count: 0, meeting: None, merge_dependencies }))
    } else {
        let meeting = conflict_meeting(mission_id, results, meeting_id, now, fold_case);
        match s.agent_messages {
            None => (s, failure("agent-message-bus-missing"@, "Agent MessageBus 尚未注入"@)),
            Some(bus) => (
                AppView {
                    agent_messages: Some(
                        BusView { rows: bus.rows, meetings: bus.meetings.insert(meeting.id, meeting) },
                    ),
                    ..s
                },
                Outcome::Done(
                    ConflictsModel { count, meeting: Some(meeting), merge_dependencies },
                ),
            ),
        }
    }
}

/// The task that settles the conflicts of a meeting.
pub open spec fn merge_node(
    task_id: Seq<char>,
    meeting_id: Seq<char>,
    depends_on: Seq<Seq<char>>,
) -> NodePlanView {
    NodePlanView {
        id: task_id,
        title: "解决会议 "@ + meeting_id + " 中的方案/补丁冲突"@,
        kind: NodeKind::Merge,
        depends_on,
        agent_definition_id: "agent:merge"@,
        requires_approval: None,
    }
}

/// The task is added to the plan of the active mission if every task that it needs is in that plan.
pub open spec fn merge_command(
    s: AppView,
    mission: MissionView,
    mission_id: Seq<char>,
    depends_on: Seq<Seq<char>>,
    meeting_id: Seq<char>,
    task_id: Seq<char>,
) -> Option<CommandView> {
    if s.active_mission_id == Some(mission_id) && (forall|i: int|
        0 <= i < depends_on.len() ==> mission.nodes.contains_key(#[trigger] depends_on[i])) {
        Some(
            CommandView::AppendPlanNodes {
                nodes: seq![merge_node(task_id, meeting_id, depends_on)],
            },
        )
    } else {
        None
    }
}

pub open spec fn coordination_shown(
    c: ConflictsModel,
    memory_id: Option<Seq<char>>,
    merge_task_id: Option<Seq<char>>,
) -> CoordinationModel {
    match c.meeting {
        None => CoordinationModel {
            conflict_count: 0,
            meeting_id: None,
            memory_id: None,
            merge_required: false,
            merge_task_id: None,
        },
        Some(meeting) => CoordinationModel {
            conflict_count: c.count,
            meeting_id: Some(meeting.id),
            memory_id,
            merge_required: true,
            merge_task_id,
        },
    }
}

impl HarnessApplication {
    /// Whether a mission is the active one.
    pub fn is_active(&self, mission_id: &str) -> (r: bool)
        ensures
            r == (self@.active_mission_id == Some(mission_id@)),
    {
        match &self.active_mission_id {
            Some(active) => same(active.as_str(), mission_id),
            None => false,
        }
    }

    /// Looks for conflicts between results and puts a meeting about them on record.
    pub fn coordinate_results(
        &mut self,
        mission_id: &str,
        results: &Vec<AgentResultEnvelope>,
        meeting_id: &str,
        now: i64,
        fold_case: bool,
    ) -> (r: Result<Conflicts, ApplicationError>)
        ensures
            (final(self)@, outcome(r)) == coordinate_step(
                old(self)@,
                mission_id@,
                views(results@),
                meeting_id@,
                now,
                fold_case,
            ),
    {
        let ghost all = views(results@);
        let mut ids: Vec<String> = Vec::new();
        let mut i: usize = 0;
        while i < results.len()
            invariant
                i <= results.len(),
                all == views(results@),
                ids@.len() == i,
                forall|k: int| 0 <= k < i ==> (#[trigger] ids@[k])@ == all[k].task_id,
            decreases results.len() - i,
        {
            assert(all[i as int] == results@[i as int]@);
            ids.push(results[i].task_id.clone());
            i = i + 1;
        }
        assert(texts(ids@) =~= Seq::new(all.len(), |k: int| all[k].task_id));
        let tasks = TextSet::of(ids);
        let merge_dependencies = copy_texts(tasks.items());
        let found = Coordinator::inspect(
            mission_id.to_string(),
            results.as_slice(),
            meeting_id.to_string(),
            now,
            fold_case,
        );
        let count: usize = found.conflicts.len();
        assert(views(found.conflicts@).len() == found.conflicts@.len());
        match found.meeting {
            None => Ok(Conflicts { count, meeting: None, merge_dependencies }),
            Some(meeting) => match &mut self.agent_messages {
                None => Err(
                    ApplicationError::new("agent-message-bus-missing", "Agent MessageBus 尚未注入"),
                ),
                Some(bus) => {
                    bus.save_meeting(&meeting);
                    Ok(Conflicts { count, meeting: Some(meeting), merge_dependencies })
                },
            },
        }
    }

    /// The command that adds the task that settles the conflicts.
    pub fn merge_conflicts(
        &self,
        mission: &MissionState,
        mission_id: &str,
        depends_on: &Vec<String>,
        meeting_id: &str,
        task_id: &str,
    ) -> (r: Option<MissionCommand>)
        ensures
            option_view(r) == merge_command(
                self@,
                mission@,
                mission_id@,
                texts(depends_on@),
                meeting_id@,
                task_id@,
            ),
    {
        if !self.is_active(mission_id) {
            return None;
        }
        let ghost needed = texts(depends_on@);
        let mut i: usize = 0;
        while i < depends_on.len()
            invariant
                i <= depends_on.len(),
                needed == texts(depends_on@),
                forall|k: int| 0 <= k < i ==> mission@.nodes.contains_key(#[trigger] needed[k]),
            decreases depends_on.len() - i,
        {
            assert(needed[i as int] == depends_on@[i as int]@);
            if !mission.nodes.contains_key(depends_on[i].as_str()) {
                return None;
            }
            i = i + 1;
        }
        let mut title: String = "解决会议 ".to_string();
        title.append(meeting_id);
        title.append(" 中的方案/补丁冲突");
        let node = WorkflowNodeDefinition {
            id: task_id.to_string(),
            title,
            kind: NodeKind::Merge,
            depends_on: copy_texts(depends_on),
            agent_definition_id: "agent:merge".to_string(),
            requires_approval: None,
        };
        let nodes: Vec<WorkflowNodeDefinition> = vec![node];
        assert(views(nodes@) =~= seq![merge_node(task_id@, meeting_id@, needed)]);
        Some(MissionCommand::AppendPlanNodes { nodes })
    }
}

/// What came of it.
pub fn coordination_view(
    conflicts: &Conflicts,
    memory_id: Option<String>,
    merge_task_id: Option<String>,
) -> (r: CoordinationView)
    ensures
        r@ == coordination_shown(conflicts@, option_view(memory_id), option_view(merge_task_id)),
{
    match &conflicts.meeting {
        None => CoordinationView {
            conflict_count: 0,
            meeting_id: None,
            memory_id: None,
            merge_required: false,
            merge_task_id: None,
        },
        Some(meeting) => CoordinationView {
            conflict_count: conflicts.count,
            meeting_id: Some(meeting.id.clone()),
            memory_id,
            merge_required: true,
            merge_task_id,
        },
    }
}

/// A meeting is on record after a coordination exactly if it found conflicts that were to be talked
/// about; without conflicts the application stays as it was.
pub proof fn law_conflicts_are_on_record(
    s: AppView,
    mission_id: Seq<char>,
    results: Seq<EnvelopeView>,
    meeting_id: Seq<char>,
    now: i64,
    fold_case: bool,
)
    ensures
        ({
            let (after, done) = coordinate_step(s, mission_id, results, meeting_id, now, fold_case);
            &&& all_conflicts(results, fold_case).len() == 0 ==> after == s && done is Done
            &&& done matches Outcome::Done(c) ==> (c.meeting is Some <==> all_conflicts(
                results,
                fold_case,
            ).len() > 0)
            &&& done matches Outcome::Done(c) ==> (c.meeting matches Some(m)
                ==> after.agent_messages->0.meetings.contains_key(meeting_id)
                && after.agent_messages->0.meetings[meeting_id] == m)
            &&& done is Failed ==> after == s
        }),
{
}

} // verus!
