//! What each role is told of its work: its mission, its procedure and what closes it.

use vstd::prelude::*;
use vstd::string::*;

use crate::error::{failure, unit_outcome, AgentError, Outcome};
use crate::model::{option_view, views};
use crate::ordered::TextSet;
use crate::profiles_build::{
    coder, coder_profile, debugger, debugger_profile, merge_agent, merge_agent_profile,
    release_manager, release_manager_profile,
};
use crate::profiles_control::{
    coordinator, coordinator_profile, staffing_router, staffing_router_profile, supervisor,
    supervisor_profile,
};
use crate::profiles_design::{
    architect, architect_profile, explorer, explorer_profile, planner, planner_profile,
    requirements_analyst, requirements_analyst_profile, researcher, researcher_profile,
};
use crate::profiles_quality::{
    performance_engineer, performance_engineer_profile, reviewer, reviewer_profile,
    security_auditor, security_auditor_profile, tester, tester_profile,
};
use crate::roles::{role_name, role_name_text, AgentRole};
use crate::text::{chars_of, decimal, decimal_of, is_blank, is_blank_text, texts};

verus! {

/// How much a model thinks before it answers.
#[derive(Clone, Copy, Debug, PartialEq, Eq, Structural)]
pub enum ReasoningLevel {
    Off,
    Minimal,
    Low,
    Medium,
    High,
    Xhigh,
    Max,
}

pub open spec fn reasoning_name_text(level: ReasoningLevel) -> Seq<char> {
    match level {
        ReasoningLevel::Off => "Off"@,
        ReasoningLevel::Minimal => "Minimal"@,
        ReasoningLevel::Low => "Low"@,
        ReasoningLevel::Medium => "Medium"@,
        ReasoningLevel::High => "High"@,
        ReasoningLevel::Xhigh => "Xhigh"@,
        ReasoningLevel::Max => "Max"@,
    }
}

fn reasoning_name(level: ReasoningLevel) -> (r: &'static str)
    ensures
        r@ == reasoning_name_text(level),
{
    match level {
        ReasoningLevel::Off => "Off",
        ReasoningLevel::Minimal => "Minimal",
        ReasoningLevel::Low => "Low",
        ReasoningLevel::Medium => "Medium",
        ReasoningLevel::High => "High",
        ReasoningLevel::Xhigh => "Xhigh",
        ReasoningLevel::Max => "Max",
    }
}

pub const AGENT_PROFILE_SCHEMA_VERSION: u32 = 1;

#[derive(Debug, PartialEq, Eq)]
pub struct AgentProcedureStep {
    pub id: String,
    pub action: String,
    pub produces: String,
    pub stop_condition: String,
}

pub struct StepView {
    pub id: Seq<char>,
    pub action: Seq<char>,
    pub produces: Seq<char>,
    pub stop_condition: Seq<char>,
}

impl View for AgentProcedureStep {
    type V = StepView;

    open spec fn view(&self) -> StepView {
        StepView {
            id: self.id@,
            action: self.action@,
            produces: self.produces@,
            stop_condition: self.stop_condition@,
        }
    }
}

#[derive(Debug, PartialEq, Eq)]
pub struct AgentFailureRule {
    pub condition: String,
    pub action: String,
    pub escalation: String,
}

pub struct RuleView {
    pub condition: Seq<char>,
    pub action: Seq<char>,
    pub escalation: Seq<char>,
}

impl View for AgentFailureRule {
    type V = RuleView;

    open spec fn view(&self) -> RuleView {
        RuleView {
            condition: self.condition@,
            action: self.action@,
            escalation: self.escalation@,
        }
    }
}

#[derive(Clone, Copy, Debug, PartialEq, Eq, Structural)]
pub struct AgentModelPolicy {
    pub recommended_reasoning: ReasoningLevel,
    pub target_turns: u8,
    pub max_turns: u8,
    pub extension_turns: u8,
    pub max_stuck_recoveries: u8,
    pub max_output_tokens: u32,
    pub max_tool_calls: u32,
}

#[derive(Debug, PartialEq, Eq)]
pub struct AgentMemoryPolicy {
    pub read_scopes: Vec<String>,
    pub write_scope: Option<String>,
    pub write_rules: Vec<String>,
}

#[derive(Debug, PartialEq, Eq)]
pub struct AgentProfile {
    pub schema_version: u32,
    pub profile_id: String,
    pub role: AgentRole,
    pub mission: String,
    pub non_goals: Vec<String>,
    pub required_inputs: Vec<String>,
    pub procedure: Vec<AgentProcedureStep>,
    pub output_contract: Vec<String>,
    pub evidence_requirements: Vec<String>,
    pub failure_policy: Vec<AgentFailureRule>,
    pub context_priorities: Vec<String>,
    pub tool_strategy: Vec<String>,
    pub methodology_sources: Vec<String>,
    pub memory_policy: AgentMemoryPolicy,
    pub model_policy: AgentModelPolicy,
    pub completion_gate: Vec<String>,
}

pub struct ProfileView {
    pub schema_version: u32,
    pub profile_id: Seq<char>,
    pub role: AgentRole,
    pub mission: Seq<char>,
    pub non_goals: Seq<Seq<char>>,
    pub required_inputs: Seq<Seq<char>>,
    pub procedure: Seq<StepView>,
    pub output_contract: Seq<Seq<char>>,
    pub evidence_requirements: Seq<Seq<char>>,
    pub failure_policy: Seq<RuleView>,
    pub context_priorities: Seq<Seq<char>>,
    pub tool_strategy: Seq<Seq<char>>,
    pub methodology_sources: Seq<Seq<char>>,
    pub read_scopes: Seq<Seq<char>>,
    pub write_scope: Option<Seq<char>>,
    pub write_rules: Seq<Seq<char>>,
    pub model_policy: AgentModelPolicy,
    pub completion_gate: Seq<Seq<char>>,
}

impl View for AgentProfile {
    type V = ProfileView;

    open spec fn view(&self) -> ProfileView {
        ProfileView {
            schema_version: self.schema_version,
            profile_id: self.profile_id@,
            role: self.role,
            mission: self.mission@,
            non_goals: texts(self.non_goals@),
            required_inputs: texts(self.required_inputs@),
            procedure: views(self.procedure@),
            output_contract: texts(self.output_contract@),
            evidence_requirements: texts(self.evidence_requirements@),
            failure_policy: views(self.failure_policy@),
            context_priorities: texts(self.context_priorities@),
            tool_strategy: texts(self.tool_strategy@),
            methodology_sources: texts(self.methodology_sources@),
            read_scopes: texts(self.memory_policy.read_scopes@),
            write_scope: option_view(self.memory_policy.write_scope),
            write_rules: texts(self.memory_policy.write_rules@),
            model_policy: self.model_policy,
            completion_gate: texts(self.completion_gate@),
        }
    }
}

/// A list that says something: it has items, and none of them is blank.
pub open spec fn is_filled(items: Seq<Seq<char>>) -> bool {
    items.len() > 0 && forall|i: int|
        0 <= i < items.len() ==> !is_blank_text(#[trigger] items[i])
}

pub open spec fn policy_in_range(p: AgentModelPolicy) -> bool {
    &&& 1 <= p.max_turns <= 64
    &&& 1 <= p.target_turns <= p.max_turns
    &&& 1 <= p.extension_turns <= p.max_turns
    &&& p.max_stuck_recoveries <= 4
    &&& 256 <= p.max_output_tokens <= 32768
    &&& p.max_tool_calls <= 64
}

pub open spec fn is_filled_in(p: ProfileView) -> bool {
    &&& p.schema_version == AGENT_PROFILE_SCHEMA_VERSION
    &&& !is_blank_text(p.profile_id)
    &&& !is_blank_text(p.mission)
    &&& is_filled(p.non_goals)
    &&& is_filled(p.required_inputs)
    &&& is_filled(p.output_contract)
    &&& is_filled(p.evidence_requirements)
    &&& is_filled(p.context_priorities)
    &&& is_filled(p.tool_strategy)
    &&& is_filled(p.methodology_sources)
    &&& is_filled(p.read_scopes)
    &&& is_filled(p.write_rules)
    &&& is_filled(p.completion_gate)
    &&& p.procedure.len() >= 4
    &&& p.failure_policy.len() >= 2
    &&& policy_in_range(p.model_policy)
}

pub open spec fn is_whole_step(s: StepView) -> bool {
    !is_blank_text(s.id) && !is_blank_text(s.action) && !is_blank_text(s.produces)
        && !is_blank_text(s.stop_condition)
}

/// A procedure of whole steps, each under an id of its own.
pub open spec fn is_procedure(steps: Seq<StepView>) -> bool {
    &&& forall|i: int| 0 <= i < steps.len() ==> is_whole_step(#[trigger] steps[i])
    &&& forall|i: int, j: int|
        0 <= i < j < steps.len() ==> (#[trigger] steps[i]).id != (#[trigger] steps[j]).id
}

pub open spec fn is_whole_rule(r: RuleView) -> bool {
    !is_blank_text(r.condition) && !is_blank_text(r.action) && !is_blank_text(r.escalation)
}

pub open spec fn profile_outcome(p: ProfileView) -> Outcome<()> {
    if !is_filled_in(p) {
        failure("agent-profile-invalid"@, p.profile_id)
    } else if !is_procedure(p.procedure) {
        failure("agent-profile-procedure-invalid"@, p.profile_id)
    } else if exists|i: int|
        0 <= i < p.failure_policy.len() && !is_whole_rule(#[trigger] p.failure_policy[i]) {
        failure("agent-profile-failure-policy-invalid"@, p.profile_id)
    } else {
        Outcome::Done(())
    }
}

pub open spec fn escaped_char(c: char) -> Seq<char> {
    if c == '&' {
        "&amp;"@
    } else if c == '<' {
        "&lt;"@
    } else if c == '>' {
        "&gt;"@
    } else if c == '"' {
        "&quot;"@
    } else {
        seq![c]
    }
}

/// A text in which the characters that mean something in a tag are written as entities.
pub open spec fn escaped(s: Seq<char>) -> Seq<char>
    decreases s.len(),
{
    if s.len() == 0 {
        s
    } else {
        escaped(s.drop_last()) + escaped_char(s.last())
    }
}

/// An escaped text cannot open or close a tag, or end an attribute.
pub proof fn law_escaped_text_holds_no_markup(s: Seq<char>, i: int)
    requires
        0 <= i < escaped(s).len(),
    ensures
        escaped(s)[i] != '<',
        escaped(s)[i] != '>',
        escaped(s)[i] != '"',
    decreases s.len(),
{
    reveal_strlit("&amp;");
    reveal_strlit("&lt;");
    reveal_strlit("&gt;");
    reveal_strlit("&quot;");
    if s.len() > 0 {
        let before = escaped(s.drop_last());
        if i < before.len() {
            law_escaped_text_holds_no_markup(s.drop_last(), i);
        } else {
            assert(escaped(s)[i] == escaped_char(s.last())[i - before.len()]);
        }
    }
}

pub open spec fn items_text(items: Seq<Seq<char>>) -> Seq<char>
    decreases items.len(),
{
    if items.len() == 0 {
        ""@
    } else {
        items_text(items.drop_last()) + "<item>"@ + escaped(items.last()) + "</item>"@
    }
}

pub open spec fn list_text(tag: Seq<char>, items: Seq<Seq<char>>) -> Seq<char> {
    "<"@ + tag + ">"@ + items_text(items) + "</"@ + tag + ">"@
}

pub open spec fn steps_text(steps: Seq<StepView>) -> Seq<char>
    decreases steps.len(),
{
    if steps.len() == 0 {
        ""@
    } else {
        let s = steps.last();
        steps_text(steps.drop_last()) + "<step id=\""@ + escaped(s.id) + "\"><action>"@ + escaped(
            s.action,
        ) + "</action><produces>"@ + escaped(s.produces) + "</produces><stop>"@ + escaped(
            s.stop_condition,
        ) + "</stop></step>"@
    }
}

pub open spec fn rules_text(rules: Seq<RuleView>) -> Seq<char>
    decreases rules.len(),
{
    if rules.len() == 0 {
        ""@
    } else {
        let r = rules.last();
        rules_text(rules.drop_last()) + "<rule><condition>"@ + escaped(r.condition)
            + "</condition><action>"@ + escaped(r.action) + "</action><escalation>"@ + escaped(
            r.escalation,
        ) + "</escalation></rule>"@
    }
}

pub open spec fn scope_text(scope: Option<Seq<char>>) -> Seq<char> {
    match scope {
        Some(s) => s,
        None => "none"@,
    }
}

/// The text of a profile, as it stands in the instructions of a model.
pub open spec fn contract_text(p: ProfileView) -> Seq<char> {
    "<agent-profile schema=\""@ + decimal(p.schema_version as nat) + "\" id=\""@ + escaped(
        p.profile_id,
    ) + "\" role=\""@ + role_name_text(p.role) + "\"><mission>"@ + escaped(p.mission)
        + "</mission>"@ + list_text("non-goals"@, p.non_goals) + list_text(
        "required-inputs"@,
        p.required_inputs,
    ) + "<procedure>"@ + steps_text(p.procedure) + "</procedure>"@ + list_text(
        "output-contract"@,
        p.output_contract,
    ) + list_text("evidence-requirements"@, p.evidence_requirements) + "<failure-policy>"@
        + rules_text(p.failure_policy) + "</failure-policy>"@ + list_text(
        "context-priorities"@,
        p.context_priorities,
    ) + list_text("tool-strategy"@, p.tool_strategy) + list_text(
        "methodology-sources"@,
        p.methodology_sources,
    ) + "<memory-policy write-scope=\""@ + escaped(scope_text(p.write_scope)) + "\">"@ + list_text(
        "read-scopes"@,
        p.read_scopes,
    ) + list_text("write-rules"@, p.write_rules) + "</memory-policy>"@
        + "<model-policy recommended-reasoning=\""@ + reasoning_name_text(
        p.model_policy.recommended_reasoning,
    ) + "\" target-turns=\""@ + decimal(p.model_policy.target_turns as nat) + "\" max-turns=\""@
        + decimal(p.model_policy.max_turns as nat) + "\" extension-turns=\""@ + decimal(
        p.model_policy.extension_turns as nat,
    ) + "\" max-stuck-recoveries=\""@ + decimal(p.model_policy.max_stuck_recoveries as nat)
        + "\" max-output-tokens=\""@ + decimal(p.model_policy.max_output_tokens as nat)
        + "\" max-tool-calls=\""@ + decimal(p.model_policy.max_tool_calls as nat) + "\" />"@
        + list_text("completion-gate"@, p.completion_gate) + "</agent-profile>"@
}

fn filled(items: &Vec<String>) -> (r: bool)
    ensures
        r == is_filled(texts(items@)),
{
    let mut i: usize = 0;
    while i < items.len()
        invariant
            i <= items.len(),
            forall|k: int| 0 <= k < i ==> !is_blank_text(#[trigger] texts(items@)[k]),
        decreases items.len() - i,
    {
        assert(texts(items@)[i as int] == items@[i as int]@);
        if is_blank(items[i].as_str()) {
            return false;
        }
        i = i + 1;
    }
    items.len() > 0
}

fn policy_fits(p: &AgentModelPolicy) -> (r: bool)
    ensures
        r == policy_in_range(*p),
{
    1 <= p.max_turns && p.max_turns <= 64 && 1 <= p.target_turns && p.target_turns <= p.max_turns
        && 1 <= p.extension_turns && p.extension_turns <= p.max_turns && p.max_stuck_recoveries <= 4
        && 256 <= p.max_output_tokens && p.max_output_tokens <= 32768 && p.max_tool_calls <= 64
}

impl AgentProfile {
    fn filled_in(&self) -> (r: bool)
        ensures
            r == is_filled_in(self@),
    {
        self.schema_version == AGENT_PROFILE_SCHEMA_VERSION && !is_blank(self.profile_id.as_str())
            && !is_blank(self.mission.as_str()) && filled(&self.non_goals) && filled(
            &self.required_inputs,
        ) && filled(&self.output_contract) && filled(&self.evidence_requirements) && filled(
            &self.context_priorities,
        ) && filled(&self.tool_strategy) && filled(&self.methodology_sources) && filled(
            &self.memory_policy.read_scopes,
        ) && filled(&self.memory_policy.write_rules) && filled(&self.completion_gate)
            && self.procedure.len() >= 4 && self.failure_policy.len() >= 2 && policy_fits(
            &self.model_policy,
        )
    }

    fn procedure_stands(&self) -> (r: bool)
        ensures
            r == is_procedure(self@.procedure),
    {
        let ghost steps = views(self.procedure@);
        let mut ids = TextSet::new();
        let mut i: usize = 0;
        while i < self.procedure.len()
            invariant
                i <= self.procedure.len(),
                steps == views(self.procedure@),
                steps == self@.procedure,
                forall|k: int| 0 <= k < i ==> is_whole_step(#[trigger] steps[k]),
                forall|k: int, j: int|
                    0 <= k < j < i ==> (#[trigger] steps[k]).id != (#[trigger] steps[j]).id,
                forall|id: Seq<char>| #[trigger]
                    ids@.contains(id) <==> exists|k: int|
                        0 <= k < i && (#[trigger] steps[k]).id == id,
            decreases self.procedure.len() - i,
        {
            let step = &self.procedure[i];
            assert(steps[i as int] == step@);
            if is_blank(step.id.as_str()) || is_blank(step.action.as_str()) || is_blank(
                step.produces.as_str(),
            ) || is_blank(step.stop_condition.as_str()) {
                assert(!is_whole_step(steps[i as int]));
                return false;
            }
            let ghost before = ids@;
            if !ids.insert(step.id.clone()) {
                proof {
                    let k = choose|k: int| 0 <= k < i && (#[trigger] steps[k]).id == step@.id;
                    assert(steps[k].id == steps[i as int].id);
                }
                return false;
            }
            proof {
                assert forall|id: Seq<char>| #[trigger]
                    ids@.contains(id) <==> exists|k: int|
                        0 <= k < i + 1 && (#[trigger] steps[k]).id == id by {
                    if ids@.contains(id) {
                        if before.contains(id) {
                            let k = choose|k: int| 0 <= k < i && (#[trigger] steps[k]).id == id;
                            assert(steps[k].id == id);
                        } else {
                            assert(steps[i as int].id == id);
                        }
                    }
                    if exists|k: int| 0 <= k < i + 1 && (#[trigger] steps[k]).id == id {
                        let k = choose|k: int| 0 <= k < i + 1 && (#[trigger] steps[k]).id == id;
                        if k < i {
                            assert(before.contains(id));
                        }
                    }
                }
                assert forall|k: int| 0 <= k < i implies (#[trigger] steps[k]).id
                    != steps[i as int].id by {
                    assert(before.contains(steps[k].id));
                }
            }
            i = i + 1;
        }
        true
    }

    fn rules_stand(&self) -> (r: bool)
        ensures
            r == !(exists|i: int|
                0 <= i < self@.failure_policy.len() && !is_whole_rule(
                    #[trigger] self@.failure_policy[i],
                )),
    {
        let ghost rules = self@.failure_policy;
        let mut i: usize = 0;
        while i < self.failure_policy.len()
            invariant
                i <= self.failure_policy.len(),
                rules == self@.failure_policy,
                rules == views(self.failure_policy@),
                forall|k: int| 0 <= k < i ==> is_whole_rule(#[trigger] rules[k]),
            decreases self.failure_policy.len() - i,
        {
            let rule = &self.failure_policy[i];
            assert(rules[i as int] == rule@);
            if is_blank(rule.condition.as_str()) || is_blank(rule.action.as_str()) || is_blank(
                rule.escalation.as_str(),
            ) {
                assert(!is_whole_rule(rules[i as int]));
                return false;
            }
            i = i + 1;
        }
        true
    }

    /// Checks that a profile says everything that a role has to know.
    pub fn validate(&self) -> (r: Result<(), AgentError>)
        ensures
            unit_outcome(r) == profile_outcome(self@),
    {
        if !self.filled_in() {
            return Err(AgentError::new("agent-profile-invalid", self.profile_id.as_str()));
        }
        if !self.procedure_stands() {
            return Err(
                AgentError::new("agent-profile-procedure-invalid", self.profile_id.as_str()),
            );
        }
        if !self.rules_stand() {
            return Err(
                AgentError::new("agent-profile-failure-policy-invalid", self.profile_id.as_str()),
            );
        }
        Ok(())
    }

    /// The profile as text, in which a model finds its instructions.
    pub fn render_contract(&self) -> (r: String)
        ensures
            r@ == contract_text(self@),
    {
        let policy = &self.model_policy;
        let mut out: String = "<agent-profile schema=\"".to_string();
        out.append(decimal_of(self.schema_version as u64).as_str());
        out.append("\" id=\"");
        out.append(escape(self.profile_id.as_str()).as_str());
        out.append("\" role=\"");
        out.append(role_name(self.role));
        out.append("\"><mission>");
        out.append(escape(self.mission.as_str()).as_str());
        out.append("</mission>");
        out.append(list("non-goals", &self.non_goals).as_str());
        out.append(list("required-inputs", &self.required_inputs).as_str());
        out.append("<procedure>");
        out.append(render_steps(&self.procedure).as_str());
        out.append("</procedure>");
        out.append(list("output-contract", &self.output_contract).as_str());
        out.append(list("evidence-requirements", &self.evidence_requirements).as_str());
        out.append("<failure-policy>");
        out.append(render_rules(&self.failure_policy).as_str());
        out.append("</failure-policy>");
        out.append(list("context-priorities", &self.context_priorities).as_str());
        out.append(list("tool-strategy", &self.tool_strategy).as_str());
        out.append(list("methodology-sources", &self.methodology_sources).as_str());
        out.append("<memory-policy write-scope=\"");
        let scope = match &self.memory_policy.write_scope {
            Some(scope) => escape(scope.as_str()),
            None => escape("none"),
        };
        out.append(scope.as_str());
        out.append("\">");
        out.append(list("read-scopes", &self.memory_policy.read_scopes).as_str());
        out.append(list("write-rules", &self.memory_policy.write_rules).as_str());
        out.append("</memory-policy>");
        out.append("<model-policy recommended-reasoning=\"");
        out.append(reasoning_name(policy.recommended_reasoning));
        out.append("\" target-turns=\"");
        out.append(decimal_of(policy.target_turns as u64).as_str());
        out.append("\" max-turns=\"");
        out.append(decimal_of(policy.max_turns as u64).as_str());
        out.append("\" extension-turns=\"");
        out.append(decimal_of(policy.extension_turns as u64).as_str());
        out.append("\" max-stuck-recoveries=\"");
        out.append(decimal_of(policy.max_stuck_recoveries as u64).as_str());
        out.append("\" max-output-tokens=\"");
        out.append(decimal_of(policy.max_output_tokens as u64).as_str());
        out.append("\" max-tool-calls=\"");
        out.append(decimal_of(policy.max_tool_calls as u64).as_str());
        out.append("\" />");
        out.append(list("completion-gate", &self.completion_gate).as_str());
        out.append("</agent-profile>");
        out
    }
}

/// Writes the characters that mean something in a tag as entities.
pub fn escape(value: &str) -> (r: String)
    ensures
        r@ == escaped(value@),
{
    let chars = chars_of(value);
    let mut r: String = String::new();
    let mut i: usize = 0;
    assert(value@.subrange(0, 0) =~= Seq::empty());
    while i < chars.len()
        invariant
            i <= chars.len(),
            chars@ == value@,
            r@ == escaped(value@.subrange(0, i as int)),
        decreases chars.len() - i,
    {
        let ghost next = value@.subrange(0, i as int + 1);
        assert(next.drop_last() =~= value@.subrange(0, i as int));
        let c = chars[i];
        if c == '&' {
            r.append("&amp;");
        } else if c == '<' {
            r.append("&lt;");
        } else if c == '>' {
            r.append("&gt;");
        } else if c == '"' {
            r.append("&quot;");
        } else {
            r.push(c);
            assert(r@ =~= escaped(next));
        }
        i = i + 1;
    }
    assert(value@.subrange(0, value@.len() as int) =~= value@);
    r
}

fn list(tag: &str, values: &Vec<String>) -> (r: String)
    ensures
        r@ == list_text(tag@, texts(values@)),
{
    let ghost all = texts(values@);
    let mut items: String = "".to_string();
    let mut i: usize = 0;
    assert(all.subrange(0, 0) =~= Seq::empty());
    while i < values.len()
        invariant
            i <= values.len(),
            all == texts(values@),
            items@ == items_text(all.subrange(0, i as int)),
        decreases values.len() - i,
    {
        let ghost next = all.subrange(0, i as int + 1);
        assert(next.drop_last() =~= all.subrange(0, i as int));
        assert(next.last() == values@[i as int]@);
        items.append("<item>");
        items.append(escape(values[i].as_str()).as_str());
        items.append("</item>");
        i = i + 1;
    }
    assert(all.subrange(0, all.len() as int) =~= all);
    let mut r: String = "<".to_string();
    r.append(tag);
    r.append(">");
    r.append(items.as_str());
    r.append("</");
    r.append(tag);
    r.append(">");
    r
}

fn render_steps(steps: &Vec<AgentProcedureStep>) -> (r: String)
    ensures
        r@ == steps_text(views(steps@)),
{
    let ghost all = views(steps@);
    let mut r: String = "".to_string();
    let mut i: usize = 0;
    assert(all.subrange(0, 0) =~= Seq::empty());
    while i < steps.len()
        invariant
            i <= steps.len(),
            all == views(steps@),
            r@ == steps_text(all.subrange(0, i as int)),
        decreases steps.len() - i,
    {
        let ghost next = all.subrange(0, i as int + 1);
        assert(next.drop_last() =~= all.subrange(0, i as int));
        assert(next.last() == steps@[i as int]@);
        r.append("<step id=\"");
        r.append(escape(steps[i].id.as_str()).as_str());
        r.append("\"><action>");
        r.append(escape(steps[i].action.as_str()).as_str());
        r.append("</action><produces>");
        r.append(escape(steps[i].produces.as_str()).as_str());
        r.append("</produces><stop>");
        r.append(escape(steps[i].stop_condition.as_str()).as_str());
        r.append("</stop></step>");
        i = i + 1;
    }
    assert(all.subrange(0, all.len() as int) =~= all);
    r
}

fn render_rules(rules: &Vec<AgentFailureRule>) -> (r: String)
    ensures
        r@ == rules_text(views(rules@)),
{
    let ghost all = views(rules@);
    let mut r: String = "".to_string();
    let mut i: usize = 0;
    assert(all.subrange(0, 0) =~= Seq::empty());
    while i < rules.len()
        invariant
            i <= rules.len(),
            all == views(rules@),
            r@ == rules_text(all.subrange(0, i as int)),
        decreases rules.len() - i,
    {
        let ghost next = all.subrange(0, i as int + 1);
        assert(next.drop_last() =~= all.subrange(0, i as int));
        assert(next.last() == rules@[i as int]@);
        r.append("<rule><condition>");
        r.append(escape(rules[i].condition.as_str()).as_str());
        r.append("</condition><action>");
        r.append(escape(rules[i].action.as_str()).as_str());
        r.append("</action><escalation>");
        r.append(escape(rules[i].escalation.as_str()).as_str());
        r.append("</escalation></rule>");
        i = i + 1;
    }
    assert(all.subrange(0, all.len() as int) =~= all);
    r
}

/// Owned copies of texts.
pub fn strings(values: &Vec<&str>) -> (r: Vec<String>)
    ensures
        texts(r@) == views(values@),
{
    let mut r: Vec<String> = Vec::new();
    let mut i: usize = 0;
    while i < values.len()
        invariant
            i <= values.len(),
            r@.len() == i,
            forall|k: int| 0 <= k < i ==> (#[trigger] r@[k])@ == values@[k]@,
        decreases values.len() - i,
    {
        r.push(values[i].to_string());
        i = i + 1;
    }
    assert(texts(r@) =~= views(values@));
    r
}

pub open spec fn sources_of(role: AgentRole) -> Seq<Seq<char>> {
    match role {
        AgentRole::RequirementsAnalyst | AgentRole::Planner => seq![
            "https://basecamp.com/shapeup/0.3-chapter-01"@,
            "https://basecamp.com/shapeup/2.3-chapter-09"@,
        ],
        AgentRole::Architect => seq![
            "https://www.12factor.net/"@,
            "https://github.com/microsoft/api-guidelines"@,
        ],
        AgentRole::Tester => seq![
            "https://playwright.dev/docs/best-practices"@,
            "https://martinfowler.com/articles/practical-test-pyramid.html"@,
        ],
        AgentRole::ReleaseManager => seq![
            "https://www.12factor.net/"@,
            "https://martinfowler.com/bliki/DeploymentPipeline.html"@,
        ],
        AgentRole::PerformanceEngineer => seq![
            "https://sre.google/workbook/part-I-foundations/"@,
            "https://opentelemetry.io/docs/concepts/observability-primer/"@,
        ],
        AgentRole::Explorer | AgentRole::Researcher => seq![
            "https://docs.github.com/en/search-github/searching-on-github/searching-code"@,
        ],
        AgentRole::Coder | AgentRole::Reviewer | AgentRole::MergeAgent => seq![
            "https://google.github.io/eng-practices/review/"@,
        ],
        AgentRole::SecurityAuditor => seq![
            "https://owasp.org/www-project-application-security-verification-standard/"@,
        ],
        AgentRole::Debugger => seq!["https://sre.google/workbook/monitoring/"@],
        AgentRole::Coordinator | AgentRole::StaffingRouter | AgentRole::Supervisor => seq![
            "https://basecamp.com/shapeup/2.3-chapter-09"@,
        ],
    }
}

/// Where the way of working of a role is described.
pub fn methodology_sources(role: AgentRole) -> (r: Vec<String>)
    ensures
        texts(r@) == sources_of(role),
{
    let sources: Vec<&str> = match role {
        AgentRole::RequirementsAnalyst | AgentRole::Planner => vec![
            "https://basecamp.com/shapeup/0.3-chapter-01",
            "https://basecamp.com/shapeup/2.3-chapter-09",
        ],
        AgentRole::Architect => vec![
            "https://www.12factor.net/",
            "https://github.com/microsoft/api-guidelines",
        ],
        AgentRole::Tester => vec![
            "https://playwright.dev/docs/best-practices",
            "https://martinfowler.com/articles/practical-test-pyramid.html",
        ],
        AgentRole::ReleaseManager => vec![
            "https://www.12factor.net/",
            "https://martinfowler.com/bliki/DeploymentPipeline.html",
        ],
        AgentRole::PerformanceEngineer => vec![
            "https://sre.google/workbook/part-I-foundations/",
            "https://opentelemetry.io/docs/concepts/observability-primer/",
        ],
        AgentRole::Explorer | AgentRole::Researcher => vec![
            "https://docs.github.com/en/search-github/searching-on-github/searching-code",
        ],
        AgentRole::Coder | AgentRole::Reviewer | AgentRole::MergeAgent => vec![
            "https://google.github.io/eng-practices/review/",
        ],
        AgentRole::SecurityAuditor => vec![
            "https://owasp.org/www-project-application-security-verification-standard/",
        ],
        AgentRole::Debugger => vec!["https://sre.google/workbook/monitoring/"],
        AgentRole::Coordinator | AgentRole::StaffingRouter | AgentRole::Supervisor => vec![
            "https://basecamp.com/shapeup/2.3-chapter-09",
        ],
    };
    assert(views(sources@) =~= sources_of(role));
    strings(&sources)
}

pub open spec fn step_views(
    values: Seq<(Seq<char>, Seq<char>, Seq<char>, Seq<char>)>,
) -> Seq<StepView> {
    values.map_values(
        |v: (Seq<char>, Seq<char>, Seq<char>, Seq<char>)|
            StepView { id: v.0, action: v.1, produces: v.2, stop_condition: v.3 },
    )
}

/// Steps out of their four texts: id, action, what it produces and when it ends.
pub fn steps(values: &Vec<(&str, &str, &str, &str)>) -> (r: Vec<AgentProcedureStep>)
    ensures
        views(r@) == step_views(views(values@)),
{
    let mut r: Vec<AgentProcedureStep> = Vec::new();
    let mut i: usize = 0;
    while i < values.len()
        invariant
            i <= values.len(),
            r@.len() == i,
            forall|k: int|
                0 <= k < i ==> (#[trigger] r@[k])@ == step_views(views(values@))[k],
        decreases values.len() - i,
    {
        let (id, action, produces, stop_condition) = values[i];
        r.push(
            AgentProcedureStep {
                id: id.to_string(),
                action: action.to_string(),
                produces: produces.to_string(),
                stop_condition: stop_condition.to_string(),
            },
        );
        i = i + 1;
    }
    assert(views(r@) =~= step_views(views(values@)));
    r
}

pub open spec fn rule_views(values: Seq<(Seq<char>, Seq<char>, Seq<char>)>) -> Seq<RuleView> {
    values.map_values(
        |v: (Seq<char>, Seq<char>, Seq<char>)|
            RuleView { condition: v.0, action: v.1, escalation: v.2 },
    )
}

/// Rules out of their three texts: the condition, what is done, and who is told.
pub fn failures(values: &Vec<(&str, &str, &str)>) -> (r: Vec<AgentFailureRule>)
    ensures
        views(r@) == rule_views(views(values@)),
{
    let mut r: Vec<AgentFailureRule> = Vec::new();
    let mut i: usize = 0;
    while i < values.len()
        invariant
            i <= values.len(),
            r@.len() == i,
            forall|k: int|
                0 <= k < i ==> (#[trigger] r@[k])@ == rule_views(views(values@))[k],
        decreases values.len() - i,
    {
        let (condition, action, escalation) = values[i];
        r.push(
            AgentFailureRule {
                condition: condition.to_string(),
                action: action.to_string(),
                escalation: escalation.to_string(),
            },
        );
        i = i + 1;
    }
    assert(views(r@) =~= rule_views(views(values@)));
    r
}

/// The limits of a role: half of the target, rounded up, can be added to it twice.
pub open spec fn policy_of(
    recommended_reasoning: ReasoningLevel,
    target_turns: u8,
    max_turns: u8,
    max_output_tokens: u32,
    max_tool_calls: u32,
) -> AgentModelPolicy {
    AgentModelPolicy {
        recommended_reasoning,
        target_turns,
        max_turns,
        extension_turns: (target_turns / 2 + target_turns % 2) as u8,
        max_stuck_recoveries: 2,
        max_output_tokens,
        max_tool_calls,
    }
}

pub fn model(
    recommended_reasoning: ReasoningLevel,
    target_turns: u8,
    max_turns: u8,
    max_output_tokens: u32,
    max_tool_calls: u32,
) -> (r: AgentModelPolicy)
    ensures
        r == policy_of(
            recommended_reasoning,
            target_turns,
            max_turns,
            max_output_tokens,
            max_tool_calls,
        ),
{
    AgentModelPolicy {
        recommended_reasoning,
        target_turns,
        max_turns,
        extension_turns: target_turns / 2 + target_turns % 2,
        max_stuck_recoveries: 2,
        max_output_tokens,
        max_tool_calls,
    }
}

pub open spec fn profile_view(
    role: AgentRole,
    id: Seq<char>,
    mission: Seq<char>,
    non_goals: Seq<Seq<char>>,
    required_inputs: Seq<Seq<char>>,
    procedure: Seq<(Seq<char>, Seq<char>, Seq<char>, Seq<char>)>,
    output_contract: Seq<Seq<char>>,
    evidence_requirements: Seq<Seq<char>>,
    failure_policy: Seq<(Seq<char>, Seq<char>, Seq<char>)>,
    context_priorities: Seq<Seq<char>>,
    tool_strategy: Seq<Seq<char>>,
    read_scopes: Seq<Seq<char>>,
    write_scope: Option<Seq<char>>,
    write_rules: Seq<Seq<char>>,
    model_policy: AgentModelPolicy,
    completion_gate: Seq<Seq<char>>,
) -> ProfileView {
    ProfileView {
        schema_version: AGENT_PROFILE_SCHEMA_VERSION,
        profile_id: id,
        role,
        mission,
        non_goals,
        required_inputs,
        procedure: step_views(procedure),
        output_contract,
        evidence_requirements,
        failure_policy: rule_views(failure_policy),
        context_priorities,
        tool_strategy,
        methodology_sources: sources_of(role),
        read_scopes,
        write_scope,
        write_rules,
        model_policy,
        completion_gate,
    }
}

pub fn profile(
    role: AgentRole,
    id: &str,
    mission: &str,
    non_goals: Vec<&str>,
    required_inputs: Vec<&str>,
    procedure: Vec<(&str, &str, &str, &str)>,
    output_contract: Vec<&str>,
    evidence_requirements: Vec<&str>,
    failure_policy: Vec<(&str, &str, &str)>,
    context_priorities: Vec<&str>,
    tool_strategy: Vec<&str>,
    memory_read_scopes: Vec<&str>,
    memory_write_scope: Option<&str>,
    memory_write_rules: Vec<&str>,
    model_policy: AgentModelPolicy,
    completion_gate: Vec<&str>,
) -> (r: AgentProfile)
    ensures
        r@ == profile_view(
            role,
            id@,
            mission@,
            views(non_goals@),
            views(required_inputs@),
            views(procedure@),
            views(output_contract@),
            views(evidence_requirements@),
            views(failure_policy@),
            views(context_priorities@),
            views(tool_strategy@),
            views(memory_read_scopes@),
            option_view(memory_write_scope),
            views(memory_write_rules@),
            model_policy,
            views(completion_gate@),
        ),
{
    AgentProfile {
        schema_version: AGENT_PROFILE_SCHEMA_VERSION,
        profile_id: id.to_string(),
        role,
        mission: mission.to_string(),
        non_goals: strings(&non_goals),
        required_inputs: strings(&required_inputs),
        procedure: steps(&procedure),
        output_contract: strings(&output_contract),
        evidence_requirements: strings(&evidence_requirements),
        failure_policy: failures(&failure_policy),
        context_priorities: strings(&context_priorities),
        tool_strategy: strings(&tool_strategy),
        methodology_sources: methodology_sources(role),
        memory_policy: AgentMemoryPolicy {
            read_scopes: strings(&memory_read_scopes),
            write_scope: match memory_write_scope {
                Some(scope) => Some(scope.to_string()),
                None => None,
            },
            write_rules: strings(&memory_write_rules),
        },
        model_policy,
        completion_gate: strings(&completion_gate),
    }
}

/// The profile of a role.
pub open spec fn profile_of(role: AgentRole) -> ProfileView {
    match role {
        AgentRole::RequirementsAnalyst => requirements_analyst_profile(),
        AgentRole::Explorer => explorer_profile(),
        AgentRole::Architect => architect_profile(),
        AgentRole::Planner => planner_profile(),
        AgentRole::Coder => coder_profile(),
        AgentRole::Reviewer => reviewer_profile(),
        AgentRole::SecurityAuditor => security_auditor_profile(),
        AgentRole::PerformanceEngineer => performance_engineer_profile(),
        AgentRole::Tester => tester_profile(),
        AgentRole::ReleaseManager => release_manager_profile(),
        AgentRole::Debugger => debugger_profile(),
        AgentRole::Researcher => researcher_profile(),
        AgentRole::MergeAgent => merge_agent_profile(),
        AgentRole::Coordinator => coordinator_profile(),
        AgentRole::StaffingRouter => staffing_router_profile(),
        AgentRole::Supervisor => supervisor_profile(),
    }
}

pub fn agent_profile(role: AgentRole) -> (r: AgentProfile)
    ensures
        r@ == profile_of(role),
{
    match role {
        AgentRole::RequirementsAnalyst => requirements_analyst(),
        AgentRole::Explorer => explorer(),
        AgentRole::Architect => architect(),
        AgentRole::Planner => planner(),
        AgentRole::Coder => coder(),
        AgentRole::Reviewer => reviewer(),
        AgentRole::SecurityAuditor => security_auditor(),
        AgentRole::PerformanceEngineer => performance_engineer(),
        AgentRole::Tester => tester(),
        AgentRole::ReleaseManager => release_manager(),
        AgentRole::Debugger => debugger(),
        AgentRole::Researcher => researcher(),
        AgentRole::MergeAgent => merge_agent(),
        AgentRole::Coordinator => coordinator(),
        AgentRole::StaffingRouter => staffing_router(),
        AgentRole::Supervisor => supervisor(),
    }
}

} // verus!
