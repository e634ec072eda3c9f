//! What profiles, roles and built-in agents are made of, and how values and paths are written.

use vstd::prelude::*;

use crate::builtin::builtin_definitions;
use crate::error::Outcome;
use crate::json::{json_escaped, json_quoted, lookup, JsonView};
use crate::profile::{
    contract_text, escaped, escaped_char, is_whole_rule, items_text, list_text, policy_of,
    profile_outcome, reasoning_name_text, rules_text, scope_text, steps_text, ProfileView,
    ReasoningLevel, RuleView, StepView,
};
use crate::roles::{
    first_role, role_name_text, role_order, role_place, roles_among, roles_in_order, turn_limit,
    AgentRole,
};
use crate::text::{contains_text, decimal, is_blank_text, occurs_at};

verus! {

/// A list that says something.
pub open spec fn says_something(items: Seq<Seq<char>>) -> bool {
    items.len() > 0 && forall|i: int| 0 <= i < items.len() ==> !is_blank_text(#[trigger] items[i])
}

/// A profile is accepted if every part of it says something, its procedure has at least four whole
/// steps with names of their own, it has at least two whole rules for failures, and its limits are
/// within bounds. If not, the first of these that fails is told.
pub proof fn law_profiles_are_whole(p: ProfileView)
    ensures
        ({
            let m = p.model_policy;
            let filled = {
                &&& p.schema_version == 1
                &&& !is_blank_text(p.profile_id) && !is_blank_text(p.mission)
                &&& says_something(p.non_goals) && says_something(p.required_inputs)
                &&& says_something(p.output_contract) && says_something(p.evidence_requirements)
                &&& says_something(p.context_priorities) && says_something(p.tool_strategy)
                &&& says_something(p.methodology_sources) && says_something(p.read_scopes)
                &&& says_something(p.write_rules) && says_something(p.completion_gate)
                &&& p.procedure.len() >= 4 && p.failure_policy.len() >= 2
                &&& 1 <= m.max_turns <= 64 && 1 <= m.target_turns <= m.max_turns
                &&& 1 <= m.extension_turns <= m.max_turns && m.max_stuck_recoveries <= 4
                &&& 256 <= m.max_output_tokens <= 32768 && m.max_tool_calls <= 64
            };
            let stepwise = {
                &&& forall|i: int|
                    0 <= i < p.procedure.len() ==> !is_blank_text((#[trigger] p.procedure[i]).id)
                        && !is_blank_text(p.procedure[i].action) && !is_blank_text(
                        p.procedure[i].produces,
                    ) && !is_blank_text(p.procedure[i].stop_condition)
                &&& forall|i: int, j: int|
                    0 <= i < j < p.procedure.len() ==> (#[trigger] p.procedure[i]).id != (
                    #[trigger] p.procedure[j]).id
            };
            let ruled = forall|i: int|
                0 <= i < p.failure_policy.len() ==> !is_blank_text(
                    (#[trigger] p.failure_policy[i]).condition,
                ) && !is_blank_text(p.failure_policy[i].action) && !is_blank_text(
                    p.failure_policy[i].escalation,
                );
            &&& profile_outcome(p) is Done <==> filled && stepwise && ruled
            &&& profile_outcome(p) matches Outcome::Failed(e) ==> e.message == p.profile_id
                && e.code == if !filled {
                "agent-profile-invalid"@
            } else if !stepwise {
                "agent-profile-procedure-invalid"@
            } else {
                "agent-profile-failure-policy-invalid"@
            }
        }),
{
    if forall|i: int| 0 <= i < p.failure_policy.len() ==> is_whole_rule(
        #[trigger] p.failure_policy[i],
    ) {
    } else {
        let i = choose|i: int|
            0 <= i < p.failure_policy.len() && !is_whole_rule(#[trigger] p.failure_policy[i]);
        assert(!is_whole_rule(p.failure_policy[i]));
    }
}

/// Half of the turns that are aimed at, rounded up, can be added to them.
pub proof fn law_half_the_turns_can_be_added(
    reasoning: ReasoningLevel,
    target: u8,
    most: u8,
    tokens: u32,
    calls: u32,
)
    ensures
        ({
            let p = policy_of(reasoning, target, most, tokens, calls);
            &&& 2 * p.extension_turns == target || 2 * p.extension_turns == target + 1
            &&& p.recommended_reasoning == reasoning && p.target_turns == target
            &&& p.max_turns == most && p.max_output_tokens == tokens && p.max_tool_calls == calls
            &&& p.max_stuck_recoveries == 2
        }),
{
}

pub open spec fn entity() -> spec_fn(char) -> Seq<char> {
    |c: char| escaped_char(c)
}

/// A text is escaped character by character: the four that mean something in a tag become entities of
/// their own, and every other one stays.
pub proof fn law_texts_are_escaped_by_character(s: Seq<char>, c: char)
    ensures
        escaped(s) == s.map_values(entity()).flatten(),
        c == '&' ==> escaped_char(c) == "&amp;"@,
        c == '<' ==> escaped_char(c) == "&lt;"@,
        c == '>' ==> escaped_char(c) == "&gt;"@,
        c == '"' ==> escaped_char(c) == "&quot;"@,
        c != '&' && c != '<' && c != '>' && c != '"' ==> escaped_char(c) == seq![c],
    decreases s.len(),
{
    if s.len() > 0 {
        let before = s.drop_last();
        law_texts_are_escaped_by_character(before, c);
        let all = before.map_values(entity());
        assert(s.map_values(entity()) =~= all.push(escaped_char(s.last())));
        all.lemma_flatten_push(escaped_char(s.last()));
    } else {
        assert(s.map_values(entity()) =~= Seq::<Seq<char>>::empty());
        assert(escaped(s) =~= s.map_values(entity()).flatten());
    }
}

pub open spec fn item_told() -> spec_fn(Seq<char>) -> Seq<char> {
    |x: Seq<char>| "<item>"@ + escaped(x) + "</item>"@
}

/// A list is told item by item, each within its own tags, within the tags of the list.
pub proof fn law_lists_are_told_item_by_item(tag: Seq<char>, items: Seq<Seq<char>>)
    ensures
        items_text(items) == items.map_values(item_told()).flatten(),
        list_text(tag, items) == "<"@ + tag + ">"@ + items.map_values(item_told()).flatten() + "</"@
            + tag + ">"@,
    decreases items.len(),
{
    if items.len() > 0 {
        let before = items.drop_last();
        law_lists_are_told_item_by_item(tag, before);
        let all = before.map_values(item_told());
        let last = item_told()(items.last());
        assert(items.map_values(item_told()) =~= all.push(last));
        all.lemma_flatten_push(last);
        assert(items_text(items) =~= all.flatten() + last);
    } else {
        assert(items.map_values(item_told()) =~= Seq::<Seq<char>>::empty());
        assert(items_text(items) =~= items.map_values(item_told()).flatten()) by {
            reveal_strlit("");
        }
    }
}

pub open spec fn step_told() -> spec_fn(StepView) -> Seq<char> {
    |s: StepView|
        "<step id=\""@ + escaped(s.id) + "\"><action>"@ + escaped(s.action)
            + "</action><produces>"@ + escaped(s.produces) + "</produces><stop>"@ + escaped(
            s.stop_condition,
        ) + "</stop></step>"@
}

pub open spec fn rule_told() -> spec_fn(RuleView) -> Seq<char> {
    |r: RuleView|
        "<rule><condition>"@ + escaped(r.condition) + "</condition><action>"@ + escaped(r.action)
            + "</action><escalation>"@ + escaped(r.escalation) + "</escalation></rule>"@
}

/// A procedure is told step by step and a policy rule by rule, in their order.
pub proof fn law_procedures_are_told_step_by_step(steps: Seq<StepView>, rules: Seq<RuleView>)
    ensures
        steps_text(steps) == steps.map_values(step_told()).flatten(),
        rules_text(rules) == rules.map_values(rule_told()).flatten(),
    decreases steps.len() + rules.len(),
{
    if steps.len() > 0 {
        let before = steps.drop_last();
        law_procedures_are_told_step_by_step(before, Seq::empty());
        let all = before.map_values(step_told());
        let last = step_told()(steps.last());
        assert(steps.map_values(step_told()) =~= all.push(last));
        all.lemma_flatten_push(last);
        assert(steps_text(steps) =~= all.flatten() + last);
    } else {
        assert(steps.map_values(step_told()) =~= Seq::<Seq<char>>::empty());
        assert(steps_text(steps) =~= steps.map_values(step_told()).flatten()) by {
            reveal_strlit("");
        }
    }
    if rules.len() > 0 {
        let before = rules.drop_last();
        law_procedures_are_told_step_by_step(Seq::empty(), before);
        let all = before.map_values(rule_told());
        let last = rule_told()(rules.last());
        assert(rules.map_values(rule_told()) =~= all.push(last));
        all.lemma_flatten_push(last);
        assert(rules_text(rules) =~= all.flatten() + last);
    } else {
        assert(rules.map_values(rule_told()) =~= Seq::<Seq<char>>::empty());
        assert(rules_text(rules) =~= rules.map_values(rule_told()).flatten()) by {
            reveal_strlit("");
        }
    }
}

proof fn lemma_grows(a: Seq<char>, b: Seq<char>)
    ensures
        contains_text(a + b, b),
        forall|n: Seq<char>| #[trigger] contains_text(a, n) ==> contains_text(a + b, n),
{
    let all = a + b;
    assert(all.subrange(a.len() as int, all.len() as int) =~= b);
    assert(occurs_at(all, b, a.len() as int));
    assert forall|n: Seq<char>| #[trigger] contains_text(a, n) implies contains_text(all, n) by {
        let at = choose|at: int| occurs_at(a, n, at);
        assert(all.subrange(at, at + n.len()) =~= a.subrange(at, at + n.len()));
        assert(occurs_at(all, n, at));
    }
}

/// The text of a profile tells all of it: who it is for, what it is there for, and every list, step and
/// rule of it under its own name, and every limit.
#[verifier::rlimit(60)]
pub proof fn law_contracts_tell_the_whole_profile(p: ProfileView)
    ensures
        ({
            let t = contract_text(p);
            &&& contains_text(t, escaped(p.profile_id))
            &&& contains_text(t, role_name_text(p.role))
            &&& contains_text(t, escaped(p.mission))
            &&& contains_text(t, list_text("non-goals"@, p.non_goals))
            &&& contains_text(t, list_text("required-inputs"@, p.required_inputs))
            &&& contains_text(t, steps_text(p.procedure))
            &&& contains_text(t, list_text("output-contract"@, p.output_contract))
            &&& contains_text(t, list_text("evidence-requirements"@, p.evidence_requirements))
            &&& contains_text(t, rules_text(p.failure_policy))
            &&& contains_text(t, list_text("context-priorities"@, p.context_priorities))
            &&& contains_text(t, list_text("tool-strategy"@, p.tool_strategy))
            &&& contains_text(t, list_text("methodology-sources"@, p.methodology_sources))
            &&& contains_text(t, list_text("read-scopes"@, p.read_scopes))
            &&& contains_text(t, list_text("write-rules"@, p.write_rules))
            &&& contains_text(t, list_text("completion-gate"@, p.completion_gate))
            &&& p.write_scope matches Some(scope) ==> contains_text(t, escaped(scope))
            &&& contains_text(t, decimal(p.model_policy.max_turns as nat))
            &&& contains_text(t, decimal(p.model_policy.target_turns as nat))
            &&& contains_text(t, decimal(p.model_policy.extension_turns as nat))
            &&& contains_text(t, decimal(p.model_policy.max_output_tokens as nat))
            &&& contains_text(t, decimal(p.model_policy.max_tool_calls as nat))
        }),
{
    let t0 = "<agent-profile schema=\""@;
    let x1 = decimal(p.schema_version as nat);
    let t1 = t0 + x1;
    lemma_grows(t0, x1);
    let x2 = "\" id=\""@;
    let t2 = t1 + x2;
    lemma_grows(t1, x2);
    let x3 = escaped(p.profile_id);
    let t3 = t2 + x3;
    lemma_grows(t2, x3);
    let x4 = "\" role=\""@;
    let t4 = t3 + x4;
    lemma_grows(t3, x4);
    let x5 = role_name_text(p.role);
    let t5 = t4 + x5;
    lemma_grows(t4, x5);
    let x6 = "\"><mission>"@;
    let t6 = t5 + x6;
    lemma_grows(t5, x6);
    let x7 = escaped(p.mission);
    let t7 = t6 + x7;
    lemma_grows(t6, x7);
    let x8 = "</mission>"@;
    let t8 = t7 + x8;
    lemma_grows(t7, x8);
    let x9 = list_text("non-goals"@, p.non_goals);
    let t9 = t8 + x9;
    lemma_grows(t8, x9);
    let x10 = list_text("required-inputs"@, p.required_inputs);
    let t10 = t9 + x10;
    lemma_grows(t9, x10);
    let x11 = "<procedure>"@;
    let t11 = t10 + x11;
    lemma_grows(t10, x11);
    let x12 = steps_text(p.procedure);
    let t12 = t11 + x12;
    lemma_grows(t11, x12);
    let x13 = "</procedure>"@;
    let t13 = t12 + x13;
    lemma_grows(t12, x13);
    let x14 = list_text("output-contract"@, p.output_contract);
    let t14 = t13 + x14;
    lemma_grows(t13, x14);
    let x15 = list_text("evidence-requirements"@, p.evidence_requirements);
    let t15 = t14 + x15;
    lemma_grows(t14, x15);
    let x16 = "<failure-policy>"@;
    let t16 = t15 + x16;
    lemma_grows(t15, x16);
    let x17 = rules_text(p.failure_policy);
    let t17 = t16 + x17;
    lemma_grows(t16, x17);
    let x18 = "</failure-policy>"@;
    let t18 = t17 + x18;
    lemma_grows(t17, x18);
    let x19 = list_text("context-priorities"@, p.context_priorities);
    let t19 = t18 + x19;
    lemma_grows(t18, x19);
    let x20 = list_text("tool-strategy"@, p.tool_strategy);
    let t20 = t19 + x20;
    lemma_grows(t19, x20);
    let x21 = list_text("methodology-sources"@, p.methodology_sources);
    let t21 = t20 + x21;
    lemma_grows(t20, x21);
    let x22 = "<memory-policy write-scope=\""@;
    let t22 = t21 + x22;
    lemma_grows(t21, x22);
    let x23 = escaped(scope_text(p.write_scope));
    let t23 = t22 + x23;
    lemma_grows(t22, x23);
    let x24 = "\">"@;
    let t24 = t23 + x24;
    lemma_grows(t23, x24);
    let x25 = list_text("read-scopes"@, p.read_scopes);
    let t25 = t24 + x25;
    lemma_grows(t24, x25);
    let x26 = list_text("write-rules"@, p.write_rules);
    let t26 = t25 + x26;
    lemma_grows(t25, x26);
    let x27 = "</memory-policy>"@;
    let t27 = t26 + x27;
    lemma_grows(t26, x27);
    let x28 = "<model-policy recommended-reasoning=\""@;
    let t28 = t27 + x28;
    lemma_grows(t27, x28);
    let x29 = reasoning_name_text(p.model_policy.recommended_reasoning);
    let t29 = t28 + x29;
    lemma_grows(t28, x29);
    let x30 = "\" target-turns=\""@;
    let t30 = t29 + x30;
    lemma_grows(t29, x30);
    let x31 = decimal(p.model_policy.target_turns as nat);
    let t31 = t30 + x31;
    lemma_grows(t30, x31);
    let x32 = "\" max-turns=\""@;
    let t32 = t31 + x32;
    lemma_grows(t31, x32);
    let x33 = decimal(p.model_policy.max_turns as nat);
    let t33 = t32 + x33;
    lemma_grows(t32, x33);
    let x34 = "\" extension-turns=\""@;
    let t34 = t33 + x34;
    lemma_grows(t33, x34);
    let x35 = decimal(p.model_policy.extension_turns as nat);
    let t35 = t34 + x35;
    lemma_grows(t34, x35);
    let x36 = "\" max-stuck-recoveries=\""@;
    let t36 = t35 + x36;
    lemma_grows(t35, x36);
    let x37 = decimal(p.model_policy.max_stuck_recoveries as nat);
    let t37 = t36 + x37;
    lemma_grows(t36, x37);
    let x38 = "\" max-output-tokens=\""@;
    let t38 = t37 + x38;
    lemma_grows(t37, x38);
    let x39 = decimal(p.model_policy.max_output_tokens as nat);
    let t39 = t38 + x39;
    lemma_grows(t38, x39);
    let x40 = "\" max-tool-calls=\""@;
    let t40 = t39 + x40;
    lemma_grows(t39, x40);
    let x41 = decimal(p.model_policy.max_tool_calls as nat);
    let t41 = t40 + x41;
    lemma_grows(t40, x41);
    let x42 = "\" />"@;
    let t42 = t41 + x42;
    lemma_grows(t41, x42);
    let x43 = list_text("completion-gate"@, p.completion_gate);
    let t43 = t42 + x43;
    lemma_grows(t42, x43);
    let x44 = "</agent-profile>"@;
    let t44 = t43 + x44;
    lemma_grows(t43, x44);
    assert(contract_text(p) == t44);
}

/// Every role stands in the order of the roles, once, and no two have the same place.
pub proof fn law_roles_stand_in_one_order(role: AgentRole, other: AgentRole)
    ensures
        role_order().len() == 16,
        0 <= role_place(role) < 16,
        role_order()[role_place(role)] == role,
        role != other ==> role_place(role) != role_place(other),
{
}

proof fn lemma_among(members: Set<AgentRole>, n: int)
    requires
        0 <= n <= 16,
    ensures
        forall|role: AgentRole| #[trigger]
            roles_among(members, n).contains(role) <==> members.contains(role) && role_place(role)
                < n,
        forall|i: int, j: int|
            0 <= i < j < roles_among(members, n).len() ==> role_place(
                #[trigger] roles_among(members, n)[i],
            ) < role_place(#[trigger] roles_among(members, n)[j]),
    decreases n,
{
    if n > 0 {
        lemma_among(members, n - 1);
        let before = roles_among(members, n - 1);
        let all = roles_among(members, n);
        let last = role_order()[n - 1];
        assert(role_place(last) == n - 1);
        assert forall|role: AgentRole| #[trigger] all.contains(role) <==> members.contains(role)
            && role_place(role) < n by {
            law_roles_stand_in_one_order(role, last);
            if before.contains(role) {
                let i = before.index_of(role);
                assert(all[i] == role);
            }
            if all.contains(role) {
                let i = all.index_of(role);
                if i < before.len() {
                    assert(before[i] == role);
                    assert(before.contains(role));
                }
            }
            if members.contains(last) {
                assert(all[before.len() as int] == last);
            }
        }
        assert forall|i: int, j: int| 0 <= i < j < all.len() implies role_place(#[trigger] all[i])
            < role_place(#[trigger] all[j]) by {
            assert(before.contains(before[i]));
            if j < before.len() {
                assert(all[i] == before[i] && all[j] == before[j]);
            }
        }
    }
}

/// The roles of an agent are listed in the order of the roles, each once; it works in the first of
/// them.
pub proof fn law_agents_work_in_their_first_role(members: Set<AgentRole>)
    ensures
        forall|role: AgentRole| #[trigger]
            roles_in_order(members).contains(role) <==> members.contains(role),
        forall|i: int, j: int|
            0 <= i < j < roles_in_order(members).len() ==> role_place(
                #[trigger] roles_in_order(members)[i],
            ) < role_place(#[trigger] roles_in_order(members)[j]),
        match first_role(members) {
            None => forall|role: AgentRole| !members.contains(role),
            Some(first) => members.contains(first) && forall|role: AgentRole| #[trigger]
                members.contains(role) ==> role_place(first) <= role_place(role),
        },
{
    lemma_among(members, 16);
    let all = roles_in_order(members);
    match first_role(members) {
        None => {
            assert forall|role: AgentRole| !members.contains(role) by {
                assert(!all.contains(role));
            }
        },
        Some(first) => {
            assert(all.contains(all[0]));
            assert forall|role: AgentRole| #[trigger] members.contains(role) implies role_place(
                first,
            ) <= role_place(role) by {
                assert(all.contains(role));
                let i = all.index_of(role);
                assert(all[i] == role);
            }
        },
    }
}

/// Whoever asks what is wanted, what is there or how it is divided has two turns; whoever designs it,
/// looks at it or audits it three; and all others four.
pub proof fn law_roles_have_their_turns(role: AgentRole)
    ensures
        2 <= turn_limit(role) <= 4,
        turn_limit(role) == 2 <==> role is RequirementsAnalyst || role is Explorer || role is Planner,
        turn_limit(role) == 3 <==> role is Architect || role is Reviewer || role is SecurityAuditor,
{
}

/// The members of an object are looked up by name, and of two of one name the first counts.
pub proof fn law_the_first_member_counts(members: Seq<(Seq<char>, JsonView)>, key: Seq<char>)
    ensures
        match lookup(members, key) {
            None => forall|i: int| 0 <= i < members.len() ==> (#[trigger] members[i]).0 != key,
            Some(value) => exists|i: int|
                0 <= i < members.len() && #[trigger] members[i] == (key, value) && forall|j: int|
                    0 <= j < i ==> (#[trigger] members[j]).0 != key,
        },
    decreases members.len(),
{
    if members.len() > 0 && members[0].0 != key {
        let rest = members.drop_first();
        law_the_first_member_counts(rest, key);
        match lookup(rest, key) {
            None => {
                assert forall|i: int| 0 <= i < members.len() implies (#[trigger] members[i]).0
                    != key by {
                    if i > 0 {
                        assert(rest[i - 1] == members[i]);
                    }
                }
            },
            Some(value) => {
                let i = choose|i: int|
                    0 <= i < rest.len() && #[trigger] rest[i] == (key, value) && forall|j: int|
                        0 <= j < i ==> (#[trigger] rest[j]).0 != key;
                assert(members[i + 1] == (key, value));
                assert forall|j: int| 0 <= j < i + 1 implies (#[trigger] members[j]).0 != key by {
                    if j > 0 {
                        assert(rest[j - 1] == members[j]);
                    }
                }
            },
        }
    } else if members.len() > 0 {
        assert(members[0] == (key, members[0].1));
    }
}

/// A text in JSON stands between quotes, and no quote, backslash or control character of it stands
/// there as it is.
pub proof fn law_texts_are_quoted(value: Seq<char>, c: char)
    ensures
        json_quoted(value).len() >= 2,
        json_quoted(value)[0] == '"',
        json_quoted(value).last() == '"',
        c == '"' || c == '\\' ==> json_escaped(c) == seq!['\\', c],
        c == '\n' ==> json_escaped(c) == seq!['\\', 'n'],
        c == '\t' ==> json_escaped(c) == seq!['\\', 't'],
        c == '\r' ==> json_escaped(c) == seq!['\\', 'r'],
        (c as int) < 32 ==> json_escaped(c).len() > 1 && json_escaped(c)[0] == '\\',
        (c as int) >= 32 && c != '"' && c != '\\' ==> json_escaped(c) == seq![c],
        json_quoted(value) == seq!['"'] + value.map_values(|x: char| json_escaped(x)).flatten()
            + seq!['"'],
{
    reveal(json_quoted);
}

proof fn lemma_tools_2(a: Seq<char>, b: Seq<char>)
    ensures
        seq![a, b].to_set() =~= set![a, b],
{
    let all = seq![a, b];
    assert(all[0] == a);
    assert(all[1] == b);
    assert forall|x: Seq<char>| all.to_set().contains(x) <==> #[trigger] set![a, b].contains(x) by {
        if all.contains(x) {
            let i = all.index_of(x);
            assert(all[i] == x);
        }
    }
}

proof fn lemma_tools_3(a: Seq<char>, b: Seq<char>, c: Seq<char>)
    ensures
        seq![a, b, c].to_set() =~= set![a, b, c],
{
    let all = seq![a, b, c];
    assert(all[0] == a);
    assert(all[1] == b);
    assert(all[2] == c);
    assert forall|x: Seq<char>| all.to_set().contains(x) <==> #[trigger] set![a, b, c].contains(x) by {
        if all.contains(x) {
            let i = all.index_of(x);
            assert(all[i] == x);
        }
    }
}

proof fn lemma_tools_4(a: Seq<char>, b: Seq<char>, c: Seq<char>, d: Seq<char>)
    ensures
        seq![a, b, c, d].to_set() =~= set![a, b, c, d],
{
    let all = seq![a, b, c, d];
    assert(all[0] == a);
    assert(all[1] == b);
    assert(all[2] == c);
    assert(all[3] == d);
    assert forall|x: Seq<char>| all.to_set().contains(x) <==> #[trigger] set![a, b, c, d].contains(x) by {
        if all.contains(x) {
            let i = all.index_of(x);
            assert(all[i] == x);
        }
    }
}

/// The agents that may change files are those that code and those that merge; a process may be run by
/// these and by who measures, tests, releases and debugs; the network may be read by who audits and who
/// researches. Each built-in agent has one role of its own.
#[verifier::rlimit(60)]
#[verifier::spinoff_prover]
pub proof fn law_builtin_agents_may_do_what_their_role_needs(i: int)
    requires
        0 <= i < 15,
    ensures
        ({
            let d = builtin_definitions()[i];
            let codes = d.roles.contains(AgentRole::Coder) || d.roles.contains(
                AgentRole::MergeAgent,
            );
            &&& d.roles.len() == 1
            &&& d.allowed_tools.contains("file.write"@) <==> codes
            &&& d.allowed_tools.contains("process.run"@) <==> codes || d.roles.contains(
                AgentRole::PerformanceEngineer,
            ) || d.roles.contains(AgentRole::Tester) || d.roles.contains(AgentRole::ReleaseManager)
                || d.roles.contains(AgentRole::Debugger)
            &&& d.allowed_tools.contains("network.read"@) <==> d.roles.contains(
                AgentRole::SecurityAuditor,
            ) || d.roles.contains(AgentRole::Researcher)
            &&& 1 <= d.max_concurrency <= 8 && 1 <= d.cost_weight <= 5
        }),
{
    reveal_strlit("file.write");
    reveal_strlit("process.run");
    reveal_strlit("network.read");
    reveal_strlit("repository.read");
    reveal_strlit("memory.read");
    reveal_strlit("memory.write");
    reveal_strlit("message.read");
    reveal_strlit("message.write");
    reveal_strlit("lsp.read");
    reveal_strlit("diff.read");
    assert("file.write"@.len() == 10 && "file.write"@[0] == 'f');
    assert("process.run"@.len() == 11 && "process.run"@[0] == 'p');
    assert("network.read"@.len() == 12 && "network.read"@[0] == 'n');
    assert("repository.read"@[0] == 'r');
    assert("memory.read"@[0] == 'm');
    assert("memory.write"@[0] == 'm');
    assert("message.read"@[0] == 'm');
    assert("message.write"@[0] == 'm');
    assert("lsp.read"@[0] == 'l');
    assert("diff.read"@[0] == 'd');
    let d = builtin_definitions()[i];
    if i == 0 {
        assert(d.roles == set![AgentRole::StaffingRouter]);
        assert(d.allowed_tools =~= Set::<Seq<char>>::empty());
    }
    if i == 1 {
        assert(d.roles == set![AgentRole::Coordinator]);
        lemma_tools_3("message.read"@, "message.write"@, "memory.write"@);
    }
    if i == 2 {
        assert(d.roles == set![AgentRole::RequirementsAnalyst]);
        lemma_tools_2("memory.read"@, "repository.read"@);
    }
    if i == 3 {
        assert(d.roles == set![AgentRole::Explorer]);
        lemma_tools_2("repository.read"@, "lsp.read"@);
    }
    if i == 4 {
        assert(d.roles == set![AgentRole::Architect]);
        lemma_tools_3("repository.read"@, "memory.read"@, "memory.write"@);
    }
    if i == 5 {
        assert(d.roles == set![AgentRole::Planner]);
        lemma_tools_2("repository.read"@, "memory.read"@);
    }
    if i == 6 {
        assert(d.roles == set![AgentRole::Coder]);
        lemma_tools_3("repository.read"@, "file.write"@, "process.run"@);
    }
    if i == 7 {
        assert(d.roles == set![AgentRole::Reviewer]);
        lemma_tools_2("repository.read"@, "diff.read"@);
    }
    if i == 8 {
        assert(d.roles == set![AgentRole::SecurityAuditor]);
        lemma_tools_3("repository.read"@, "diff.read"@, "network.read"@);
    }
    if i == 9 {
        assert(d.roles == set![AgentRole::PerformanceEngineer]);
        lemma_tools_2("repository.read"@, "process.run"@);
    }
    if i == 10 {
        assert(d.roles == set![AgentRole::Tester]);
        lemma_tools_2("repository.read"@, "process.run"@);
    }
    if i == 11 {
        assert(d.roles == set![AgentRole::ReleaseManager]);
        lemma_tools_3("repository.read"@, "diff.read"@, "process.run"@);
    }
    if i == 12 {
        assert(d.roles == set![AgentRole::Debugger]);
        lemma_tools_2("repository.read"@, "process.run"@);
    }
    if i == 13 {
        assert(d.roles == set![AgentRole::Researcher]);
        lemma_tools_2("repository.read"@, "network.read"@);
    }
    if i == 14 {
        assert(d.roles == set![AgentRole::MergeAgent]);
        lemma_tools_4("repository.read"@, "diff.read"@, "file.write"@, "process.run"@);
    }
}

} // verus!
