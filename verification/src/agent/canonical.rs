//! Canonical serialization of policies and the hash inputs of policies and plans.

use vstd::prelude::*;
use vstd::string::StringExecFns;
use crate::agent::compliance::{
    ComplianceMethod, Policy, PolicyMethod, PolicyMethodView, PolicyRule, PolicyRuleType,
    PolicyRuleView, PolicyView, RuleSpec,
};
use crate::agent::types::{
    AgentPlan, AgentPlanView, ThoughtStep, ThoughtStepView, ToolCallView,
};
use crate::json::{
    json_bool, json_quoted, json_string_array, push_bool, push_string_array, quote,
};
use crate::text::{absorb_str, decimal, decimal_string, utf8};

verus! {

/// Canonical text of a method kind: its name as a JSON string.
pub open spec fn method_json(method: ComplianceMethod) -> Seq<char> {
    match method {
        ComplianceMethod::Deterministic => "\"Deterministic\""@,
        ComplianceMethod::LLMBased => "\"LLMBased\""@,
    }
}

/// Canonical text of an optional count: its decimal digits, or `null`.
pub open spec fn json_count(count: Option<usize>) -> Seq<char> {
    match count {
        Some(n) => decimal(n as nat),
        None => "null"@,
    }
}

/// Canonical text of a rule type: a JSON object that opens with the tag
/// `type` and goes on with the fields in declared order.
pub open spec fn rule_json(rule: RuleSpec) -> Seq<char> {
    match rule {
        RuleSpec::ProhibitedKeywords { keywords } => "{\"type\":\"ProhibitedKeywords\",\"keywords\":"@
            + json_string_array(keywords) + "}"@,
        RuleSpec::RequiredAbsentPatterns {
            patterns,
        } => "{\"type\":\"RequiredAbsentPatterns\",\"patterns\":"@ + json_string_array(patterns)
            + "}"@,
        RuleSpec::OutputRestriction {
            max_raw_items,
            require_aggregation,
        } => "{\"type\":\"OutputRestriction\",\"max_raw_items\":"@ + json_count(max_raw_items)
            + ",\"require_aggregation\":"@ + json_bool(require_aggregation) + "}"@,
        RuleSpec::NoIdentityInference {
            prohibited_terms,
        } => "{\"type\":\"NoIdentityInference\",\"prohibited_terms\":"@ + json_string_array(
            prohibited_terms,
        ) + "}"@,
        RuleSpec::RequireAttribution {
            require_source,
            require_timestamp,
        } => "{\"type\":\"RequireAttribution\",\"require_source\":"@ + json_bool(require_source)
            + ",\"require_timestamp\":"@ + json_bool(require_timestamp) + "}"@,
        RuleSpec::LLMCompliance { check_prompt } => "{\"type\":\"LLMCompliance\",\"check_prompt\":"@
            + json_quoted(check_prompt) + "}"@,
    }
}

/// What the first `n` rules add to the policy hash input: for each rule its
/// id, then the canonical text of its type.
pub open spec fn rules_preimage(rules: Seq<PolicyRuleView>, n: int) -> Seq<u8>
    decreases n,
{
    if n <= 0 {
        Seq::<u8>::empty()
    } else {
        rules_preimage(rules, n - 1) + utf8(rules[n - 1].id) + utf8(
            rule_json(rules[n - 1].rule_type),
        )
    }
}

/// What the first `n` methods add to the policy hash input: for each method
/// the canonical text of its kind, then its rules.
pub open spec fn methods_preimage(methods: Seq<PolicyMethodView>, n: int) -> Seq<u8>
    decreases n,
{
    if n <= 0 {
        Seq::<u8>::empty()
    } else {
        methods_preimage(methods, n - 1) + utf8(method_json(methods[n - 1].method))
            + rules_preimage(methods[n - 1].rules, methods[n - 1].rules.len() as int)
    }
}

/// The policy hash input of the first `n` policies: for each policy its id,
/// name and text, then its methods.
pub open spec fn policies_preimage(policies: Seq<PolicyView>, n: int) -> Seq<u8>
    decreases n,
{
    if n <= 0 {
        Seq::<u8>::empty()
    } else {
        policies_preimage(policies, n - 1) + utf8(policies[n - 1].id) + utf8(policies[n - 1].name)
            + utf8(policies[n - 1].text) + methods_preimage(
            policies[n - 1].methods,
            policies[n - 1].methods.len() as int,
        )
    }
}

/// The contents of the first `n` thought steps, as bytes.
pub open spec fn thoughts_preimage(thoughts: Seq<ThoughtStepView>, n: int) -> Seq<u8>
    decreases n,
{
    if n <= 0 {
        Seq::<u8>::empty()
    } else {
        thoughts_preimage(thoughts, n - 1) + utf8(thoughts[n - 1].content)
    }
}

/// The tool names and arguments of the first `n` calls, as bytes.
pub open spec fn calls_preimage(calls: Seq<ToolCallView>, n: int) -> Seq<u8>
    decreases n,
{
    if n <= 0 {
        Seq::<u8>::empty()
    } else {
        calls_preimage(calls, n - 1) + utf8(calls[n - 1].tool_name) + utf8(calls[n - 1].arguments)
    }
}

/// The plan hash input: system prompt, user query, each thought content,
/// then the name and arguments of each intended tool call.
pub open spec fn plan_preimage(plan: AgentPlanView) -> Seq<u8> {
    utf8(plan.system_prompt) + utf8(plan.user_query) + thoughts_preimage(
        plan.thought_process,
        plan.thought_process.len() as int,
    ) + calls_preimage(plan.intended_tool_calls, plan.intended_tool_calls.len() as int)
}

/// The canonical text of a method kind.
pub fn method_to_json(method: ComplianceMethod) -> (text: &'static str)
    ensures
        text@ == method_json(method),
{
    match method {
        ComplianceMethod::Deterministic => "\"Deterministic\"",
        ComplianceMethod::LLMBased => "\"LLMBased\"",
    }
}

/// The canonical text of a rule type.
pub fn rule_to_json(rule: &PolicyRuleType) -> (text: String)
    ensures
        text@ == rule_json(rule.deep_view()),
{
    match rule {
        PolicyRuleType::ProhibitedKeywords { keywords } => {
            let mut text = "{\"type\":\"ProhibitedKeywords\",\"keywords\":".to_owned();
            push_string_array(&mut text, keywords);
            text.append("}");
            text
        },
        PolicyRuleType::RequiredAbsentPatterns { patterns } => {
            let mut text = "{\"type\":\"RequiredAbsentPatterns\",\"patterns\":".to_owned();
            push_string_array(&mut text, patterns);
            text.append("}");
            text
        },
        PolicyRuleType::OutputRestriction { max_raw_items, require_aggregation } => {
            let mut text = "{\"type\":\"OutputRestriction\",\"max_raw_items\":".to_owned();
            match max_raw_items {
                Some(n) => {
                    let digits = decimal_string(*n);
                    text.append(digits.as_str());
                },
                None => {
                    text.append("null");
                },
            }
            text.append(",\"require_aggregation\":");
            push_bool(&mut text, *require_aggregation);
            text.append("}");
            text
        },
        PolicyRuleType::NoIdentityInference { prohibited_terms } => {
            let mut text = "{\"type\":\"NoIdentityInference\",\"prohibited_terms\":".to_owned();
            push_string_array(&mut text, prohibited_terms);
            text.append("}");
            text
        },
        PolicyRuleType::RequireAttribution { require_source, require_timestamp } => {
            let mut text = "{\"type\":\"RequireAttribution\",\"require_source\":".to_owned();
            push_bool(&mut text, *require_source);
            text.append(",\"require_timestamp\":");
            push_bool(&mut text, *require_timestamp);
            text.append("}");
            text
        },
        PolicyRuleType::LLMCompliance { check_prompt } => {
            let mut text = "{\"type\":\"LLMCompliance\",\"check_prompt\":".to_owned();
            let literal = quote(check_prompt.as_str());
            text.append(literal.as_str());
            text.append("}");
            text
        },
    }
}

/// Appends the hash input of `rules` to `buf`.
fn absorb_rules(buf: &mut Vec<u8>, rules: &Vec<PolicyRule>)
    ensures
        final(buf)@ == old(buf)@ + rules_preimage(rules.deep_view(), rules.len() as int),
{
    let ghost start = buf@;
    let ghost views = rules.deep_view();
    let mut i: usize = 0;
    assert(buf@ =~= start + rules_preimage(views, 0));
    while i < rules.len()
        invariant
            i <= rules.len(),
            views == rules.deep_view(),
            buf@ == start + rules_preimage(views, i as int),
        decreases rules.len() - i,
    {
        assert(views[i as int] == rules[i as int].deep_view());
        absorb_str(buf, rules[i].id.as_str());
        let text = rule_to_json(&rules[i].rule_type);
        absorb_str(buf, text.as_str());
        i += 1;
        assert(buf@ =~= start + rules_preimage(views, i as int));
    }
}

/// Appends the hash input of `methods` to `buf`.
fn absorb_methods(buf: &mut Vec<u8>, methods: &Vec<PolicyMethod>)
    ensures
        final(buf)@ == old(buf)@ + methods_preimage(methods.deep_view(), methods.len() as int),
{
    let ghost start = buf@;
    let ghost views = methods.deep_view();
    let mut i: usize = 0;
    assert(buf@ =~= start + methods_preimage(views, 0));
    while i < methods.len()
        invariant
            i <= methods.len(),
            views == methods.deep_view(),
            buf@ == start + methods_preimage(views, i as int),
        decreases methods.len() - i,
    {
        assert(views[i as int] == methods[i as int].deep_view());
        absorb_str(buf, method_to_json(methods[i].method));
        absorb_rules(buf, &methods[i].rules);
        i += 1;
        assert(buf@ =~= start + methods_preimage(views, i as int));
    }
}

/// The policy hash input of `policies`.
pub fn policies_bytes(policies: &Vec<Policy>) -> (bytes: Vec<u8>)
    ensures
        bytes@ == policies_preimage(policies.deep_view(), policies.len() as int),
{
    let mut buf: Vec<u8> = Vec::new();
    let ghost views = policies.deep_view();
    let mut i: usize = 0;
    assert(buf@ =~= policies_preimage(views, 0));
    while i < policies.len()
        invariant
            i <= policies.len(),
            views == policies.deep_view(),
            buf@ == policies_preimage(views, i as int),
        decreases policies.len() - i,
    {
        assert(views[i as int] == policies[i as int].deep_view());
        let ghost before = buf@;
        absorb_str(&mut buf, policies[i].id.as_str());
        absorb_str(&mut buf, policies[i].name.as_str());
        absorb_str(&mut buf, policies[i].text.as_str());
        absorb_methods(&mut buf, &policies[i].methods);
        i += 1;
        assert(buf@ =~= policies_preimage(views, i as int));
    }
    buf
}

/// Appends the contents of `thoughts` to `buf`.
pub fn absorb_thoughts(buf: &mut Vec<u8>, thoughts: &Vec<ThoughtStep>)
    ensures
        final(buf)@ == old(buf)@ + thoughts_preimage(thoughts.deep_view(), thoughts.len() as int),
{
    let ghost start = buf@;
    let ghost views = thoughts.deep_view();
    let mut i: usize = 0;
    assert(buf@ =~= start + thoughts_preimage(views, 0));
    while i < thoughts.len()
        invariant
            i <= thoughts.len(),
            views == thoughts.deep_view(),
            buf@ == start + thoughts_preimage(views, i as int),
        decreases thoughts.len() - i,
    {
        assert(views[i as int] == thoughts[i as int].deep_view());
        absorb_str(buf, thoughts[i].content.as_str());
        i += 1;
        assert(buf@ =~= start + thoughts_preimage(views, i as int));
    }
}

/// The plan hash input of `plan`.
pub fn plan_bytes(plan: &AgentPlan) -> (bytes: Vec<u8>)
    ensures
        bytes@ == plan_preimage(plan.deep_view()),
{
    let mut buf: Vec<u8> = Vec::new();
    absorb_str(&mut buf, plan.system_prompt.as_str());
    absorb_str(&mut buf, plan.user_query.as_str());
    absorb_thoughts(&mut buf, &plan.thought_process);
    let ghost start = buf@;
    let ghost views = plan.intended_tool_calls.deep_view();
    let calls = &plan.intended_tool_calls;
    let mut i: usize = 0;
    assert(buf@ =~= start + calls_preimage(views, 0));
    while i < calls.len()
        invariant
            i <= calls.len(),
            views == calls.deep_view(),
            buf@ == start + calls_preimage(views, i as int),
        decreases calls.len() - i,
    {
        assert(views[i as int] == calls[i as int].deep_view());
        absorb_str(&mut buf, calls[i].tool_name.as_str());
        absorb_str(&mut buf, calls[i].arguments.as_str());
        i += 1;
        assert(buf@ =~= start + calls_preimage(views, i as int));
    }
    assert(buf@ =~= plan_preimage(plan.deep_view()));
    buf
}

} // verus!
