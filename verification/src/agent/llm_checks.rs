//! Compliance checks that ask the language model.

use vstd::prelude::*;
use vstd::string::StringExecFns;
use crate::agent::compliance::{
    check_rules, find_policy, methods_violation, missing_policy_reason, one_call_plan,
    plan_context, position_of_policy, rules_violation, tool_context, tool_failure, tool_reason,
    ComplianceChecker, ComplianceMethod, LLMComplianceResult, Policy, PolicyRule, PolicyRuleType,
    PolicyRuleView, PolicyView, RuleSpec, Violation,
};
use crate::agent::chat::{ChatRequest, ChatRequestView, MODEL};
use crate::agent::types::AgentPlan;
use crate::text::{chars_of, string_of, trim_bounds, trimmed};

verus! {

/// How a request to the language model for a compliance verdict ended.
#[derive(Debug)]
pub enum LlmReply {
    /// The request could not be sent; the text says why
    CallFailed(String),
    /// The service answered with an error status; the text is its body
    ApiError(String),
    /// The answer of the service was no JSON; the text says why
    ResponseUnreadable(String),
    /// The answer of the service held no message content
    InvalidFormat,
    /// The message content was no verdict; `error` says why, `response` is
    /// the content
    Unparsed { error: String, response: String },
    /// The verdict of the model
    Verdict(LLMComplianceResult),
}

/// What an `LlmReply` holds.
pub enum LlmReplyView {
    CallFailed(Seq<char>),
    ApiError(Seq<char>),
    ResponseUnreadable(Seq<char>),
    InvalidFormat,
    Unparsed { error: Seq<char>, response: Seq<char> },
    Verdict { compliant: bool, explanation: Seq<char> },
}

impl DeepView for LlmReply {
    type V = LlmReplyView;

    open spec fn deep_view(&self) -> LlmReplyView {
        match *self {
            LlmReply::CallFailed(e) => LlmReplyView::CallFailed(e@),
            LlmReply::ApiError(e) => LlmReplyView::ApiError(e@),
            LlmReply::ResponseUnreadable(e) => LlmReplyView::ResponseUnreadable(e@),
            LlmReply::InvalidFormat => LlmReplyView::InvalidFormat,
            LlmReply::Unparsed { error, response } => LlmReplyView::Unparsed {
                error: error@,
                response: response@,
            },
            LlmReply::Verdict(v) => LlmReplyView::Verdict {
                compliant: v.compliant,
                explanation: v.explanation@,
            },
        }
    }
}

/// Why a reply fails the check, if it does: every reply but a verdict of
/// compliance fails it.
pub open spec fn reply_failure(reply: LlmReplyView) -> Option<Seq<char>> {
    match reply {
        LlmReplyView::CallFailed(e) => Some("Failed to call OpenAI API: "@ + e),
        LlmReplyView::ApiError(e) => Some("OpenAI API error: "@ + e),
        LlmReplyView::ResponseUnreadable(e) => Some("Failed to parse OpenAI response: "@ + e),
        LlmReplyView::InvalidFormat => Some("Invalid OpenAI response format"@),
        LlmReplyView::Unparsed { error, response } => Some(
            "Failed to parse LLM compliance result: "@ + error + ". Response: "@ + trimmed(response),
        ),
        LlmReplyView::Verdict { compliant, explanation } => if compliant {
            None
        } else {
            Some("LLM compliance check failed: "@ + explanation)
        },
    }
}

/// Judges the reply to a compliance request.
pub fn evaluate_reply(reply: &LlmReply) -> (r: Result<(), String>)
    ensures
        match r {
            Ok(_) => reply_failure(reply.deep_view()) is None,
            Err(e) => reply_failure(reply.deep_view()) == Some(e@),
        },
{
    match reply {
        LlmReply::CallFailed(e) => {
            let mut reason = "Failed to call OpenAI API: ".to_owned();
            reason.append(e.as_str());
            Err(reason)
        },
        LlmReply::ApiError(e) => {
            let mut reason = "OpenAI API error: ".to_owned();
            reason.append(e.as_str());
            Err(reason)
        },
        LlmReply::ResponseUnreadable(e) => {
            let mut reason = "Failed to parse OpenAI response: ".to_owned();
            reason.append(e.as_str());
            Err(reason)
        },
        LlmReply::InvalidFormat => Err("Invalid OpenAI response format".to_owned()),
        LlmReply::Unparsed { error, response } => {
            let chars = chars_of(response.as_str());
            let (start, end) = trim_bounds(&chars, 0, chars.len());
            assert(chars@.subrange(0, chars.len() as int) =~= chars@);
            let shown = string_of(response.as_str(), &chars, start, end);
            let mut reason = "Failed to parse LLM compliance result: ".to_owned();
            reason.append(error.as_str());
            reason.append(". Response: ");
            reason.append(shown.as_str());
            Err(reason)
        },
        LlmReply::Verdict(verdict) => {
            if verdict.is_compliant() {
                Ok(())
            } else {
                let mut reason = "LLM compliance check failed: ".to_owned();
                reason.append(verdict.explanation.as_str());
                Err(reason)
            }
        },
    }
}

/// The system message of a compliance request.
pub const COMPLIANCE_SYSTEM_PROMPT: &'static str =
    "You are a compliance checker that examines whether the tool use of the LLM agent complies with the policy set by the tool owner. Respond with a JSON object containing 'compliant' (boolean) and 'explanation' (string).";

/// Upper bound on the tokens of a compliance verdict.
pub const COMPLIANCE_MAX_TOKENS: u32 = 150;

/// The temperature of a compliance request, as float bits: zero.
pub const COMPLIANCE_TEMPERATURE_BITS: u32 = 0;

/// The compliance request that carries `prompt`: the fixed system message,
/// temperature zero, at most 150 tokens, and a JSON object for an answer.
pub open spec fn compliance_request(prompt: Seq<char>) -> ChatRequestView {
    ChatRequestView {
        model: MODEL@,
        system_prompt: Some(COMPLIANCE_SYSTEM_PROMPT@),
        user_prompt: prompt,
        temperature_bits: COMPLIANCE_TEMPERATURE_BITS,
        max_tokens: COMPLIANCE_MAX_TOKENS,
        json_object: true,
    }
}

/// The compliance request that carries `prompt`.
pub fn build_compliance_request(prompt: String) -> (request: ChatRequest)
    ensures
        request.deep_view() == compliance_request(prompt@),
{
    ChatRequest {
        model: MODEL.to_owned(),
        system_prompt: Some(COMPLIANCE_SYSTEM_PROMPT.to_owned()),
        user_prompt: prompt,
        temperature_bits: COMPLIANCE_TEMPERATURE_BITS,
        max_tokens: COMPLIANCE_MAX_TOKENS,
        json_object: true,
    }
}

/// The user message of a compliance request: the policy text, the question
/// of the rule, the tool call in question, and the form of the answer.
pub open spec fn llm_prompt(
    policy_text: Seq<char>,
    check_prompt: Seq<char>,
    tool_name: Seq<char>,
    user_query: Seq<char>,
    tool_arguments: Seq<char>,
) -> Seq<char> {
    "Policy: "@ + policy_text + "\n\n"@ + check_prompt + "\n\nContext:\nTool: "@ + tool_name
        + "\nUser Query: "@ + user_query + "\nTool Arguments: "@ + tool_arguments
        + "\n\nPlease respond in JSON format with two fields:\n1. \"compliant\": true or false\n2. \"explanation\": a brief explanation of your decision\n\nExample: {\"compliant\": true, \"explanation\": \"The query does not violate the policy because...\"}"@
}

/// Builds the user message of a compliance request.
pub fn build_llm_prompt(
    policy_text: &str,
    check_prompt: &str,
    tool_name: &str,
    user_query: &str,
    tool_arguments: &str,
) -> (prompt: String)
    ensures
        prompt@ == llm_prompt(
            policy_text@,
            check_prompt@,
            tool_name@,
            user_query@,
            tool_arguments@,
        ),
{
    let mut prompt = "Policy: ".to_owned();
    prompt.append(policy_text);
    prompt.append("\n\n");
    prompt.append(check_prompt);
    prompt.append("\n\nContext:\nTool: ");
    prompt.append(tool_name);
    prompt.append("\nUser Query: ");
    prompt.append(user_query);
    prompt.append("\nTool Arguments: ");
    prompt.append(tool_arguments);
    prompt.append(
        "\n\nPlease respond in JSON format with two fields:\n1. \"compliant\": true or false\n2. \"explanation\": a brief explanation of your decision\n\nExample: {\"compliant\": true, \"explanation\": \"The query does not violate the policy because...\"}",
    );
    prompt
}

/// One step of the checks of a tool call that is left once the
/// deterministic rules that pass are gone.
#[derive(Debug)]
pub enum CheckStep {
    /// The checks end here in failure, with this reason
    Failed(String),
    /// The language model is to be asked; where its reply fails the check,
    /// the reason is the reply's failure behind `failure_prefix`
    AskLlm { prompt: String, failure_prefix: String },
}

/// What a `CheckStep` holds.
pub enum CheckStepView {
    Failed(Seq<char>),
    AskLlm { prompt: Seq<char>, failure_prefix: Seq<char> },
}

impl DeepView for CheckStep {
    type V = CheckStepView;

    open spec fn deep_view(&self) -> CheckStepView {
        match *self {
            CheckStep::Failed(reason) => CheckStepView::Failed(reason@),
            CheckStep::AskLlm { prompt, failure_prefix } => CheckStepView::AskLlm {
                prompt: prompt@,
                failure_prefix: failure_prefix@,
            },
        }
    }
}

/// What stands before the failure of a reply in the reason of a refusal.
pub open spec fn llm_failure_prefix(
    tool_name: Seq<char>,
    policy_id: Seq<char>,
    policy_name: Seq<char>,
    rule_id: Seq<char>,
) -> Seq<char> {
    "Tool '"@ + tool_name + "' policy '"@ + policy_id + "' ("@ + policy_name + ") LLM rule '"@
        + rule_id + "' violated: "@
}

/// The tool call that checks are made for.
pub struct CallView {
    pub tool_name: Seq<char>,
    pub user_query: Seq<char>,
    pub arguments: Seq<char>,
}

/// The requests that the first `n` rules of a method of the language model
/// give rise to: one for each rule that holds a question.
pub open spec fn llm_rule_steps(
    policy: PolicyView,
    rules: Seq<PolicyRuleView>,
    call: CallView,
    n: int,
) -> Seq<CheckStepView>
    decreases n,
{
    if n <= 0 {
        Seq::empty()
    } else {
        let earlier = llm_rule_steps(policy, rules, call, n - 1);
        match rules[n - 1].rule_type {
            RuleSpec::LLMCompliance { check_prompt } => earlier.push(
                CheckStepView::AskLlm {
                    prompt: llm_prompt(
                        policy.text,
                        check_prompt,
                        call.tool_name,
                        call.user_query,
                        call.arguments,
                    ),
                    failure_prefix: llm_failure_prefix(
                        call.tool_name,
                        policy.id,
                        policy.name,
                        rules[n - 1].id,
                    ),
                },
            ),
            _ => earlier,
        }
    }
}

/// The steps of the methods of one policy from `from` on, and whether they
/// end in failure: a deterministic method whose rule complains ends them; a
/// method of the language model adds its requests where the model is used.
pub open spec fn method_steps(
    policy: PolicyView,
    call: CallView,
    use_llm: bool,
    from: int,
) -> (Seq<CheckStepView>, bool)
    decreases policy.methods.len() - from,
{
    if from < 0 || from >= policy.methods.len() {
        (Seq::empty(), false)
    } else {
        let method = policy.methods[from];
        match method.method {
            ComplianceMethod::Deterministic => match rules_violation(
                method.rules,
                tool_context(call.user_query, call.arguments),
                0,
            ) {
                Some(hit) => (
                    seq![
                        CheckStepView::Failed(
                            tool_reason(
                                call.tool_name,
                                Violation {
                                    policy_id: policy.id,
                                    policy_name: policy.name,
                                    rule_id: hit.rule_id,
                                    detail: hit.detail,
                                },
                            ),
                        ),
                    ],
                    true,
                ),
                None => method_steps(policy, call, use_llm, from + 1),
            },
            ComplianceMethod::LLMBased => {
                let own = if use_llm {
                    llm_rule_steps(policy, method.rules, call, method.rules.len() as int)
                } else {
                    Seq::empty()
                };
                let rest = method_steps(policy, call, use_llm, from + 1);
                (own + rest.0, rest.1)
            },
        }
    }
}

/// The steps of the policies that `ids[from..]` name, in order: an id that
/// names no policy ends them in failure, and so does a policy whose steps
/// end in failure.
pub open spec fn check_steps(
    policies: Seq<PolicyView>,
    ids: Seq<Seq<char>>,
    call: CallView,
    use_llm: bool,
    from: int,
) -> Seq<CheckStepView>
    decreases ids.len() - from,
{
    if from < 0 || from >= ids.len() {
        Seq::empty()
    } else {
        match find_policy(policies, ids[from], 0) {
            None => seq![CheckStepView::Failed(missing_policy_reason(ids[from], call.tool_name))],
            Some(p) => {
                let own = method_steps(policies[p], call, use_llm, 0);
                if own.1 {
                    own.0
                } else {
                    own.0 + check_steps(policies, ids, call, use_llm, from + 1)
                }
            },
        }
    }
}

/// Without the language model, the methods of a policy leave no step where
/// no deterministic rule complains, and else the one failure of the first
/// complaint.
pub proof fn lemma_method_steps_without_llm(policy: PolicyView, call: CallView, from: int)
    requires
        0 <= from,
    ensures
        match methods_violation(
            policy.methods,
            tool_context(call.user_query, call.arguments),
            from,
        ) {
            None => method_steps(policy, call, false, from) == (
                Seq::<CheckStepView>::empty(),
                false,
            ),
            Some(hit) => method_steps(policy, call, false, from) == (
                seq![
                    CheckStepView::Failed(
                        tool_reason(
                            call.tool_name,
                            Violation {
                                policy_id: policy.id,
                                policy_name: policy.name,
                                rule_id: hit.rule_id,
                                detail: hit.detail,
                            },
                        ),
                    ),
                ],
                true,
            ),
        },
    decreases policy.methods.len() - from,
{
    if from < policy.methods.len() {
        lemma_method_steps_without_llm(policy, call, from + 1);
        let rest = method_steps(policy, call, false, from + 1);
        assert(Seq::<CheckStepView>::empty() + rest.0 =~= rest.0);
    }
}

/// Without the language model, the steps of a tool call are the
/// deterministic check: none where the call passes, and else the one
/// failure with the reason of `tool_failure`.
pub proof fn lemma_steps_without_llm(
    policies: Seq<PolicyView>,
    ids: Seq<Seq<char>>,
    call: CallView,
    from: int,
)
    requires
        0 <= from,
    ensures
        match tool_failure(
            policies,
            ids,
            call.tool_name,
            tool_context(call.user_query, call.arguments),
            from,
        ) {
            None => check_steps(policies, ids, call, false, from) == Seq::<CheckStepView>::empty(),
            Some(reason) => check_steps(policies, ids, call, false, from) == seq![
                CheckStepView::Failed(reason),
            ],
        },
    decreases ids.len() - from,
{
    if from < ids.len() {
        lemma_steps_without_llm(policies, ids, call, from + 1);
        match find_policy(policies, ids[from], 0) {
            None => {},
            Some(p) => {
                lemma_method_steps_without_llm(policies[p], call, 0);
                let rest = check_steps(policies, ids, call, false, from + 1);
                assert(Seq::<CheckStepView>::empty() + rest =~= rest);
            },
        }
    }
}

/// Appends the requests of the rules of one method of the language model.
fn push_llm_rule_steps(
    steps: &mut Vec<CheckStep>,
    policy: &Policy,
    rules: &Vec<PolicyRule>,
    tool_name: &str,
    user_query: &str,
    tool_arguments: &str,
)
    ensures
        final(steps).deep_view() == old(steps).deep_view() + llm_rule_steps(
            policy.deep_view(),
            rules.deep_view(),
            CallView { tool_name: tool_name@, user_query: user_query@, arguments: tool_arguments@ },
            rules.len() as int,
        ),
{
    let ghost start = steps.deep_view();
    let ghost call = CallView {
        tool_name: tool_name@,
        user_query: user_query@,
        arguments: tool_arguments@,
    };
    let ghost views = rules.deep_view();
    let mut i: usize = 0;
    assert(steps.deep_view() =~= start + llm_rule_steps(policy.deep_view(), views, call, 0));
    while i < rules.len()
        invariant
            i <= rules.len(),
            views == rules.deep_view(),
            call == (CallView {
                tool_name: tool_name@,
                user_query: user_query@,
                arguments: tool_arguments@,
            }),
            steps.deep_view() == start + llm_rule_steps(policy.deep_view(), views, call, i as int),
        decreases rules.len() - i,
    {
        assert(views[i as int] == rules[i as int].deep_view());
        let ghost before = steps.deep_view();
        if let PolicyRuleType::LLMCompliance { check_prompt } = &rules[i].rule_type {
            let prompt = build_llm_prompt(
                policy.text.as_str(),
                check_prompt.as_str(),
                tool_name,
                user_query,
                tool_arguments,
            );
            let mut failure_prefix = "Tool '".to_owned();
            failure_prefix.append(tool_name);
            failure_prefix.append("' policy '");
            failure_prefix.append(policy.id.as_str());
            failure_prefix.append("' (");
            failure_prefix.append(policy.name.as_str());
            failure_prefix.append(") LLM rule '");
            failure_prefix.append(rules[i].id.as_str());
            failure_prefix.append("' violated: ");
            let step = CheckStep::AskLlm { prompt, failure_prefix };
            steps.push(step);
            assert(steps.deep_view() =~= before.push(step.deep_view()));
        }
        i += 1;
        assert(steps.deep_view() =~= start + llm_rule_steps(
            policy.deep_view(),
            views,
            call,
            i as int,
        ));
    }
}

/// Appends the steps of the methods of one policy; says whether they end in
/// failure.
fn push_method_steps(
    steps: &mut Vec<CheckStep>,
    policy: &Policy,
    plan: &AgentPlan,
    tool_name: &str,
    user_query: &str,
    tool_arguments: &str,
    use_llm: bool,
) -> (failed: bool)
    requires
        plan_context(plan.deep_view(), None) == tool_context(user_query@, tool_arguments@),
    ensures
        final(steps).deep_view() == old(steps).deep_view() + method_steps(
            policy.deep_view(),
            CallView { tool_name: tool_name@, user_query: user_query@, arguments: tool_arguments@ },
            use_llm,
            0,
        ).0,
        failed == method_steps(
            policy.deep_view(),
            CallView { tool_name: tool_name@, user_query: user_query@, arguments: tool_arguments@ },
            use_llm,
            0,
        ).1,
{
    let ghost start = steps.deep_view();
    let ghost call = CallView {
        tool_name: tool_name@,
        user_query: user_query@,
        arguments: tool_arguments@,
    };
    let ghost pv = policy.deep_view();
    let ghost mut prefix: Seq<CheckStepView> = Seq::empty();
    let mut i: usize = 0;
    assert(steps.deep_view() =~= start + prefix);
    while i < policy.methods.len()
        invariant
            i <= policy.methods.len(),
            pv == policy.deep_view(),
            call == (CallView {
                tool_name: tool_name@,
                user_query: user_query@,
                arguments: tool_arguments@,
            }),
            plan_context(plan.deep_view(), None) == tool_context(user_query@, tool_arguments@),
            start == old(steps).deep_view(),
            steps.deep_view() == start + prefix,
            method_steps(pv, call, use_llm, 0).0 == prefix + method_steps(
                pv,
                call,
                use_llm,
                i as int,
            ).0,
            method_steps(pv, call, use_llm, 0).1 == method_steps(pv, call, use_llm, i as int).1,
        decreases policy.methods.len() - i,
    {
        let method = &policy.methods[i];
        assert(pv.methods[i as int] == method.deep_view());
        match method.method {
            ComplianceMethod::Deterministic => {
                if let Some((rule_id, detail)) = check_rules(&method.rules, plan) {
                    let mut reason = "Tool '".to_owned();
                    reason.append(tool_name);
                    reason.append("' policy '");
                    reason.append(policy.id.as_str());
                    reason.append("' (");
                    reason.append(policy.name.as_str());
                    reason.append(") rule '");
                    reason.append(rule_id.as_str());
                    reason.append("' violated: ");
                    reason.append(detail.as_str());
                    let step = CheckStep::Failed(reason);
                    let ghost before = steps.deep_view();
                    assert(method_steps(pv, call, use_llm, i as int) == (
                        seq![step.deep_view()],
                        true,
                    ));
                    steps.push(step);
                    assert(steps.deep_view() =~= before.push(step.deep_view()));
                    assert(steps.deep_view() =~= start + (prefix + seq![step.deep_view()]));
                    return true;
                }
            },
            ComplianceMethod::LLMBased => {
                if use_llm {
                    push_llm_rule_steps(
                        steps,
                        policy,
                        &method.rules,
                        tool_name,
                        user_query,
                        tool_arguments,
                    );
                }
                proof {
                    let own = if use_llm {
                        llm_rule_steps(
                            pv,
                            method.deep_view().rules,
                            call,
                            method.rules.len() as int,
                        )
                    } else {
                        Seq::empty()
                    };
                    let rest = method_steps(pv, call, use_llm, i + 1);
                    assert(prefix + (own + rest.0) =~= (prefix + own) + rest.0);
                    assert(steps.deep_view() =~= start + (prefix + own));
                    prefix = prefix + own;
                }
            },
        }
        i += 1;
    }
    assert(steps.deep_view() =~= start + method_steps(pv, call, use_llm, 0).0);
    false
}

/// The steps that are left of the checks of one tool call once the
/// deterministic rules that pass are gone: the requests to the language
/// model in the order of the policies of the tool, their methods and their
/// rules, up to the first deterministic failure, which ends them. Without
/// the language model, the steps are the deterministic gate.
pub fn plan_checks(
    checker: &ComplianceChecker,
    tool_name: &str,
    user_query: &str,
    tool_arguments: &str,
    use_llm: bool,
) -> (steps: Vec<CheckStep>)
    ensures
        steps.deep_view() == check_steps(
            checker.spec_policies(),
            checker.spec_policy_ids(tool_name@),
            CallView { tool_name: tool_name@, user_query: user_query@, arguments: tool_arguments@ },
            use_llm,
            0,
        ),
{
    let policy_ids = checker.get_policy_ids_for_tool(tool_name);
    let policies = checker.policies();
    let plan = one_call_plan(tool_name, user_query, tool_arguments);
    let ghost ids = policy_ids.deep_view();
    let ghost views = policies.deep_view();
    let ghost call = CallView {
        tool_name: tool_name@,
        user_query: user_query@,
        arguments: tool_arguments@,
    };
    let mut steps: Vec<CheckStep> = Vec::new();
    let mut i: usize = 0;
    assert(steps.deep_view() =~= Seq::<CheckStepView>::empty());
    while i < policy_ids.len()
        invariant
            i <= policy_ids.len(),
            ids == policy_ids.deep_view(),
            ids == checker.spec_policy_ids(tool_name@),
            views == policies.deep_view(),
            views == checker.spec_policies(),
            call == (CallView {
                tool_name: tool_name@,
                user_query: user_query@,
                arguments: tool_arguments@,
            }),
            plan_context(plan.deep_view(), None) == tool_context(user_query@, tool_arguments@),
            check_steps(views, ids, call, use_llm, 0) == steps.deep_view() + check_steps(
                views,
                ids,
                call,
                use_llm,
                i as int,
            ),
        decreases policy_ids.len() - i,
    {
        let policy_id = policy_ids[i].as_str();
        assert(ids[i as int] == policy_id@);
        let ghost before = steps.deep_view();
        match position_of_policy(policies, policy_id) {
            None => {
                let mut reason = "Policy '".to_owned();
                reason.append(policy_id);
                reason.append("' not found for tool '");
                reason.append(tool_name);
                reason.append("'");
                let step = CheckStep::Failed(reason);
                steps.push(step);
                assert(steps.deep_view() =~= before.push(step.deep_view()));
                assert(steps.deep_view() =~= before + seq![step.deep_view()]);
                return steps;
            },
            Some(p) => {
                let policy = &policies[p];
                assert(views[p as int] == policy.deep_view());
                let failed = push_method_steps(
                    &mut steps,
                    policy,
                    &plan,
                    tool_name,
                    user_query,
                    tool_arguments,
                    use_llm,
                );
                if failed {
                    return steps;
                }
                proof {
                    let own = method_steps(views[p as int], call, use_llm, 0).0;
                    let rest = check_steps(views, ids, call, use_llm, i + 1);
                    assert(before + (own + rest) =~= (before + own) + rest);
                }
            },
        }
        i += 1;
    }
    assert(steps.deep_view() + Seq::<CheckStepView>::empty() =~= steps.deep_view());
    steps
}

impl ComplianceChecker {
    /// Check compliance for a specific tool call against its policies, with
    /// the language model where `use_llm` is set: lays out what is left to
    /// do. See `plan_checks`.
    pub fn check_tool_compliance_async(
        &self,
        tool_name: &str,
        user_query: &str,
        tool_arguments: &str,
        use_llm: bool,
    ) -> (steps: Vec<CheckStep>)
        ensures
            steps.deep_view() == check_steps(
                self.spec_policies(),
                self.spec_policy_ids(tool_name@),
                CallView {
                    tool_name: tool_name@,
                    user_query: user_query@,
                    arguments: tool_arguments@,
                },
                use_llm,
                0,
            ),
    {
        plan_checks(self, tool_name, user_query, tool_arguments, use_llm)
    }
}

} // verus!
