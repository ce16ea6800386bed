//! The run behind a plan: per-call decisions, execution, and the answer request.

use vstd::prelude::*;
use vstd::string::StringExecFns;
use crate::agent::chat::{text_request, ChatRequest};
use crate::agent::compliance::{
    clone_strings, find_policy, position_of_policy, ComplianceChecker, Policy, PolicyView,
};
use crate::agent::crypto_agent::CryptoAgent;
use crate::agent::llm_checks::{
    build_compliance_request, check_steps, compliance_request, evaluate_reply, plan_checks,
    reply_failure, CallView, CheckStep, CheckStepView, LlmReply,
};
use crate::agent::quote_utils::{compliance_digest, compliance_report, generate_compliance_quote};
use crate::agent::tools::{find_tool, Tool};
use crate::agent::types::{
    clone_calls, AgentExecution, AgentPlan, AgentPlanView, ToolCall, ToolCallView, ToolResult,
    ToolResultView, Uuid,
};
use crate::attest::types::RawReport;
use crate::text::{chars_of, contains_chars, decimal, decimal_string, is_substring, str_eq};
use crate::utils::attest::report_of_digest;

verus! {

/// A tool call that was refused, with the reason.
#[derive(Debug)]
pub struct RejectedCall {
    pub call: ToolCall,
    pub reason: String,
}

/// What a `RejectedCall` holds.
pub struct RejectedCallView {
    pub call: ToolCallView,
    pub reason: Seq<char>,
}

impl DeepView for RejectedCall {
    type V = RejectedCallView;

    open spec fn deep_view(&self) -> RejectedCallView {
        RejectedCallView { call: self.call.deep_view(), reason: self.reason@ }
    }
}

/// The policies that applied to an approved tool, as texts.
#[derive(Debug)]
pub struct ApprovedPolicies {
    pub tool_name: String,
    pub policy_texts: Vec<String>,
}

/// What an `ApprovedPolicies` holds.
pub struct ApprovedPoliciesView {
    pub tool_name: Seq<char>,
    pub policy_texts: Seq<Seq<char>>,
}

impl DeepView for ApprovedPolicies {
    type V = ApprovedPoliciesView;

    open spec fn deep_view(&self) -> ApprovedPoliciesView {
        ApprovedPoliciesView {
            tool_name: self.tool_name@,
            policy_texts: self.policy_texts.deep_view(),
        }
    }
}

/// The text of a policy as the answer request lists it.
pub open spec fn policy_text(policy: PolicyView) -> Seq<char> {
    policy.id + " ("@ + policy.name + "): "@ + policy.text
}

/// The texts of the policies that the first `n` of `ids` name, in order; an
/// id that names no policy is passed over.
pub open spec fn policy_texts(policies: Seq<PolicyView>, ids: Seq<Seq<char>>, n: int) -> Seq<
    Seq<char>,
>
    decreases n,
{
    if n <= 0 {
        Seq::empty()
    } else {
        let earlier = policy_texts(policies, ids, n - 1);
        match find_policy(policies, ids[n - 1], 0) {
            Some(p) => earlier.push(policy_text(policies[p])),
            None => earlier,
        }
    }
}

/// The texts of the policies that `ids` name.
pub fn collect_policy_texts(policies: &Vec<Policy>, ids: &Vec<String>) -> (texts: Vec<String>)
    ensures
        texts.deep_view() == policy_texts(
            policies.deep_view(),
            ids.deep_view(),
            ids.len() as int,
        ),
{
    let ghost pv = policies.deep_view();
    let ghost iv = ids.deep_view();
    let mut texts: Vec<String> = Vec::new();
    let mut i: usize = 0;
    assert(texts.deep_view() =~= policy_texts(pv, iv, 0));
    while i < ids.len()
        invariant
            i <= ids.len(),
            pv == policies.deep_view(),
            iv == ids.deep_view(),
            texts.deep_view() == policy_texts(pv, iv, i as int),
        decreases ids.len() - i,
    {
        assert(iv[i as int] == ids[i as int]@);
        let ghost before = texts.deep_view();
        if let Some(p) = position_of_policy(policies, ids[i].as_str()) {
            let policy = &policies[p];
            assert(pv[p as int] == policy.deep_view());
            let mut text = policy.id.clone();
            text.append(" (");
            text.append(policy.name.as_str());
            text.append("): ");
            text.append(policy.text.as_str());
            texts.push(text);
            assert(texts.deep_view() =~= before.push(text@));
        }
        i += 1;
    }
    texts
}

/// The first position at or after `from` of the entry of `tool_name`.
pub open spec fn find_approved(
    entries: Seq<ApprovedPoliciesView>,
    tool_name: Seq<char>,
    from: int,
) -> Option<int>
    decreases entries.len() - from,
{
    if from < 0 || from >= entries.len() {
        None
    } else if entries[from].tool_name == tool_name {
        Some(from)
    } else {
        find_approved(entries, tool_name, from + 1)
    }
}

/// The entries once the policies of a tool are recorded: in place of the
/// entry of that tool where there is one, and else at the end.
pub open spec fn record_policies(
    entries: Seq<ApprovedPoliciesView>,
    tool_name: Seq<char>,
    texts: Seq<Seq<char>>,
) -> Seq<ApprovedPoliciesView> {
    let entry = ApprovedPoliciesView { tool_name, policy_texts: texts };
    match find_approved(entries, tool_name, 0) {
        Some(i) => entries.update(i, entry),
        None => entries.push(entry),
    }
}

/// Records the policies of an approved tool.
pub fn insert_policies(
    entries: &mut Vec<ApprovedPolicies>,
    tool_name: String,
    policy_texts: Vec<String>,
)
    ensures
        final(entries).deep_view() == record_policies(
            old(entries).deep_view(),
            tool_name@,
            policy_texts.deep_view(),
        ),
{
    let ghost before = entries.deep_view();
    let ghost name = tool_name@;
    let mut i: usize = 0;
    while i < entries.len()
        invariant
            i <= entries.len(),
            before == entries.deep_view(),
            before == old(entries).deep_view(),
            name == tool_name@,
            find_approved(before, name, 0) == find_approved(before, name, i as int),
        decreases entries.len() - i,
    {
        assert(before[i as int] == entries[i as int].deep_view());
        if str_eq(entries[i].tool_name.as_str(), tool_name.as_str()) {
            let entry = ApprovedPolicies { tool_name, policy_texts };
            entries[i] = entry;
            assert(entries.deep_view() =~= before.update(i as int, entry.deep_view()));
            return;
        }
        i += 1;
    }
    let entry = ApprovedPolicies { tool_name, policy_texts };
    entries.push(entry);
    assert(entries.deep_view() =~= before.push(entry.deep_view()));
}

/// The lines of the first `n` policy texts, each behind a dash.
pub open spec fn policy_lines(texts: Seq<Seq<char>>, n: int) -> Seq<char>
    decreases n,
{
    if n <= 0 {
        Seq::<char>::empty()
    } else {
        policy_lines(texts, n - 1) + "  - "@ + texts[n - 1] + "\n"@
    }
}

/// The blocks of the first `n` entries: for each tool with policies a
/// heading and its policy lines.
pub open spec fn policy_blocks(entries: Seq<ApprovedPoliciesView>, n: int) -> Seq<char>
    decreases n,
{
    if n <= 0 {
        Seq::<char>::empty()
    } else if entries[n - 1].policy_texts.len() == 0 {
        policy_blocks(entries, n - 1)
    } else {
        policy_blocks(entries, n - 1) + "\nFor tool '"@ + entries[n - 1].tool_name + "':\n"@
            + policy_lines(entries[n - 1].policy_texts, entries[n - 1].policy_texts.len() as int)
    }
}

/// Some entry among the first `n` has policies.
pub open spec fn any_policies(entries: Seq<ApprovedPoliciesView>, n: int) -> bool {
    exists|i: int| 0 <= i < n && (#[trigger] entries[i]).policy_texts.len() > 0
}

/// The policy context of an answer request: the policies that applied, by
/// approved tool, or the remark that none apply.
pub open spec fn policy_context(entries: Seq<ApprovedPoliciesView>) -> Seq<char> {
    if any_policies(entries, entries.len() as int) {
        "\n\nAPPLICABLE POLICIES (You MUST follow these policies in your response):\n"@
            + policy_blocks(entries, entries.len() as int)
    } else {
        "\n\nNo specific policies apply to the approved tools.\n"@
    }
}

/// The error text of a result, `Unknown error` where it has none.
pub open spec fn error_text(result: ToolResultView) -> Seq<char> {
    match result.error {
        Some(e) => e,
        None => "Unknown error"@,
    }
}

/// The line of the result at position `i`, counted from 0.
pub open spec fn result_line(result: ToolResultView, i: int) -> Seq<char> {
    if result.success {
        decimal((i + 1) as nat) + ". SUCCESS: "@ + result.result + "\n"@
    } else if is_substring("Policy compliance failed"@, error_text(result)) {
        decimal((i + 1) as nat)
            + ". REJECTED (Policy): Tool use was rejected by compliance policy.\n"@
    } else {
        decimal((i + 1) as nat) + ". ERROR: "@ + error_text(result) + "\n"@
    }
}

/// The lines of the first `n` results.
pub open spec fn result_lines(results: Seq<ToolResultView>, n: int) -> Seq<char>
    decreases n,
{
    if n <= 0 {
        Seq::<char>::empty()
    } else {
        result_lines(results, n - 1) + result_line(results[n - 1], n - 1)
    }
}

/// Some result among the first `n` failed.
pub open spec fn any_failed(results: Seq<ToolResultView>, n: int) -> bool {
    exists|i: int| 0 <= i < n && !(#[trigger] results[i]).success
}

/// What an answer request says on refusals.
pub const REJECTION_GUIDANCE: &'static str =
    "\n\nIMPORTANT: Some tool calls were rejected by compliance policies. If critical tools were rejected and you cannot answer the question without them, you MUST respond with 'IMPOSSIBLE: [reason]' explaining why you cannot complete the request. Otherwise, answer based on the available tool results.";

/// What an answer request ends with.
pub const ANSWER_INSTRUCTIONS: &'static str =
    "\n\nBased on the available data, please provide a clear answer to the user's question. CRITICAL: You MUST strictly follow all applicable policies listed above. If you cannot answer due to policy restrictions, say so clearly.";

/// The user message of an answer request: the system prompt, the user
/// question, the policy context, the tool results, the guidance on
/// refusals where a result failed, and the instructions.
pub open spec fn answer_prompt(
    system_prompt: Seq<char>,
    user_query: Seq<char>,
    entries: Seq<ApprovedPoliciesView>,
    results: Seq<ToolResultView>,
) -> Seq<char> {
    system_prompt + "\n\nUser Question: "@ + user_query + "\n\n"@ + policy_context(entries)
        + "\n\nTool Results:\n"@ + result_lines(results, results.len() as int) + (if any_failed(
        results,
        results.len() as int,
    ) {
        REJECTION_GUIDANCE@
    } else {
        Seq::<char>::empty()
    }) + ANSWER_INSTRUCTIONS@
}

/// The policy lines of one approved tool.
fn build_policy_lines(texts: &Vec<String>) -> (lines: String)
    ensures
        lines@ == policy_lines(texts.deep_view(), texts.len() as int),
{
    let ghost views = texts.deep_view();
    let mut lines = String::new();
    let mut i: usize = 0;
    while i < texts.len()
        invariant
            i <= texts.len(),
            views == texts.deep_view(),
            lines@ == policy_lines(views, i as int),
        decreases texts.len() - i,
    {
        assert(views[i as int] == texts[i as int]@);
        lines.append("  - ");
        lines.append(texts[i].as_str());
        lines.append("\n");
        i += 1;
        assert(lines@ =~= policy_lines(views, i as int));
    }
    lines
}

/// The policy context of an answer request.
pub fn build_policy_context(entries: &Vec<ApprovedPolicies>) -> (context: String)
    ensures
        context@ == policy_context(entries.deep_view()),
{
    let ghost views = entries.deep_view();
    let mut blocks = String::new();
    let mut any = false;
    let mut i: usize = 0;
    while i < entries.len()
        invariant
            i <= entries.len(),
            views == entries.deep_view(),
            blocks@ == policy_blocks(views, i as int),
            any == any_policies(views, i as int),
        decreases entries.len() - i,
    {
        assert(views[i as int] == entries[i as int].deep_view());
        if entries[i].policy_texts.len() > 0 {
            blocks.append("\nFor tool '");
            blocks.append(entries[i].tool_name.as_str());
            blocks.append("':\n");
            blocks.append(build_policy_lines(&entries[i].policy_texts).as_str());
            any = true;
        }
        i += 1;
        assert(blocks@ =~= policy_blocks(views, i as int));
    }
    if any {
        let mut context =
            "\n\nAPPLICABLE POLICIES (You MUST follow these policies in your response):\n".to_owned();
        context.append(blocks.as_str());
        context
    } else {
        "\n\nNo specific policies apply to the approved tools.\n".to_owned()
    }
}

/// The line of the result at position `i`.
fn build_result_line(result: &ToolResult, i: usize) -> (line: String)
    requires
        i < usize::MAX,
    ensures
        line@ == result_line(result.deep_view(), i as int),
{
    let mut line = decimal_string(i + 1);
    if result.success {
        line.append(". SUCCESS: ");
        line.append(result.result.as_str());
        line.append("\n");
    } else {
        let error_msg = match &result.error {
            Some(e) => e.as_str(),
            None => "Unknown error",
        };
        let error_chars = chars_of(error_msg);
        let marker = chars_of("Policy compliance failed");
        if contains_chars(&error_chars, &marker) {
            line.append(". REJECTED (Policy): Tool use was rejected by compliance policy.\n");
        } else {
            line.append(". ERROR: ");
            line.append(error_msg);
            line.append("\n");
        }
    }
    line
}

/// The user message of an answer request.
pub fn build_answer_prompt(
    system_prompt: &str,
    user_query: &str,
    tool_results: &Vec<ToolResult>,
    approved_policies: &Vec<ApprovedPolicies>,
) -> (prompt: String)
    ensures
        prompt@ == answer_prompt(
            system_prompt@,
            user_query@,
            approved_policies.deep_view(),
            tool_results.deep_view(),
        ),
{
    let policy_context = build_policy_context(approved_policies);

    // Build context from tool results
    let ghost views = tool_results.deep_view();
    let mut lines = String::new();
    let mut had_rejections = false;
    let mut i: usize = 0;
    while i < tool_results.len()
        invariant
            i <= tool_results.len(),
            views == tool_results.deep_view(),
            lines@ == result_lines(views, i as int),
            had_rejections == any_failed(views, i as int),
        decreases tool_results.len() - i,
    {
        assert(views[i as int] == tool_results[i as int].deep_view());
        if !tool_results[i].success {
            had_rejections = true;
        }
        lines.append(build_result_line(&tool_results[i], i).as_str());
        i += 1;
        assert(lines@ =~= result_lines(views, i as int));
    }

    let mut prompt = system_prompt.to_owned();
    prompt.append("\n\nUser Question: ");
    prompt.append(user_query);
    prompt.append("\n\n");
    prompt.append(policy_context.as_str());
    prompt.append("\n\nTool Results:\n");
    prompt.append(lines.as_str());
    if had_rejections {
        prompt.append(REJECTION_GUIDANCE);
    }
    prompt.append(ANSWER_INSTRUCTIONS);
    assert(prompt@ =~= answer_prompt(
        system_prompt@,
        user_query@,
        approved_policies.deep_view(),
        views,
    ));
    prompt
}

/// Where a run of the pipeline stands.
#[derive(Debug, Clone, Copy, PartialEq, Eq)]
pub enum Phase {
    /// The next intended call is to be looked at
    Gating,
    /// The steps of the call at hand are being gone through
    Checking,
    /// The language model was asked whether the call at hand complies
    AwaitingCompliance,
    /// A quote was asked for the approval of the call at hand
    AwaitingQuote,
    /// The tools have run and the language model was asked for the answer
    AwaitingAnswer,
}

/// What a run asks of its driver.
#[derive(Debug)]
pub enum AgentAction {
    /// Nothing from outside: go on with `proceed`
    Continue,
    /// Ask the language model for a compliance verdict, and hand the reply
    /// to `on_compliance`
    AskCompliance { request: ChatRequest },
    /// Obtain an attestation quote for the report, and hand it to `on_quote`
    GetQuote { report: RawReport },
    /// Ask the language model for the final answer, and hand it to `finish`
    AskAnswer { request: ChatRequest },
    /// The event does not fit where the run stands; nothing was changed
    Unexpected,
}

/// What a run of the pipeline holds.
pub struct RunView {
    pub user_query: Seq<char>,
    pub use_llm_compliance: bool,
    pub plan: AgentPlanView,
    pub phase: Phase,
    /// The number of intended calls that were decided
    pub next: int,
    /// The steps of the call at hand
    pub steps: Seq<CheckStepView>,
    /// The number of steps of the call at hand that passed
    pub step_at: int,
    /// The policy IDs that the tool of the call at hand declares
    pub policy_ids: Seq<Seq<char>>,
    /// The texts of those policies
    pub policy_texts: Seq<Seq<char>>,
    pub approved: Seq<ToolCallView>,
    pub rejected: Seq<RejectedCallView>,
    pub approved_policies: Seq<ApprovedPoliciesView>,
    pub tool_results: Seq<ToolResultView>,
}

/// One run of the pipeline behind the plan: the intended tool calls are
/// decided in plan order, the approved ones are executed, and the answer
/// request is built. The run is driven from outside: it says what it needs
/// and takes what comes back.
pub struct AgentRun {
    user_query: String,
    use_llm_compliance: bool,
    plan: AgentPlan,
    phase: Phase,
    next: usize,
    steps: Vec<CheckStep>,
    step_at: usize,
    policy_ids: Vec<String>,
    policy_texts: Vec<String>,
    approved: Vec<ToolCall>,
    rejected: Vec<RejectedCall>,
    approved_policies: Vec<ApprovedPolicies>,
    tool_results: Vec<ToolResult>,
}

/// The call at hand of a run.
pub open spec fn call_at_hand(run: RunView) -> ToolCallView {
    run.plan.intended_tool_calls[run.next]
}

/// The call at hand as the checks see it.
pub open spec fn checked_call(run: RunView) -> CallView {
    CallView {
        tool_name: call_at_hand(run).tool_name,
        user_query: run.user_query,
        arguments: call_at_hand(run).arguments,
    }
}

/// The reason for which a call of an unknown tool is refused.
pub open spec fn unknown_tool_reason(tool_name: Seq<char>) -> Seq<char> {
    "Tool '"@ + tool_name + "' not found"@
}

/// The run once the call at hand is refused for `reason`.
pub open spec fn refused(run: RunView, reason: Seq<char>) -> RunView {
    RunView {
        phase: Phase::Gating,
        next: run.next + 1,
        rejected: run.rejected.push(RejectedCallView { call: call_at_hand(run), reason }),
        ..run
    }
}

/// The compliance hash of the approval of the call at hand.
pub open spec fn approval_digest(run: RunView) -> Seq<u8> {
    compliance_digest(
        call_at_hand(run).tool_name,
        true,
        run.policy_ids,
        run.user_query,
        call_at_hand(run).arguments,
    )
}

/// `approved` is `call` with the quote of its approval attached: the quote
/// holds the bytes that were obtained, where any were, and binds the
/// approval by its compliance hash.
pub open spec fn approval_of(
    call: ToolCallView,
    quote_bytes: Option<Seq<u8>>,
    digest: Seq<u8>,
    approved: ToolCallView,
) -> bool {
    &&& approved.id == call.id
    &&& approved.tool_name == call.tool_name
    &&& approved.arguments == call.arguments
    &&& approved.timestamp == call.timestamp
    &&& match quote_bytes {
        None => approved.compliance_quote is None,
        Some(bytes) => approved.compliance_quote matches Some(q) && q.tool_name == call.tool_name
            && q.compliant && q.quote_bytes == bytes && q.compliance_hash == digest,
    }
}

/// The result that stands for a refused call.
pub open spec fn refusal_result(rejected: RejectedCallView) -> ToolResultView {
    ToolResultView {
        call_id: rejected.call.id,
        success: false,
        result: Seq::empty(),
        error: Some("Policy compliance failed: "@ + rejected.reason),
        quote_verified: false,
    }
}

impl AgentRun {
    #[verifier::type_invariant]
    spec fn inv(self) -> bool {
        &&& self.next <= self.plan.intended_tool_calls.len()
        &&& self.approved.len() + self.rejected.len() == self.next
        &&& self.step_at <= self.steps.len()
        &&& (self.phase is Checking || self.phase is AwaitingCompliance || self.phase
            is AwaitingQuote) ==> self.next < self.plan.intended_tool_calls.len()
        &&& self.phase is AwaitingCompliance ==> self.step_at < self.steps.len()
            && self.steps[self.step_at as int] is AskLlm
        &&& self.phase is AwaitingQuote ==> self.step_at == self.steps.len()
        &&& self.phase is AwaitingAnswer ==> self.next == self.plan.intended_tool_calls.len()
            && self.tool_results.len() == self.next
    }

    /// What the run holds.
    pub closed spec fn view(&self) -> RunView {
        RunView {
            user_query: self.user_query@,
            use_llm_compliance: self.use_llm_compliance,
            plan: self.plan.deep_view(),
            phase: self.phase,
            next: self.next as int,
            steps: self.steps.deep_view(),
            step_at: self.step_at as int,
            policy_ids: self.policy_ids.deep_view(),
            policy_texts: self.policy_texts.deep_view(),
            approved: self.approved.deep_view(),
            rejected: self.rejected.deep_view(),
            approved_policies: self.approved_policies.deep_view(),
            tool_results: self.tool_results.deep_view(),
        }
    }

    /// The approved calls, as they are executed.
    pub closed spec fn spec_approved(&self) -> Seq<ToolCall> {
        self.approved@
    }

    /// The results of the tools.
    pub closed spec fn spec_results(&self) -> Seq<ToolResult> {
        self.tool_results@
    }

    /// The run at its start: nothing is decided yet.
    pub open spec fn initial(plan: AgentPlanView, user_query: Seq<char>, use_llm: bool) -> RunView {
        RunView {
            user_query,
            use_llm_compliance: use_llm,
            plan,
            phase: Phase::Gating,
            next: 0,
            steps: Seq::empty(),
            step_at: 0,
            policy_ids: Seq::empty(),
            policy_texts: Seq::empty(),
            approved: Seq::empty(),
            rejected: Seq::empty(),
            approved_policies: Seq::empty(),
            tool_results: Seq::empty(),
        }
    }

    /// Starts the run behind a plan.
    pub fn start(plan: AgentPlan, user_query: &str, use_llm_compliance: bool) -> (run: AgentRun)
        ensures
            run.view() == Self::initial(plan.deep_view(), user_query@, use_llm_compliance),
    {
        let run = AgentRun {
            user_query: user_query.to_owned(),
            use_llm_compliance,
            plan,
            phase: Phase::Gating,
            next: 0,
            steps: Vec::new(),
            step_at: 0,
            policy_ids: Vec::new(),
            policy_texts: Vec::new(),
            approved: Vec::new(),
            rejected: Vec::new(),
            approved_policies: Vec::new(),
            tool_results: Vec::new(),
        };
        assert(run.view() =~= Self::initial(plan.deep_view(), user_query@, use_llm_compliance)) by {
            assert(run.steps.deep_view() =~= Seq::<CheckStepView>::empty());
            assert(run.policy_ids.deep_view() =~= Seq::<Seq<char>>::empty());
            assert(run.policy_texts.deep_view() =~= Seq::<Seq<char>>::empty());
            assert(run.approved.deep_view() =~= Seq::<ToolCallView>::empty());
            assert(run.rejected.deep_view() =~= Seq::<RejectedCallView>::empty());
            assert(run.approved_policies.deep_view() =~= Seq::<ApprovedPoliciesView>::empty());
            assert(run.tool_results.deep_view() =~= Seq::<ToolResultView>::empty());
        }
        run
    }

    /// Where the run stands. The calls that are decided are those that were
    /// approved or refused, and no more than were intended; once the answer
    /// is awaited, all are decided and each has its result.
    pub fn phase(&self) -> (phase: Phase)
        ensures
            phase == self.view().phase,
            self.view().approved.len() + self.view().rejected.len() == self.view().next,
            0 <= self.view().next <= self.view().plan.intended_tool_calls.len(),
            phase is AwaitingAnswer ==> self.view().next
                == self.view().plan.intended_tool_calls.len() && self.view().tool_results.len()
                == self.view().next,
    {
        proof {
            use_type_invariant(self);
        }
        self.phase
    }

    /// The calls that were approved so far, in plan order.
    pub fn approved_calls(&self) -> (calls: &Vec<ToolCall>)
        ensures
            calls.deep_view() == self.view().approved,
            calls@ == self.spec_approved(),
    {
        &self.approved
    }

    /// The calls that were refused so far, in plan order.
    pub fn rejected_calls(&self) -> (calls: &Vec<RejectedCall>)
        ensures
            calls.deep_view() == self.view().rejected,
    {
        &self.rejected
    }
}

/// How far a run is from its end, most significant first: whether the
/// answer is still to be asked for, the number of calls that are undecided,
/// whether the call at hand is still to be looked at, the number of its
/// steps that are left, and whether the next step is still to be taken.
pub open spec fn distance(run: RunView) -> Seq<int> {
    seq![
        if run.phase is AwaitingAnswer { 0int } else { 1int },
        run.plan.intended_tool_calls.len() - run.next,
        if run.phase is Gating { 1int } else { 0int },
        run.steps.len() - run.step_at,
        if run.phase is Checking { 1int } else { 0int },
    ]
}

/// `a` comes before `b` in the order of distances: at the first place
/// where they differ, `a` is smaller.
pub open spec fn nearer(a: Seq<int>, b: Seq<int>) -> bool {
    exists|k: int|
        0 <= k < 5 && #[trigger] a[k] < b[k] && forall|j: int| 0 <= j < k ==> a[j] == b[j]
}

/// No place of the distance of a run is negative.
pub open spec fn distance_is_natural(run: RunView) -> bool {
    forall|k: int| 0 <= k < 5 ==> #[trigger] distance(run)[k] >= 0
}

/// A step that the run takes brings it nearer to its end: unless the event
/// was turned down, the run is nearer than before, and its distance has no
/// negative place. So a driver that answers every request ends.
pub open spec fn advanced(before: RunView, after: RunView, action: AgentAction) -> bool {
    &&& distance_is_natural(after)
    &&& !(action is Unexpected) ==> nearer(distance(after), distance(before))
}

/// The run looks at the call at hand: a call of an unknown tool is refused;
/// for a known tool the steps of its checks are laid out, with the policies
/// that the tool declares.
pub open spec fn looked_at(
    before: RunView,
    agent: CryptoAgent,
    checker: ComplianceChecker,
    after: RunView,
    action: AgentAction,
) -> bool {
    let call = call_at_hand(before);
    let tools = agent.spec_registry().spec_tools();
    &&& action is Continue
    &&& match find_tool(tools, call.tool_name, 0) {
        None => after == refused(before, unknown_tool_reason(call.tool_name)),
        Some(t) => after == (RunView {
            phase: Phase::Checking,
            step_at: 0,
            steps: check_steps(
                checker.spec_policies(),
                checker.spec_policy_ids(call.tool_name),
                checked_call(before),
                before.use_llm_compliance,
                0,
            ),
            policy_ids: tools[t].spec_policy_ids(),
            policy_texts: policy_texts(
                checker.spec_policies(),
                tools[t].spec_policy_ids(),
                tools[t].spec_policy_ids().len() as int,
            ),
            ..before
        }),
    }
}

/// The run takes the next step of the call at hand: a failure refuses the
/// call, a request goes to the language model, and where no step is left
/// the call is approved and a quote is asked for its approval.
pub open spec fn stepped(before: RunView, after: RunView, action: AgentAction) -> bool {
    if before.step_at >= before.steps.len() {
        &&& after == (RunView { phase: Phase::AwaitingQuote, ..before })
        &&& action matches AgentAction::GetQuote { report }
        &&& report@ == report_of_digest(approval_digest(before))
    } else {
        match before.steps[before.step_at] {
            CheckStepView::Failed(reason) => after == refused(before, reason) && action
                is Continue,
            CheckStepView::AskLlm { prompt, failure_prefix } => {
                &&& after == (RunView { phase: Phase::AwaitingCompliance, ..before })
                &&& action matches AgentAction::AskCompliance { request }
                &&& request.deep_view() == compliance_request(prompt)
            },
        }
    }
}

/// With every call decided, the run executes the approved calls in plan
/// order, adds a failed result for each refused call, and asks for the
/// answer.
pub open spec fn executed(
    old_run: AgentRun,
    agent: CryptoAgent,
    new_run: AgentRun,
    action: AgentAction,
) -> bool {
    let before = old_run.view();
    let after = new_run.view();
    let approved = old_run.spec_approved();
    let results = new_run.spec_results();
    &&& after == (RunView {
        phase: Phase::AwaitingAnswer,
        tool_results: after.tool_results,
        ..before
    })
    &&& new_run.spec_approved() == approved
    &&& results.len() == approved.len() + before.rejected.len()
    &&& after.tool_results.len() == results.len()
    &&& forall|i: int|
        0 <= i < approved.len() ==> agent.spec_registry().spec_executes(
            approved[i],
            #[trigger] results[i],
        )
    &&& forall|j: int|
        0 <= j < before.rejected.len() ==> #[trigger] after.tool_results[approved.len() + j]
            == refusal_result(before.rejected[j])
    &&& action matches AgentAction::AskAnswer { request }
    &&& request.deep_view() == text_request(
        agent.spec_system_prompt(),
        answer_prompt(
            agent.spec_system_prompt(),
            before.user_query,
            before.approved_policies,
            after.tool_results,
        ),
        agent.spec_temperature_bits(),
        agent.spec_max_tokens(),
    )
}

/// What `proceed` does, by where the run stands.
pub open spec fn proceeds(
    old_run: AgentRun,
    agent: CryptoAgent,
    checker: ComplianceChecker,
    new_run: AgentRun,
    action: AgentAction,
) -> bool {
    let before = old_run.view();
    match before.phase {
        Phase::Gating => if before.next < before.plan.intended_tool_calls.len() {
            looked_at(before, agent, checker, new_run.view(), action)
        } else {
            executed(old_run, agent, new_run, action)
        },
        Phase::Checking => stepped(before, new_run.view(), action),
        _ => new_run.view() == before && action is Unexpected,
    }
}

/// What `on_compliance` does: a reply that passes lets the checks go on,
/// and one that fails refuses the call, for the failure behind the prefix
/// of the step.
pub open spec fn complied(
    before: RunView,
    reply: LlmReply,
    after: RunView,
    action: AgentAction,
) -> bool {
    if before.phase is AwaitingCompliance {
        &&& action is Continue
        &&& match reply_failure(reply.deep_view()) {
            None => after == (RunView {
                phase: Phase::Checking,
                step_at: before.step_at + 1,
                ..before
            }),
            Some(failure) => after == refused(
                before,
                before.steps[before.step_at]->failure_prefix + failure,
            ),
        }
    } else {
        after == before && action is Unexpected
    }
}

/// What `on_quote` does: the call at hand is approved, with the quote
/// attached where one was obtained, and the policies of its tool are
/// recorded.
pub open spec fn quoted(
    before: RunView,
    quote_bytes: Option<Seq<u8>>,
    after: RunView,
    action: AgentAction,
) -> bool {
    if before.phase is AwaitingQuote {
        &&& action is Continue
        &&& after == (RunView {
            phase: Phase::Gating,
            next: before.next + 1,
            approved: after.approved,
            approved_policies: record_policies(
                before.approved_policies,
                call_at_hand(before).tool_name,
                before.policy_texts,
            ),
            ..before
        })
        &&& after.approved.len() == before.approved.len() + 1
        &&& after.approved.drop_last() == before.approved
        &&& approval_of(
            call_at_hand(before),
            quote_bytes,
            approval_digest(before),
            after.approved.last(),
        )
    } else {
        after == before && action is Unexpected
    }
}

/// The bytes of an optional quote.
pub open spec fn bytes_view(quote_bytes: Option<Vec<u8>>) -> Option<Seq<u8>> {
    match quote_bytes {
        Some(bytes) => Some(bytes@),
        None => None,
    }
}

impl AgentRun {
    /// Refuses the call at hand.
    fn refuse(self, reason: String) -> (run: AgentRun)
        requires
            self.view().next < self.view().plan.intended_tool_calls.len(),
        ensures
            run.view() == refused(self.view(), reason@),
    {
        proof {
            use_type_invariant(&self);
        }
        let ghost before = self.view();
        let AgentRun {
            user_query,
            use_llm_compliance,
            plan,
            phase,
            next,
            steps,
            step_at,
            policy_ids,
            policy_texts,
            approved,
            mut rejected,
            approved_policies,
            tool_results,
        } = self;
        let call = plan.intended_tool_calls[next].clone();
        let entry = RejectedCall { call, reason };
        let ghost old_rejected = rejected.deep_view();
        rejected.push(entry);
        assert(rejected.deep_view() =~= old_rejected.push(entry.deep_view()));
        assert(plan.deep_view().intended_tool_calls[next as int] == entry.call.deep_view());
        AgentRun {
            user_query,
            use_llm_compliance,
            plan,
            phase: Phase::Gating,
            next: next + 1,
            steps,
            step_at,
            policy_ids,
            policy_texts,
            approved,
            rejected,
            approved_policies,
            tool_results,
        }
    }

    /// Goes on with the run where nothing from outside is awaited: looks at
    /// the next intended call, takes the next step of the call at hand, or,
    /// with every call decided, executes the approved calls and builds the
    /// answer request. Where the run awaits something, nothing is changed.
    pub fn proceed(self, agent: &CryptoAgent, checker: &ComplianceChecker) -> (r: (
        AgentRun,
        AgentAction,
    ))
        ensures
            proceeds(self, *agent, *checker, r.0, r.1),
            advanced(self.view(), r.0.view(), r.1),
    {
        proof {
            use_type_invariant(&self);
        }
        let ghost before = self.view();
        let r = self.proceed_by_phase(agent, checker);
        proof {
            use_type_invariant(&r.0);
            let after = r.0.view();
            let a = distance(after);
            let b = distance(before);
            if !(r.1 is Unexpected) {
                if after.phase is AwaitingAnswer {
                    assert(a[0] < b[0]);
                } else if after.next > before.next {
                    assert(a[1] < b[1]);
                } else if before.phase is Gating {
                    assert(a[2] < b[2]);
                } else {
                    assert(a[4] < b[4]);
                }
            }
        }
        r
    }

    /// `proceed`, by where the run stands.
    fn proceed_by_phase(self, agent: &CryptoAgent, checker: &ComplianceChecker) -> (r: (
        AgentRun,
        AgentAction,
    ))
        ensures
            proceeds(self, *agent, *checker, r.0, r.1),
    {
        proof {
            use_type_invariant(&self);
        }
        match self.phase {
            Phase::Gating => {
                if self.next < self.plan.intended_tool_calls.len() {
                    self.look_at(agent, checker)
                } else {
                    self.execute(agent)
                }
            },
            Phase::Checking => self.step(),
            _ => (self, AgentAction::Unexpected),
        }
    }

    /// Looks at the call at hand.
    fn look_at(self, agent: &CryptoAgent, checker: &ComplianceChecker) -> (r: (
        AgentRun,
        AgentAction,
    ))
        requires
            self.view().phase is Gating,
            self.view().next < self.view().plan.intended_tool_calls.len(),
        ensures
            looked_at(self.view(), *agent, *checker, r.0.view(), r.1),
    {
        proof {
            use_type_invariant(&self);
        }
        let ghost before = self.view();
        let call = &self.plan.intended_tool_calls[self.next];
        assert(call.deep_view() == call_at_hand(before));
        match agent.tool_registry().get_tool(call.tool_name.as_str()) {
            None => {
                let mut reason = "Tool '".to_owned();
                reason.append(call.tool_name.as_str());
                reason.append("' not found");
                (self.refuse(reason), AgentAction::Continue)
            },
            Some(tool) => {
                let new_ids = tool.policy_ids();
                let new_steps = plan_checks(
                    checker,
                    call.tool_name.as_str(),
                    self.user_query.as_str(),
                    call.arguments.as_str(),
                    self.use_llm_compliance,
                );
                let new_texts = collect_policy_texts(checker.policies(), &new_ids);
                let AgentRun {
                    user_query,
                    use_llm_compliance,
                    plan,
                    phase,
                    next,
                    steps,
                    step_at,
                    policy_ids,
                    policy_texts,
                    approved,
                    rejected,
                    approved_policies,
                    tool_results,
                } = self;
                let run = AgentRun {
                    user_query,
                    use_llm_compliance,
                    plan,
                    phase: Phase::Checking,
                    next,
                    steps: new_steps,
                    step_at: 0,
                    policy_ids: new_ids,
                    policy_texts: new_texts,
                    approved,
                    rejected,
                    approved_policies,
                    tool_results,
                };
                (run, AgentAction::Continue)
            },
        }
    }

    /// Takes the next step of the call at hand.
    fn step(self) -> (r: (AgentRun, AgentAction))
        requires
            self.view().phase is Checking,
        ensures
            stepped(self.view(), r.0.view(), r.1),
    {
        proof {
            use_type_invariant(&self);
        }
        let ghost before = self.view();
        if self.step_at >= self.steps.len() {
            let call = &self.plan.intended_tool_calls[self.next];
            assert(call.deep_view() == call_at_hand(before));
            let report = compliance_report(
                call.tool_name.as_str(),
                true,
                self.policy_ids.as_slice(),
                self.user_query.as_str(),
                call.arguments.as_str(),
            );
            let AgentRun {
                user_query,
                use_llm_compliance,
                plan,
                phase,
                next,
                steps,
                step_at,
                policy_ids,
                policy_texts,
                approved,
                rejected,
                approved_policies,
                tool_results,
            } = self;
            let run = AgentRun {
                user_query,
                use_llm_compliance,
                plan,
                phase: Phase::AwaitingQuote,
                next,
                steps,
                step_at,
                policy_ids,
                policy_texts,
                approved,
                rejected,
                approved_policies,
                tool_results,
            };
            return (run, AgentAction::GetQuote { report });
        }
        assert(before.steps[self.step_at as int] == self.steps[self.step_at as int].deep_view());
        match &self.steps[self.step_at] {
            CheckStep::Failed(reason) => {
                let reason = reason.clone();
                (self.refuse(reason), AgentAction::Continue)
            },
            CheckStep::AskLlm { prompt, failure_prefix: _ } => {
                let asked = prompt.clone();
                let AgentRun {
                    user_query,
                    use_llm_compliance,
                    plan,
                    phase,
                    next,
                    steps,
                    step_at,
                    policy_ids,
                    policy_texts,
                    approved,
                    rejected,
                    approved_policies,
                    tool_results,
                } = self;
                let run = AgentRun {
                    user_query,
                    use_llm_compliance,
                    plan,
                    phase: Phase::AwaitingCompliance,
                    next,
                    steps,
                    step_at,
                    policy_ids,
                    policy_texts,
                    approved,
                    rejected,
                    approved_policies,
                    tool_results,
                };
                (run, AgentAction::AskCompliance { request: build_compliance_request(asked) })
            },
        }
    }

    /// Executes the approved calls and builds the answer request.
    fn execute(self, agent: &CryptoAgent) -> (r: (AgentRun, AgentAction))
        requires
            self.view().phase is Gating,
            self.view().next == self.view().plan.intended_tool_calls.len(),
        ensures
            executed(self, *agent, r.0, r.1),
    {
        proof {
            use_type_invariant(&self);
        }
        let ghost before = self.view();
        let ghost old_approved = self.spec_approved();
        let AgentRun {
            user_query,
            use_llm_compliance,
            plan,
            phase,
            next,
            steps,
            step_at,
            policy_ids,
            policy_texts,
            approved,
            rejected,
            approved_policies,
            tool_results: _,
        } = self;
        let registry = agent.tool_registry();

        // Execute approved tool calls only
        let mut tool_results: Vec<ToolResult> = Vec::new();
        let mut i: usize = 0;
        while i < approved.len()
            invariant
                i <= approved.len(),
                tool_results.len() == i,
                *registry == agent.spec_registry(),
                forall|k: int|
                    0 <= k < i ==> registry.spec_executes(
                        approved@[k],
                        #[trigger] tool_results@[k],
                    ),
            decreases approved.len() - i,
        {
            let result = registry.execute_tool_call(&approved[i]);
            tool_results.push(result);
            i += 1;
        }

        // Add "rejected" results for rejected tools
        let ghost executed_results = tool_results@;
        let ghost rejected_views = rejected.deep_view();
        let mut j: usize = 0;
        while j < rejected.len()
            invariant
                j <= rejected.len(),
                rejected_views == rejected.deep_view(),
                tool_results.len() == approved.len() + j,
                executed_results.len() == approved.len(),
                forall|k: int| 0 <= k < approved.len() ==> tool_results@[k] == executed_results[k],
                forall|k: int|
                    0 <= k < j ==> #[trigger] tool_results.deep_view()[approved.len() + k]
                        == refusal_result(rejected_views[k]),
            decreases rejected.len() - j,
        {
            assert(rejected_views[j as int] == rejected[j as int].deep_view());
            let mut error = "Policy compliance failed: ".to_owned();
            error.append(rejected[j].reason.as_str());
            let result = ToolResult {
                call_id: rejected[j].call.id,
                success: false,
                result: String::new(),
                error: Some(error),
                quote_verified: false,
            };
            let ghost views_before = tool_results.deep_view();
            tool_results.push(result);
            assert(tool_results.deep_view() =~= views_before.push(result.deep_view()));
            assert(result.deep_view() =~= refusal_result(rejected_views[j as int]));
            j += 1;
        }

        let prompt = build_answer_prompt(
            agent.system_prompt(),
            user_query.as_str(),
            &tool_results,
            &approved_policies,
        );
        let action = AgentAction::AskAnswer {
            request: ChatRequest::text(
                agent.system_prompt(),
                prompt,
                agent.config().temperature_bits,
                agent.config().max_tokens,
            ),
        };
        let run = AgentRun {
            user_query,
            use_llm_compliance,
            plan,
            phase: Phase::AwaitingAnswer,
            next,
            steps,
            step_at,
            policy_ids,
            policy_texts,
            approved,
            rejected,
            approved_policies,
            tool_results,
        };
        proof {
            let results = run.spec_results();
            assert forall|i: int|
                0 <= i < old_approved.len() implies agent.spec_registry().spec_executes(
                old_approved[i],
                #[trigger] results[i],
            ) by {
                assert(results[i] == executed_results[i]);
            }
        }
        (run, action)
    }

    /// Takes the reply of the language model to a compliance request.
    pub fn on_compliance(self, reply: &LlmReply) -> (r: (AgentRun, AgentAction))
        ensures
            complied(self.view(), *reply, r.0.view(), r.1),
            advanced(self.view(), r.0.view(), r.1),
    {
        proof {
            use_type_invariant(&self);
        }
        let ghost before = self.view();
        let r = self.take_compliance(reply);
        proof {
            use_type_invariant(&r.0);
            let after = r.0.view();
            let a = distance(after);
            let b = distance(before);
            if !(r.1 is Unexpected) {
                if after.next > before.next {
                    assert(a[1] < b[1]);
                } else {
                    assert(a[3] < b[3]);
                }
            }
        }
        r
    }

    /// `on_compliance`, by the reply.
    fn take_compliance(self, reply: &LlmReply) -> (r: (AgentRun, AgentAction))
        ensures
            complied(self.view(), *reply, r.0.view(), r.1),
    {
        proof {
            use_type_invariant(&self);
        }
        let ghost before = self.view();
        match self.phase {
            Phase::AwaitingCompliance => {},
            _ => {
                return (self, AgentAction::Unexpected);
            },
        }
        assert(before.steps[self.step_at as int] == self.steps[self.step_at as int].deep_view());
        match evaluate_reply(reply) {
            Ok(_) => {
                let AgentRun {
                    user_query,
                    use_llm_compliance,
                    plan,
                    phase,
                    next,
                    steps,
                    step_at,
                    policy_ids,
                    policy_texts,
                    approved,
                    rejected,
                    approved_policies,
                    tool_results,
                } = self;
                let run = AgentRun {
                    user_query,
                    use_llm_compliance,
                    plan,
                    phase: Phase::Checking,
                    next,
                    steps,
                    step_at: step_at + 1,
                    policy_ids,
                    policy_texts,
                    approved,
                    rejected,
                    approved_policies,
                    tool_results,
                };
                (run, AgentAction::Continue)
            },
            Err(failure) => {
                let mut reason = match &self.steps[self.step_at] {
                    CheckStep::AskLlm { prompt: _, failure_prefix } => failure_prefix.clone(),
                    CheckStep::Failed(_) => String::new(),
                };
                reason.append(failure.as_str());
                (self.refuse(reason), AgentAction::Continue)
            },
        }
    }

    /// Takes the quote that was asked for the approval of the call at hand,
    /// or the news that none could be obtained: the call is approved either
    /// way.
    pub fn on_quote(self, quote_bytes: Option<Vec<u8>>) -> (r: (AgentRun, AgentAction))
        ensures
            quoted(self.view(), bytes_view(quote_bytes), r.0.view(), r.1),
            advanced(self.view(), r.0.view(), r.1),
    {
        proof {
            use_type_invariant(&self);
        }
        let ghost before = self.view();
        let r = self.take_quote(quote_bytes);
        proof {
            use_type_invariant(&r.0);
            let after = r.0.view();
            if !(r.1 is Unexpected) {
                assert(distance(after)[1] < distance(before)[1]);
            }
        }
        r
    }

    /// `on_quote`, with the quote at hand.
    fn take_quote(self, quote_bytes: Option<Vec<u8>>) -> (r: (AgentRun, AgentAction))
        ensures
            quoted(self.view(), bytes_view(quote_bytes), r.0.view(), r.1),
    {
        proof {
            use_type_invariant(&self);
        }
        let ghost before = self.view();
        match self.phase {
            Phase::AwaitingQuote => {},
            _ => {
                return (self, AgentAction::Unexpected);
            },
        }
        let AgentRun {
            user_query,
            use_llm_compliance,
            plan,
            phase,
            next,
            steps,
            step_at,
            policy_ids,
            policy_texts,
            mut approved,
            rejected,
            mut approved_policies,
            tool_results,
        } = self;
        let call = &plan.intended_tool_calls[next];
        assert(call.deep_view() == call_at_hand(before));
        let compliance_quote = match quote_bytes {
            Some(bytes) => Some(
                generate_compliance_quote(
                    call.tool_name.as_str(),
                    true,
                    policy_ids.as_slice(),
                    user_query.as_str(),
                    call.arguments.as_str(),
                    bytes,
                ),
            ),
            None => None,
        };

        // Create tool call with attestation quote
        let tool_call_with_quote = ToolCall {
            id: call.id,
            tool_name: call.tool_name.clone(),
            arguments: call.arguments.clone(),
            timestamp: call.timestamp,
            compliance_quote,
        };
        let ghost old_approved = approved.deep_view();
        approved.push(tool_call_with_quote);
        assert(approved.deep_view() =~= old_approved.push(tool_call_with_quote.deep_view()));
        assert(approved.deep_view().drop_last() =~= old_approved);

        // Collect policy texts for this approved tool
        let texts = clone_strings(&policy_texts);
        insert_policies(&mut approved_policies, call.tool_name.clone(), texts);

        let run = AgentRun {
            user_query,
            use_llm_compliance,
            plan,
            phase: Phase::Gating,
            next: next + 1,
            steps,
            step_at,
            policy_ids,
            policy_texts,
            approved,
            rejected,
            approved_policies,
            tool_results,
        };
        (run, AgentAction::Continue)
    }

    /// Closes the run with the answer of the language model: the execution
    /// holds the plan, the intended calls, the results of the tools, the
    /// answer, and the time that the run took. Nothing comes of a run that
    /// does not await its answer.
    pub fn finish(self, final_response: String, session_id: Uuid, execution_time_ms: u64) -> (r:
        Option<AgentExecution>)
        ensures
            match r {
                None => !(self.view().phase is AwaitingAnswer),
                Some(execution) => {
                    &&& self.view().phase is AwaitingAnswer
                    &&& execution.session_id@ == session_id@
                    &&& execution.plan.deep_view() == self.view().plan
                    &&& execution.tool_calls.deep_view() == self.view().plan.intended_tool_calls
                    &&& execution.tool_results@ == self.spec_results()
                    &&& execution.tool_results.len() == execution.tool_calls.len()
                    &&& execution.final_response@ == final_response@
                    &&& execution.execution_time_ms == execution_time_ms
                },
            },
    {
        proof {
            use_type_invariant(&self);
        }
        match self.phase {
            Phase::AwaitingAnswer => {},
            _ => {
                return None;
            },
        }
        let intended_tool_calls = clone_calls(&self.plan.intended_tool_calls);
        assert(intended_tool_calls.deep_view().len() == intended_tool_calls.len());
        assert(self.plan.intended_tool_calls.deep_view().len()
            == self.plan.intended_tool_calls.len());
        Some(
            AgentExecution {
                session_id,
                plan: self.plan,
                tool_calls: intended_tool_calls,
                tool_results: self.tool_results,
                final_response,
                execution_time_ms,
            },
        )
    }
}

impl CryptoAgent {
    /// Starts the run behind a plan with per-tool compliance checking by the
    /// deterministic rules alone.
    pub fn execute_with_compliance(&self, plan: AgentPlan, user_query: &str) -> (run: AgentRun)
        ensures
            run.view() == AgentRun::initial(plan.deep_view(), user_query@, false),
    {
        AgentRun::start(plan, user_query, false)
    }

    /// Starts the run behind a plan with per-tool compliance checking by the
    /// deterministic rules and by the language model.
    pub fn execute_with_llm_compliance(&self, plan: AgentPlan, user_query: &str) -> (run: AgentRun)
        ensures
            run.view() == AgentRun::initial(plan.deep_view(), user_query@, true),
    {
        AgentRun::start(plan, user_query, true)
    }
}

} // verus!
