//! The policy model and the deterministic compliance engine.

use vstd::prelude::*;
use vstd::string::StringExecFns;
use crate::agent::canonical::{
    plan_bytes, plan_preimage, policies_bytes, policies_preimage,
};
use crate::agent::policy_registry::{
    default_policies, default_tool_policies, PolicyRegistry, ToolPolicyMap,
};
use crate::text::lemma_middle_is_substring;
use crate::agent::types::{
    call_arguments, AgentPlan, AgentPlanView, ComplianceResult, Timestamp, ToolCall, Uuid,
};
use crate::utils::hasher::{blake3_digest, blake3_hash};
use crate::utils::hexcodec::{encode, hex_lower};
use crate::text::{
    chars_of, concat3, contains_chars, is_substring, lowercase_chars, lowercase_of, str_eq,
};

verus! {

/// Compliance checking method
#[derive(Debug, Clone, Copy, PartialEq, Eq)]
pub enum ComplianceMethod {
    /// Deterministic & heuristic keyword matching
    Deterministic,
    /// LLM-based compliance check
    LLMBased,
}

/// LLM compliance check result
#[derive(Debug, Clone, PartialEq, Eq)]
pub struct LLMComplianceResult {
    /// Whether the check passed
    pub compliant: bool,
    /// Explanation from the LLM
    pub explanation: String,
}

impl LLMComplianceResult {
    /// Check if the result is compliant
    pub fn is_compliant(&self) -> (b: bool)
        ensures
            b == self.compliant,
    {
        self.compliant
    }
}

/// A policy that defines acceptable agent behavior
#[derive(Debug)]
pub struct Policy {
    /// Unique identifier for the policy (e.g., "L1", "L2", etc.)
    pub id: String,
    /// Human-readable name
    pub name: String,
    /// Policy text/description
    pub text: String,
    /// Compliance checking methods for this policy
    pub methods: Vec<PolicyMethod>,
}

/// A compliance checking method for a policy
#[derive(Debug)]
pub struct PolicyMethod {
    /// Method type
    pub method: ComplianceMethod,
    /// Method-specific rules
    pub rules: Vec<PolicyRule>,
}

/// A single policy rule
#[derive(Debug)]
pub struct PolicyRule {
    /// Rule identifier
    pub id: String,
    /// Rule type
    pub rule_type: PolicyRuleType,
    /// Rule parameters, as JSON text
    pub parameters: String,
}

/// Types of policy rules
#[derive(Debug)]
pub enum PolicyRuleType {
    /// Restrict query content (keywords)
    ProhibitedKeywords { keywords: Vec<String> },
    /// Require certain patterns to be absent
    RequiredAbsentPatterns { patterns: Vec<String> },
    /// Limit output size or raw data dumps
    OutputRestriction { max_raw_items: Option<usize>, require_aggregation: bool },
    /// Check for prohibited identity inference
    NoIdentityInference { prohibited_terms: Vec<String> },
    /// Require source attribution
    RequireAttribution { require_source: bool, require_timestamp: bool },
    /// Custom LLM-based compliance check
    LLMCompliance { check_prompt: String },
}

/// What a `PolicyRuleType` holds.
pub enum RuleSpec {
    ProhibitedKeywords { keywords: Seq<Seq<char>> },
    RequiredAbsentPatterns { patterns: Seq<Seq<char>> },
    OutputRestriction { max_raw_items: Option<usize>, require_aggregation: bool },
    NoIdentityInference { prohibited_terms: Seq<Seq<char>> },
    RequireAttribution { require_source: bool, require_timestamp: bool },
    LLMCompliance { check_prompt: Seq<char> },
}

impl DeepView for PolicyRuleType {
    type V = RuleSpec;

    open spec fn deep_view(&self) -> RuleSpec {
        match *self {
            PolicyRuleType::ProhibitedKeywords { keywords } => RuleSpec::ProhibitedKeywords {
                keywords: keywords.deep_view(),
            },
            PolicyRuleType::RequiredAbsentPatterns {
                patterns,
            } => RuleSpec::RequiredAbsentPatterns { patterns: patterns.deep_view() },
            PolicyRuleType::OutputRestriction {
                max_raw_items,
                require_aggregation,
            } => RuleSpec::OutputRestriction { max_raw_items, require_aggregation },
            PolicyRuleType::NoIdentityInference {
                prohibited_terms,
            } => RuleSpec::NoIdentityInference { prohibited_terms: prohibited_terms.deep_view() },
            PolicyRuleType::RequireAttribution {
                require_source,
                require_timestamp,
            } => RuleSpec::RequireAttribution { require_source, require_timestamp },
            PolicyRuleType::LLMCompliance { check_prompt } => RuleSpec::LLMCompliance {
                check_prompt: check_prompt@,
            },
        }
    }
}

/// What a `PolicyRule` holds.
pub struct PolicyRuleView {
    pub id: Seq<char>,
    pub rule_type: RuleSpec,
    pub parameters: Seq<char>,
}

impl DeepView for PolicyRule {
    type V = PolicyRuleView;

    open spec fn deep_view(&self) -> PolicyRuleView {
        PolicyRuleView {
            id: self.id@,
            rule_type: self.rule_type.deep_view(),
            parameters: self.parameters@,
        }
    }
}

/// What a `PolicyMethod` holds.
pub struct PolicyMethodView {
    pub method: ComplianceMethod,
    pub rules: Seq<PolicyRuleView>,
}

impl DeepView for PolicyMethod {
    type V = PolicyMethodView;

    open spec fn deep_view(&self) -> PolicyMethodView {
        PolicyMethodView { method: self.method, rules: self.rules.deep_view() }
    }
}

/// What a `Policy` holds.
pub struct PolicyView {
    pub id: Seq<char>,
    pub name: Seq<char>,
    pub text: Seq<char>,
    pub methods: Seq<PolicyMethodView>,
}

impl DeepView for Policy {
    type V = PolicyView;

    open spec fn deep_view(&self) -> PolicyView {
        PolicyView {
            id: self.id@,
            name: self.name@,
            text: self.text@,
            methods: self.methods.deep_view(),
        }
    }
}

/// A copy of a list of strings.
pub fn clone_strings(items: &Vec<String>) -> (copy: Vec<String>)
    ensures
        copy.deep_view() == items.deep_view(),
{
    let copy = items.clone();
    assert(copy.deep_view() =~= items.deep_view());
    copy
}

impl Clone for PolicyRuleType {
    fn clone(&self) -> (copy: Self)
        ensures
            copy.deep_view() == self.deep_view(),
    {
        match self {
            PolicyRuleType::ProhibitedKeywords { keywords } => PolicyRuleType::ProhibitedKeywords {
                keywords: clone_strings(keywords),
            },
            PolicyRuleType::RequiredAbsentPatterns {
                patterns,
            } => PolicyRuleType::RequiredAbsentPatterns { patterns: clone_strings(patterns) },
            PolicyRuleType::OutputRestriction {
                max_raw_items,
                require_aggregation,
            } => PolicyRuleType::OutputRestriction {
                max_raw_items: *max_raw_items,
                require_aggregation: *require_aggregation,
            },
            PolicyRuleType::NoIdentityInference {
                prohibited_terms,
            } => PolicyRuleType::NoIdentityInference {
                prohibited_terms: clone_strings(prohibited_terms),
            },
            PolicyRuleType::RequireAttribution {
                require_source,
                require_timestamp,
            } => PolicyRuleType::RequireAttribution {
                require_source: *require_source,
                require_timestamp: *require_timestamp,
            },
            PolicyRuleType::LLMCompliance { check_prompt } => PolicyRuleType::LLMCompliance {
                check_prompt: check_prompt.clone(),
            },
        }
    }
}

impl Clone for PolicyRule {
    fn clone(&self) -> (copy: Self)
        ensures
            copy.deep_view() == self.deep_view(),
    {
        PolicyRule {
            id: self.id.clone(),
            rule_type: self.rule_type.clone(),
            parameters: self.parameters.clone(),
        }
    }
}

impl Clone for PolicyMethod {
    fn clone(&self) -> (copy: Self)
        ensures
            copy.deep_view() == self.deep_view(),
    {
        let rules = self.rules.clone();
        assert(rules.deep_view() =~= self.rules.deep_view());
        PolicyMethod { method: self.method, rules }
    }
}

impl Clone for Policy {
    fn clone(&self) -> (copy: Self)
        ensures
            copy.deep_view() == self.deep_view(),
    {
        let methods = self.methods.clone();
        assert(methods.deep_view() =~= self.methods.deep_view());
        Policy {
            id: self.id.clone(),
            name: self.name.clone(),
            text: self.text.clone(),
            methods,
        }
    }
}

/// A copy of a list of policies.
pub fn clone_policies(policies: &Vec<Policy>) -> (copy: Vec<Policy>)
    ensures
        copy.deep_view() == policies.deep_view(),
{
    let copy = policies.clone();
    assert(copy.deep_view() =~= policies.deep_view());
    copy
}

/// The first position at or after `from` of a policy whose id is `id`.
pub open spec fn find_policy(policies: Seq<PolicyView>, id: Seq<char>, from: int) -> Option<int>
    decreases policies.len() - from,
{
    if from < 0 || from >= policies.len() {
        None
    } else if policies[from].id == id {
        Some(from)
    } else {
        find_policy(policies, id, from + 1)
    }
}

/// The position of the first policy whose id is `id`.
pub fn position_of_policy(policies: &Vec<Policy>, id: &str) -> (at: Option<usize>)
    ensures
        match at {
            Some(i) => find_policy(policies.deep_view(), id@, 0) == Some(i as int) && i
                < policies.len(),
            None => find_policy(policies.deep_view(), id@, 0) is None,
        },
{
    let ghost views = policies.deep_view();
    let mut i: usize = 0;
    while i < policies.len()
        invariant
            i <= policies.len(),
            views == policies.deep_view(),
            find_policy(views, id@, 0) == find_policy(views, id@, i as int),
        decreases policies.len() - i,
    {
        assert(views[i as int] == policies[i as int].deep_view());
        if str_eq(policies[i].id.as_str(), id) {
            return Some(i);
        }
        i += 1;
    }
    None
}

/// The texts that a deterministic rule scans.
pub struct RuleContext {
    pub query: Seq<char>,
    pub system_prompt: Seq<char>,
    pub arguments: Seq<Seq<char>>,
    pub response: Option<Seq<char>>,
}

/// What a deterministic rule scans of `plan`, with an optional response text.
pub open spec fn plan_context(plan: AgentPlanView, response: Option<Seq<char>>) -> RuleContext {
    RuleContext {
        query: plan.user_query,
        system_prompt: plan.system_prompt,
        arguments: call_arguments(plan.intended_tool_calls),
        response,
    }
}

/// `word` occurs in `text`, both taken in lowercase.
pub open spec fn mentions(text: Seq<char>, word: Seq<char>) -> bool {
    is_substring(lowercase_of(word), lowercase_of(text))
}

/// Some argument string mentions `word`.
pub open spec fn arguments_mention(arguments: Seq<Seq<char>>, word: Seq<char>) -> bool {
    exists|c: int| 0 <= c < arguments.len() && mentions(#[trigger] arguments[c], word)
}

/// The complaint that one prohibited keyword raises, if any: the user query
/// is looked at first, then the system prompt, then the tool arguments.
pub open spec fn keyword_hit(ctx: RuleContext, keyword: Seq<char>) -> Option<Seq<char>> {
    if mentions(ctx.query, keyword) {
        Some("Prohibited keyword '"@ + keyword + "' found in user query"@)
    } else if mentions(ctx.system_prompt, keyword) {
        Some("Prohibited keyword '"@ + keyword + "' found in system prompt"@)
    } else if arguments_mention(ctx.arguments, keyword) {
        Some("Prohibited keyword '"@ + keyword + "' found in tool arguments"@)
    } else {
        None
    }
}

/// The complaint that one absent-pattern raises, if any.
pub open spec fn pattern_hit(ctx: RuleContext, pattern: Seq<char>) -> Option<Seq<char>> {
    if mentions(ctx.query, pattern) {
        Some("Prohibited pattern '"@ + pattern + "' found"@)
    } else {
        None
    }
}

/// The complaint that one identity term raises against the query, if any.
pub open spec fn term_query_hit(ctx: RuleContext, term: Seq<char>) -> Option<Seq<char>> {
    if mentions(ctx.query, term) {
        Some("Identity inference term '"@ + term + "' found"@)
    } else {
        None
    }
}

/// The complaint that one identity term raises against the response, if any.
pub open spec fn term_response_hit(ctx: RuleContext, term: Seq<char>) -> Option<Seq<char>> {
    if ctx.response is Some && mentions(ctx.response->0, term) {
        Some("Identity inference term '"@ + term + "' found in response"@)
    } else {
        None
    }
}

/// `keyword_hit` as a function of the keyword.
pub open spec fn keyword_hits(ctx: RuleContext) -> spec_fn(Seq<char>) -> Option<Seq<char>> {
    |k: Seq<char>| keyword_hit(ctx, k)
}

/// `pattern_hit` as a function of the pattern.
pub open spec fn pattern_hits(ctx: RuleContext) -> spec_fn(Seq<char>) -> Option<Seq<char>> {
    |p: Seq<char>| pattern_hit(ctx, p)
}

/// `term_query_hit` as a function of the term.
pub open spec fn term_query_hits(ctx: RuleContext) -> spec_fn(Seq<char>) -> Option<Seq<char>> {
    |t: Seq<char>| term_query_hit(ctx, t)
}

/// `term_response_hit` as a function of the term.
pub open spec fn term_response_hits(ctx: RuleContext) -> spec_fn(Seq<char>) -> Option<Seq<char>> {
    |t: Seq<char>| term_response_hit(ctx, t)
}

/// The first complaint among `items[from..]`, in order.
pub open spec fn first_hit(
    items: Seq<Seq<char>>,
    hit: spec_fn(Seq<char>) -> Option<Seq<char>>,
    from: int,
) -> Option<Seq<char>>
    decreases items.len() - from,
{
    if from < 0 || from >= items.len() {
        None
    } else if hit(items[from]) is Some {
        hit(items[from])
    } else {
        first_hit(items, hit, from + 1)
    }
}

/// A response text, in lowercase, speaks of aggregation.
pub open spec fn has_aggregation(response: Seq<char>) -> bool {
    let lower = lowercase_of(response);
    is_substring("total"@, lower) || is_substring("average"@, lower) || is_substring(
        "summary"@,
        lower,
    ) || is_substring("aggregated"@, lower)
}

/// A response text, in lowercase, names a source.
pub open spec fn has_source(response: Seq<char>) -> bool {
    let lower = lowercase_of(response);
    is_substring("according to"@, lower) || is_substring("source:"@, lower) || is_substring(
        "from"@,
        lower,
    )
}

/// A response text, in lowercase, carries a time reference.
pub open spec fn has_timestamp(response: Seq<char>) -> bool {
    let lower = lowercase_of(response);
    is_substring("as of"@, lower) || is_substring("timestamp"@, lower) || is_substring(
        "utc"@,
        lower,
    ) || is_substring("time:"@, lower)
}

/// The complaint that a rule raises in the deterministic phase, if any.
pub open spec fn rule_violation(rule_type: RuleSpec, ctx: RuleContext) -> Option<Seq<char>> {
    match rule_type {
        RuleSpec::ProhibitedKeywords { keywords } => first_hit(keywords, keyword_hits(ctx), 0),
        RuleSpec::RequiredAbsentPatterns { patterns } => first_hit(patterns, pattern_hits(ctx), 0),
        RuleSpec::OutputRestriction { max_raw_items, require_aggregation } => {
            if ctx.response is Some && require_aggregation && !has_aggregation(ctx.response->0) {
                Some("Response should contain aggregated data"@)
            } else {
                None
            }
        },
        RuleSpec::NoIdentityInference { prohibited_terms } => {
            let in_query = first_hit(prohibited_terms, term_query_hits(ctx), 0);
            if in_query is Some {
                in_query
            } else {
                first_hit(prohibited_terms, term_response_hits(ctx), 0)
            }
        },
        RuleSpec::RequireAttribution { require_source, require_timestamp } => {
            if ctx.response is Some && require_source && !has_source(ctx.response->0) {
                Some("Response must include source attribution"@)
            } else if ctx.response is Some && require_timestamp && !has_timestamp(
                ctx.response->0,
            ) {
                Some("Response must include timestamp"@)
            } else {
                None
            }
        },
        RuleSpec::LLMCompliance { check_prompt } => None,
    }
}

/// Once every item before `upto` is known to raise nothing, the search from
/// the start equals the search from `upto`.
pub proof fn lemma_first_hit_skip(
    items: Seq<Seq<char>>,
    hit: spec_fn(Seq<char>) -> Option<Seq<char>>,
    from: int,
    upto: int,
)
    requires
        0 <= from <= upto <= items.len(),
        forall|k: int| from <= k < upto ==> hit(#[trigger] items[k]) is None,
    ensures
        first_hit(items, hit, from) == first_hit(items, hit, upto),
    decreases upto - from,
{
    if from < upto {
        lemma_first_hit_skip(items, hit, from + 1, upto);
    }
}

/// The view of an optional response text.
pub open spec fn response_view(response: Option<&str>) -> Option<Seq<char>> {
    match response {
        Some(r) => Some(r@),
        None => None,
    }
}

/// Whether some tool call of `plan` mentions the keyword whose lowercase
/// characters are `keyword_lower`.
fn arguments_contain(plan: &AgentPlan, keyword: &str, keyword_lower: &Vec<char>) -> (found: bool)
    requires
        keyword_lower@ == lowercase_of(keyword@),
    ensures
        found == arguments_mention(call_arguments(plan.intended_tool_calls.deep_view()), keyword@),
{
    let ghost arguments = call_arguments(plan.intended_tool_calls.deep_view());
    let mut c: usize = 0;
    while c < plan.intended_tool_calls.len()
        invariant
            c <= plan.intended_tool_calls.len(),
            arguments == call_arguments(plan.intended_tool_calls.deep_view()),
            keyword_lower@ == lowercase_of(keyword@),
            forall|d: int| 0 <= d < c ==> !mentions(#[trigger] arguments[d], keyword@),
        decreases plan.intended_tool_calls.len() - c,
    {
        let args_lower = lowercase_chars(plan.intended_tool_calls[c].arguments.as_str());
        if contains_chars(&args_lower, keyword_lower) {
            assert(mentions(arguments[c as int], keyword@));
            return true;
        }
        c += 1;
    }
    false
}

/// Evaluates the keywords of a `ProhibitedKeywords` rule, in order.
fn check_keywords(keywords: &Vec<String>, plan: &AgentPlan, Ghost(ctx): Ghost<RuleContext>) -> (r:
    Result<(), String>)
    requires
        ctx.query == plan.user_query@,
        ctx.system_prompt == plan.system_prompt@,
        ctx.arguments == call_arguments(plan.intended_tool_calls.deep_view()),
    ensures
        match r {
            Ok(_) => first_hit(keywords.deep_view(), keyword_hits(ctx), 0) is None,
            Err(e) => first_hit(keywords.deep_view(), keyword_hits(ctx), 0) == Some(e@),
        },
{
    let query_lower = lowercase_chars(plan.user_query.as_str());
    let prompt_lower = lowercase_chars(plan.system_prompt.as_str());
    let ghost items = keywords.deep_view();
    let ghost hit = keyword_hits(ctx);
    let mut i: usize = 0;
    while i < keywords.len()
        invariant
            i <= keywords.len(),
            items == keywords.deep_view(),
            hit == keyword_hits(ctx),
            ctx.query == plan.user_query@,
            ctx.system_prompt == plan.system_prompt@,
            ctx.arguments == call_arguments(plan.intended_tool_calls.deep_view()),
            query_lower@ == lowercase_of(plan.user_query@),
            prompt_lower@ == lowercase_of(plan.system_prompt@),
            forall|k: int| 0 <= k < i ==> hit(#[trigger] items[k]) is None,
        decreases keywords.len() - i,
    {
        let keyword = keywords[i].as_str();
        assert(items[i as int] == keyword@);
        let keyword_lower = lowercase_chars(keyword);
        if contains_chars(&query_lower, &keyword_lower) {
            proof {
                lemma_first_hit_skip(items, hit, 0, i as int);
            }
            return Err(concat3("Prohibited keyword '", keyword, "' found in user query"));
        }
        if contains_chars(&prompt_lower, &keyword_lower) {
            proof {
                lemma_first_hit_skip(items, hit, 0, i as int);
            }
            return Err(concat3("Prohibited keyword '", keyword, "' found in system prompt"));
        }
        if arguments_contain(plan, keyword, &keyword_lower) {
            proof {
                lemma_first_hit_skip(items, hit, 0, i as int);
            }
            return Err(concat3("Prohibited keyword '", keyword, "' found in tool arguments"));
        }
        i += 1;
    }
    proof {
        lemma_first_hit_skip(items, hit, 0, i as int);
    }
    Ok(())
}

/// Looks for the first of `items` that occurs, in lowercase, in the text
/// whose lowercase characters are `text_lower`; the complaint is the item
/// between `prefix` and `suffix`.
fn scan_items(
    items: &Vec<String>,
    text_lower: &Vec<char>,
    prefix: &str,
    suffix: &str,
    Ghost(hit): Ghost<spec_fn(Seq<char>) -> Option<Seq<char>>>,
) -> (r: Result<(), String>)
    requires
        forall|item: Seq<char>| #[trigger]
            hit(item) == if is_substring(lowercase_of(item), text_lower@) {
                Some(prefix@ + item + suffix@)
            } else {
                None
            },
    ensures
        match r {
            Ok(_) => first_hit(items.deep_view(), hit, 0) is None,
            Err(e) => first_hit(items.deep_view(), hit, 0) == Some(e@),
        },
{
    let ghost views = items.deep_view();
    let mut i: usize = 0;
    while i < items.len()
        invariant
            i <= items.len(),
            views == items.deep_view(),
            forall|item: Seq<char>| #[trigger]
                hit(item) == if is_substring(lowercase_of(item), text_lower@) {
                    Some(prefix@ + item + suffix@)
                } else {
                    None
                },
            forall|k: int| 0 <= k < i ==> hit(#[trigger] views[k]) is None,
        decreases items.len() - i,
    {
        let item = items[i].as_str();
        assert(views[i as int] == item@);
        let item_lower = lowercase_chars(item);
        if contains_chars(text_lower, &item_lower) {
            proof {
                lemma_first_hit_skip(views, hit, 0, i as int);
            }
            return Err(concat3(prefix, item, suffix));
        }
        i += 1;
    }
    proof {
        lemma_first_hit_skip(views, hit, 0, i as int);
    }
    Ok(())
}

/// Whether the text whose lowercase characters are `text_lower` holds `word`.
fn holds_word(text_lower: &Vec<char>, word: &str) -> (found: bool)
    ensures
        found == is_substring(word@, text_lower@),
{
    let w = chars_of(word);
    contains_chars(text_lower, &w)
}

/// Evaluates one rule against a plan in the deterministic phase. The
/// optional response text serves the rules that look at the output.
pub fn check_rule(rule: &PolicyRule, plan: &AgentPlan, response: Option<&str>) -> (r: Result<
    (),
    String,
>)
    ensures
        match r {
            Ok(_) => rule_violation(
                rule.rule_type.deep_view(),
                plan_context(plan.deep_view(), response_view(response)),
            ) is None,
            Err(e) => rule_violation(
                rule.rule_type.deep_view(),
                plan_context(plan.deep_view(), response_view(response)),
            ) == Some(e@),
        },
{
    let ghost ctx = plan_context(plan.deep_view(), response_view(response));
    match &rule.rule_type {
        PolicyRuleType::ProhibitedKeywords { keywords } => check_keywords(
            keywords,
            plan,
            Ghost(ctx),
        ),
        PolicyRuleType::RequiredAbsentPatterns { patterns } => {
            let query_lower = lowercase_chars(plan.user_query.as_str());
            scan_items(
                patterns,
                &query_lower,
                "Prohibited pattern '",
                "' found",
                Ghost(pattern_hits(ctx)),
            )
        },
        PolicyRuleType::OutputRestriction { max_raw_items: _, require_aggregation } => {
            if let Some(resp) = response {
                if *require_aggregation {
                    let resp_lower = lowercase_chars(resp);
                    let has_aggregation = holds_word(&resp_lower, "total") || holds_word(
                        &resp_lower,
                        "average",
                    ) || holds_word(&resp_lower, "summary") || holds_word(
                        &resp_lower,
                        "aggregated",
                    );
                    if !has_aggregation {
                        return Err("Response should contain aggregated data".to_owned());
                    }
                }
            }
            Ok(())
        },
        PolicyRuleType::NoIdentityInference { prohibited_terms } => {
            let query_lower = lowercase_chars(plan.user_query.as_str());
            let in_query = scan_items(
                prohibited_terms,
                &query_lower,
                "Identity inference term '",
                "' found",
                Ghost(term_query_hits(ctx)),
            );
            if in_query.is_err() {
                return in_query;
            }
            if let Some(resp) = response {
                let resp_lower = lowercase_chars(resp);
                scan_items(
                    prohibited_terms,
                    &resp_lower,
                    "Identity inference term '",
                    "' found in response",
                    Ghost(term_response_hits(ctx)),
                )
            } else {
                proof {
                    let items = prohibited_terms.deep_view();
                    lemma_first_hit_skip(items, term_response_hits(ctx), 0, items.len() as int);
                }
                Ok(())
            }
        },
        PolicyRuleType::RequireAttribution { require_source, require_timestamp } => {
            if let Some(resp) = response {
                let resp_lower = lowercase_chars(resp);
                if *require_source {
                    let has_source = holds_word(&resp_lower, "according to") || holds_word(
                        &resp_lower,
                        "source:",
                    ) || holds_word(&resp_lower, "from");
                    if !has_source {
                        return Err("Response must include source attribution".to_owned());
                    }
                }
                if *require_timestamp {
                    let has_timestamp = holds_word(&resp_lower, "as of") || holds_word(
                        &resp_lower,
                        "timestamp",
                    ) || holds_word(&resp_lower, "utc") || holds_word(&resp_lower, "time:");
                    if !has_timestamp {
                        return Err("Response must include timestamp".to_owned());
                    }
                }
            }
            Ok(())
        },
        PolicyRuleType::LLMCompliance { .. } => Ok(()),
    }
}

/// A rule that complained, with its complaint.
pub struct RuleHit {
    pub rule_id: Seq<char>,
    pub detail: Seq<char>,
}

/// A policy whose rule complained.
pub struct Violation {
    pub policy_id: Seq<char>,
    pub policy_name: Seq<char>,
    pub rule_id: Seq<char>,
    pub detail: Seq<char>,
}

/// The first complaint among `rules[from..]`, in declared order.
pub open spec fn rules_violation(rules: Seq<PolicyRuleView>, ctx: RuleContext, from: int) -> Option<
    RuleHit,
>
    decreases rules.len() - from,
{
    if from < 0 || from >= rules.len() {
        None
    } else if rule_violation(rules[from].rule_type, ctx) is Some {
        Some(
            RuleHit {
                rule_id: rules[from].id,
                detail: rule_violation(rules[from].rule_type, ctx)->0,
            },
        )
    } else {
        rules_violation(rules, ctx, from + 1)
    }
}

/// The first complaint among the deterministic methods of `methods[from..]`,
/// in declared order.
pub open spec fn methods_violation(
    methods: Seq<PolicyMethodView>,
    ctx: RuleContext,
    from: int,
) -> Option<RuleHit>
    decreases methods.len() - from,
{
    if from < 0 || from >= methods.len() {
        None
    } else if methods[from].method is Deterministic && rules_violation(methods[from].rules, ctx, 0)
        is Some {
        rules_violation(methods[from].rules, ctx, 0)
    } else {
        methods_violation(methods, ctx, from + 1)
    }
}

/// The first violation among `policies[from..]`, in declared order.
pub open spec fn policies_violation(
    policies: Seq<PolicyView>,
    ctx: RuleContext,
    from: int,
) -> Option<Violation>
    decreases policies.len() - from,
{
    if from < 0 || from >= policies.len() {
        None
    } else if methods_violation(policies[from].methods, ctx, 0) is Some {
        let hit = methods_violation(policies[from].methods, ctx, 0)->0;
        Some(
            Violation {
                policy_id: policies[from].id,
                policy_name: policies[from].name,
                rule_id: hit.rule_id,
                detail: hit.detail,
            },
        )
    } else {
        policies_violation(policies, ctx, from + 1)
    }
}

/// The reason that a plan check gives for a violation.
pub open spec fn plan_reason(v: Violation) -> Seq<char> {
    "Policy '"@ + v.policy_id + "' ("@ + v.policy_name + ") rule '"@ + v.rule_id + "' violated: "@
        + v.detail
}

/// The reason that a tool check gives for a violation.
pub open spec fn tool_reason(tool_name: Seq<char>, v: Violation) -> Seq<char> {
    "Tool '"@ + tool_name + "' policy '"@ + v.policy_id + "' ("@ + v.policy_name + ") rule '"@
        + v.rule_id + "' violated: "@ + v.detail
}

/// The reason that a tool check gives for a policy ID that names no policy.
pub open spec fn missing_policy_reason(policy_id: Seq<char>, tool_name: Seq<char>) -> Seq<char> {
    "Policy '"@ + policy_id + "' not found for tool '"@ + tool_name + "'"@
}

/// What a tool check scans: the user query and the arguments of the one
/// call, with an empty system prompt and no response.
pub open spec fn tool_context(user_query: Seq<char>, tool_arguments: Seq<char>) -> RuleContext {
    RuleContext {
        query: user_query,
        system_prompt: Seq::empty(),
        arguments: seq![tool_arguments],
        response: None,
    }
}

/// The first failure among the policies that `ids[from..]` name, in order:
/// an id that names no policy fails, and so does a policy whose
/// deterministic rule complains.
pub open spec fn tool_failure(
    policies: Seq<PolicyView>,
    ids: Seq<Seq<char>>,
    tool_name: Seq<char>,
    ctx: RuleContext,
    from: int,
) -> Option<Seq<char>>
    decreases ids.len() - from,
{
    if from < 0 || from >= ids.len() {
        None
    } else {
        match find_policy(policies, ids[from], 0) {
            None => Some(missing_policy_reason(ids[from], tool_name)),
            Some(p) => match methods_violation(policies[p].methods, ctx, 0) {
                Some(hit) => Some(
                    tool_reason(
                        tool_name,
                        Violation {
                            policy_id: policies[p].id,
                            policy_name: policies[p].name,
                            rule_id: hit.rule_id,
                            detail: hit.detail,
                        },
                    ),
                ),
                None => tool_failure(policies, ids, tool_name, ctx, from + 1),
            },
        }
    }
}

/// No deterministic rule of any policy complains.
pub open spec fn no_rule_matches(policies: Seq<PolicyView>, ctx: RuleContext) -> bool {
    forall|p: int, m: int, r: int|
        0 <= p < policies.len() && 0 <= m < policies[p].methods.len() && 0 <= r
            < policies[p].methods[m].rules.len() && policies[p].methods[m].method is Deterministic
            ==> rule_violation(#[trigger] policies[p].methods[m].rules[r].rule_type, ctx) is None
}

/// The rules from `from` on raise nothing exactly when none of them
/// complains; a complaint that is raised comes from one of them.
pub proof fn lemma_rules_violation(rules: Seq<PolicyRuleView>, ctx: RuleContext, from: int)
    requires
        0 <= from,
    ensures
        rules_violation(rules, ctx, from) is None <==> forall|r: int|
            from <= r < rules.len() ==> rule_violation(#[trigger] rules[r].rule_type, ctx) is None,
    decreases rules.len() - from,
{
    if from < rules.len() {
        lemma_rules_violation(rules, ctx, from + 1);
        if rule_violation(rules[from].rule_type, ctx) is None {
            assert forall|r: int| from <= r < rules.len() && (forall|q: int|
                from + 1 <= q < rules.len() ==> rule_violation(
                    #[trigger] rules[q].rule_type,
                    ctx,
                ) is None) implies rule_violation(#[trigger] rules[r].rule_type, ctx) is None by {
                if r > from {
                    assert(rule_violation(rules[r].rule_type, ctx) is None);
                }
            }
        }
    }
}

/// The methods from `from` on raise nothing exactly when no rule of a
/// deterministic one among them complains.
pub proof fn lemma_methods_violation(methods: Seq<PolicyMethodView>, ctx: RuleContext, from: int)
    requires
        0 <= from,
    ensures
        methods_violation(methods, ctx, from) is None <==> forall|m: int, r: int|
            from <= m < methods.len() && 0 <= r < methods[m].rules.len()
                && methods[m].method is Deterministic ==> rule_violation(
                #[trigger] methods[m].rules[r].rule_type,
                ctx,
            ) is None,
    decreases methods.len() - from,
{
    if from < methods.len() {
        lemma_methods_violation(methods, ctx, from + 1);
        lemma_rules_violation(methods[from].rules, ctx, 0);
        if methods_violation(methods, ctx, from) is None {
            assert forall|m: int, r: int|
                from <= m < methods.len() && 0 <= r < methods[m].rules.len()
                    && methods[m].method is Deterministic implies rule_violation(
                #[trigger] methods[m].rules[r].rule_type,
                ctx,
            ) is None by {
                if m == from {
                    assert(rule_violation(methods[from].rules[r].rule_type, ctx) is None);
                }
            }
        }
    }
}

/// A set of policies raises no violation exactly when no deterministic rule
/// of any of them complains.
pub proof fn lemma_policies_violation(policies: Seq<PolicyView>, ctx: RuleContext, from: int)
    requires
        0 <= from,
    ensures
        policies_violation(policies, ctx, from) is None <==> forall|p: int, m: int, r: int|
            from <= p < policies.len() && 0 <= m < policies[p].methods.len() && 0 <= r
                < policies[p].methods[m].rules.len()
                && policies[p].methods[m].method is Deterministic ==> rule_violation(
                #[trigger] policies[p].methods[m].rules[r].rule_type,
                ctx,
            ) is None,
    decreases policies.len() - from,
{
    if from < policies.len() {
        lemma_policies_violation(policies, ctx, from + 1);
        lemma_methods_violation(policies[from].methods, ctx, 0);
        if policies_violation(policies, ctx, from) is None {
            assert forall|p: int, m: int, r: int|
                from <= p < policies.len() && 0 <= m < policies[p].methods.len() && 0 <= r
                    < policies[p].methods[m].rules.len()
                    && policies[p].methods[m].method is Deterministic implies rule_violation(
                #[trigger] policies[p].methods[m].rules[r].rule_type,
                ctx,
            ) is None by {
                if p == from {
                    assert(rule_violation(policies[from].methods[m].rules[r].rule_type, ctx)
                        is None);
                }
            }
        }
    }
}

/// A plan is compliant if and only if no deterministic rule matches: the
/// search for the first violation comes back empty exactly when every
/// deterministic rule of every policy raises nothing against the plan.
pub proof fn lemma_compliant_iff_no_rule_matches(policies: Seq<PolicyView>, plan: AgentPlanView)
    ensures
        policies_violation(policies, plan_context(plan, None), 0) is None <==> no_rule_matches(
            policies,
            plan_context(plan, None),
        ),
{
    lemma_policies_violation(policies, plan_context(plan, None), 0);
}

/// Under the default policies, a plan whose query mentions "should buy" is
/// refused, with this reason, and the reason names "should buy".
pub open spec fn should_buy_reason() -> Seq<char> {
    plan_reason(
        Violation {
            policy_id: "L1"@,
            policy_name: "No personalized investment advice"@,
            rule_id: "no_investment_advice_keywords"@,
            detail: "Prohibited keyword '"@ + "should buy"@ + "' found in user query"@,
        },
    )
}

/// Under the default policies, a plan whose query mentions "should buy" is
/// refused, and the reason given names "should buy".
pub proof fn lemma_should_buy_is_refused(plan: AgentPlanView)
    requires
        mentions(plan.user_query, "should buy"@),
    ensures
        policies_violation(default_policies(), plan_context(plan, None), 0) is Some,
        plan_reason(policies_violation(default_policies(), plan_context(plan, None), 0)->0)
            == should_buy_reason(),
        is_substring("should buy"@, should_buy_reason()),
{
    let ctx = plan_context(plan, None);
    let l1 = default_policies()[0];
    let rules = l1.methods[0].rules;
    let keywords = rules[0].rule_type->keywords;
    assert(keywords[0] == "should buy"@);
    assert(keyword_hit(ctx, keywords[0]) is Some);
    assert(keyword_hits(ctx)(keywords[0]) == keyword_hit(ctx, keywords[0]));
    assert(first_hit(keywords, keyword_hits(ctx), 0) == keyword_hit(ctx, "should buy"@));
    assert(rule_violation(rules[0].rule_type, ctx) == keyword_hit(ctx, "should buy"@));
    assert(rules_violation(rules, ctx, 0) is Some);
    assert(methods_violation(l1.methods, ctx, 0) == rules_violation(rules, ctx, 0));
    assert(policies_violation(default_policies(), ctx, 0) is Some);
    let before = "Policy '"@ + "L1"@ + "' ("@ + "No personalized investment advice"@
        + ") rule '"@ + "no_investment_advice_keywords"@ + "' violated: "@
        + "Prohibited keyword '"@;
    let after = "' found in user query"@;
    lemma_middle_is_substring(before, "should buy"@, after);
    assert(should_buy_reason() =~= before + "should buy"@ + after);
}

/// The policy hash of a list of policies.
pub open spec fn policy_digest(policies: Seq<PolicyView>) -> Seq<u8> {
    blake3_digest(policies_preimage(policies, policies.len() as int))
}

/// The policy hash of the default registry is one fixed value: two checkers
/// over the default policies hash alike, whenever and wherever they were
/// made.
pub proof fn lemma_default_policy_hash_is_fixed(first: ComplianceChecker, second: ComplianceChecker)
    requires
        first.spec_policies() == default_policies(),
        second.spec_policies() == default_policies(),
    ensures
        policy_digest(first.spec_policies()) == policy_digest(default_policies()),
        policy_digest(first.spec_policies()) == policy_digest(second.spec_policies()),
{
}

/// Evaluates the rules of one method, in order.
pub(crate) fn check_rules(rules: &Vec<PolicyRule>, plan: &AgentPlan) -> (hit: Option<
    (String, String),
>)
    ensures
        match hit {
            None => rules_violation(rules.deep_view(), plan_context(plan.deep_view(), None), 0)
                is None,
            Some((rule_id, detail)) => rules_violation(
                rules.deep_view(),
                plan_context(plan.deep_view(), None),
                0,
            ) == Some(RuleHit { rule_id: rule_id@, detail: detail@ }),
        },
{
    let ghost views = rules.deep_view();
    let ghost ctx = plan_context(plan.deep_view(), None);
    let mut i: usize = 0;
    while i < rules.len()
        invariant
            i <= rules.len(),
            views == rules.deep_view(),
            ctx == plan_context(plan.deep_view(), None),
            rules_violation(views, ctx, 0) == rules_violation(views, ctx, i as int),
        decreases rules.len() - i,
    {
        assert(views[i as int] == rules[i as int].deep_view());
        assert(response_view(None) == None::<Seq<char>>);
        if let Err(detail) = check_rule(&rules[i], plan, None) {
            return Some((rules[i].id.clone(), detail));
        }
        i += 1;
    }
    None
}

/// Evaluates the deterministic methods of one policy, in order.
fn check_methods(methods: &Vec<PolicyMethod>, plan: &AgentPlan) -> (hit: Option<(String, String)>)
    ensures
        match hit {
            None => methods_violation(methods.deep_view(), plan_context(plan.deep_view(), None), 0)
                is None,
            Some((rule_id, detail)) => methods_violation(
                methods.deep_view(),
                plan_context(plan.deep_view(), None),
                0,
            ) == Some(RuleHit { rule_id: rule_id@, detail: detail@ }),
        },
{
    let ghost views = methods.deep_view();
    let ghost ctx = plan_context(plan.deep_view(), None);
    let mut i: usize = 0;
    while i < methods.len()
        invariant
            i <= methods.len(),
            views == methods.deep_view(),
            ctx == plan_context(plan.deep_view(), None),
            methods_violation(views, ctx, 0) == methods_violation(views, ctx, i as int),
        decreases methods.len() - i,
    {
        assert(views[i as int] == methods[i as int].deep_view());
        match methods[i].method {
            ComplianceMethod::Deterministic => {
                let hit = check_rules(&methods[i].rules, plan);
                if hit.is_some() {
                    return hit;
                }
            },
            ComplianceMethod::LLMBased => {},
        }
        i += 1;
    }
    None
}

/// The plan that the rules are evaluated against for one tool call: the
/// user query and the one call, with an empty system prompt.
pub(crate) fn one_call_plan(tool_name: &str, user_query: &str, tool_arguments: &str) -> (plan:
    AgentPlan)
    ensures
        plan_context(plan.deep_view(), None) == tool_context(user_query@, tool_arguments@),
{
    let call = ToolCall {
        id: Uuid::now_v7(),
        tool_name: tool_name.to_owned(),
        arguments: tool_arguments.to_owned(),
        timestamp: Timestamp::now(),
        compliance_quote: None,
    };
    let plan = AgentPlan {
        system_prompt: String::new(),
        user_query: user_query.to_owned(),
        thought_process: Vec::new(),
        intended_tool_calls: vec![call],
    };
    assert(plan_context(plan.deep_view(), None) =~= tool_context(user_query@, tool_arguments@)) by {
        assert(call_arguments(plan.intended_tool_calls.deep_view()) =~= seq![tool_arguments@]);
    }
    plan
}

/// Compliance checker for agent executions
pub struct ComplianceChecker {
    policies: Vec<Policy>,
    /// Many-to-many mapping: tool_name -> list of policy IDs
    tool_policy_map: ToolPolicyMap,
}

impl ComplianceChecker {
    /// The policies of the checker, in declared order.
    pub closed spec fn spec_policies(&self) -> Seq<PolicyView> {
        self.policies.deep_view()
    }

    /// The mapping from tool name to policy IDs.
    pub closed spec fn spec_tool_policies(&self) -> Map<Seq<char>, Seq<Seq<char>>> {
        self.tool_policy_map@
    }

    /// The policy IDs that gate `tool_name`: none where the tool is not bound.
    pub open spec fn spec_policy_ids(&self, tool_name: Seq<char>) -> Seq<Seq<char>> {
        if self.spec_tool_policies().contains_key(tool_name) {
            self.spec_tool_policies()[tool_name]
        } else {
            Seq::empty()
        }
    }

    /// What the deterministic gate answers for one tool call: the reason of
    /// the first failure, or nothing where the call passes.
    pub open spec fn spec_tool_check(
        &self,
        tool_name: Seq<char>,
        user_query: Seq<char>,
        tool_arguments: Seq<char>,
    ) -> Option<Seq<char>> {
        tool_failure(
            self.spec_policies(),
            self.spec_policy_ids(tool_name),
            tool_name,
            tool_context(user_query, tool_arguments),
            0,
        )
    }

    /// Create a new compliance checker with given policies and tool-policy mapping
    pub fn new(policies: Vec<Policy>, tool_policy_map: ToolPolicyMap) -> (checker: Self)
        ensures
            checker.spec_policies() == policies.deep_view(),
            checker.spec_tool_policies() == tool_policy_map@,
    {
        Self { policies, tool_policy_map }
    }

    /// Create a default compliance checker with the L1-L4 policies and T1-T4 tool mappings
    pub fn default_crypto_policy() -> (checker: Self)
        ensures
            checker.spec_policies() == default_policies(),
            checker.spec_tool_policies() == default_tool_policies(),
    {
        let registry = PolicyRegistry::default_crypto_policy();
        let (policies, tool_policy_map) = registry.clone_data();
        Self { policies, tool_policy_map }
    }

    /// Get policy IDs for a given tool
    pub fn get_policy_ids_for_tool(&self, tool_name: &str) -> (ids: Vec<String>)
        ensures
            ids.deep_view() == self.spec_policy_ids(tool_name@),
    {
        match self.tool_policy_map.get(tool_name) {
            Some(ids) => clone_strings(ids),
            None => {
                let ids: Vec<String> = Vec::new();
                assert(ids.deep_view() =~= Seq::<Seq<char>>::empty());
                ids
            },
        }
    }

    /// Hash plan for attestation
    pub fn hash_plan(&self, plan: &AgentPlan) -> (digest: [u8; 32])
        ensures
            digest@ == blake3_digest(plan_preimage(plan.deep_view())),
    {
        let bytes = plan_bytes(plan);
        blake3_hash(bytes.as_slice())
    }

    /// Hash policies for attestation
    pub fn hash_policies(&self) -> (digest: [u8; 32])
        ensures
            digest@ == policy_digest(self.spec_policies()),
    {
        let bytes = policies_bytes(&self.policies);
        blake3_hash(bytes.as_slice())
    }

    /// Check if plan complies with all policies: every deterministic rule of
    /// every policy is evaluated in declared order and the first violation
    /// is reported.
    pub fn check_compliance(&self, plan: &AgentPlan) -> (r: Result<ComplianceResult, String>)
        ensures
            r is Ok,
            r->Ok_0.policy_hash@ == hex_lower(policy_digest(self.spec_policies())),
            r->Ok_0.plan_hash@ == hex_lower(blake3_digest(plan_preimage(plan.deep_view()))),
            match policies_violation(
                self.spec_policies(),
                plan_context(plan.deep_view(), None),
                0,
            ) {
                None => r->Ok_0.compliant && r->Ok_0.reason@ == "All policy checks passed"@,
                Some(v) => !r->Ok_0.compliant && r->Ok_0.reason@ == plan_reason(v),
            },
            r->Ok_0.compliant <==> no_rule_matches(
                self.spec_policies(),
                plan_context(plan.deep_view(), None),
            ),
    {
        proof {
            lemma_compliant_iff_no_rule_matches(self.spec_policies(), plan.deep_view());
        }
        let plan_hash = self.hash_plan(plan);
        let policy_hash = self.hash_policies();
        let ghost views = self.policies.deep_view();
        let ghost ctx = plan_context(plan.deep_view(), None);

        let mut i: usize = 0;
        while i < self.policies.len()
            invariant
                i <= self.policies.len(),
                views == self.policies.deep_view(),
                ctx == plan_context(plan.deep_view(), None),
                policies_violation(views, ctx, 0) == policies_violation(views, ctx, i as int),
                policies_violation(views, ctx, 0) is None <==> no_rule_matches(views, ctx),
                plan_hash@ == blake3_digest(plan_preimage(plan.deep_view())),
                policy_hash@ == policy_digest(views),
            decreases self.policies.len() - i,
        {
            let policy = &self.policies[i];
            assert(views[i as int] == policy.deep_view());
            if let Some((rule_id, detail)) = check_methods(&policy.methods, plan) {
                let mut reason = "Policy '".to_owned();
                reason.append(policy.id.as_str());
                reason.append("' (");
                reason.append(policy.name.as_str());
                reason.append(") rule '");
                reason.append(rule_id.as_str());
                reason.append("' violated: ");
                reason.append(detail.as_str());
                return Ok(
                    ComplianceResult {
                        compliant: false,
                        reason,
                        policy_hash: encode(policy_hash.as_slice()),
                        plan_hash: encode(plan_hash.as_slice()),
                    },
                );
            }
            i += 1;
        }

        Ok(
            ComplianceResult {
                compliant: true,
                reason: "All policy checks passed".to_owned(),
                policy_hash: encode(policy_hash.as_slice()),
                plan_hash: encode(plan_hash.as_slice()),
            },
        )
    }

    /// Check compliance for a specific tool call against its policies.
    /// Returns Ok(()) if compliant, Err(reason) if not. A tool without
    /// policy bindings passes.
    pub fn check_tool_compliance(
        &self,
        tool_name: &str,
        user_query: &str,
        tool_arguments: &str,
    ) -> (r: Result<(), String>)
        ensures
            match r {
                Ok(_) => self.spec_tool_check(tool_name@, user_query@, tool_arguments@) is None,
                Err(reason) => self.spec_tool_check(tool_name@, user_query@, tool_arguments@)
                    == Some(reason@),
            },
            !self.spec_tool_policies().contains_key(tool_name@) ==> r is Ok,
    {
        let policy_ids = self.get_policy_ids_for_tool(tool_name);
        let ghost ids = policy_ids.deep_view();
        let ghost views = self.policies.deep_view();
        let ghost ctx = tool_context(user_query@, tool_arguments@);

        let temp_plan = one_call_plan(tool_name, user_query, tool_arguments);

        let mut i: usize = 0;
        while i < policy_ids.len()
            invariant
                i <= policy_ids.len(),
                ids == policy_ids.deep_view(),
                ids == self.spec_policy_ids(tool_name@),
                views == self.policies.deep_view(),
                ctx == plan_context(temp_plan.deep_view(), None),
                ctx == tool_context(user_query@, tool_arguments@),
                tool_failure(views, ids, tool_name@, ctx, 0) == tool_failure(
                    views,
                    ids,
                    tool_name@,
                    ctx,
                    i as int,
                ),
            decreases policy_ids.len() - i,
        {
            let policy_id = policy_ids[i].as_str();
            assert(ids[i as int] == policy_id@);
            match position_of_policy(&self.policies, policy_id) {
                None => {
                    let mut reason = "Policy '".to_owned();
                    reason.append(policy_id);
                    reason.append("' not found for tool '");
                    reason.append(tool_name);
                    reason.append("'");
                    return Err(reason);
                },
                Some(p) => {
                    let policy = &self.policies[p];
                    assert(views[p as int] == policy.deep_view());
                    if let Some((rule_id, detail)) = check_methods(&policy.methods, &temp_plan) {
                        let mut reason = "Tool '".to_owned();
                        reason.append(tool_name);
                        reason.append("' policy '");
                        reason.append(policy.id.as_str());
                        reason.append("' (");
                        reason.append(policy.name.as_str());
                        reason.append(") rule '");
                        reason.append(rule_id.as_str());
                        reason.append("' violated: ");
                        reason.append(detail.as_str());
                        return Err(reason);
                    }
                },
            }
            i += 1;
        }

        Ok(())
    }

    /// Get the policies
    pub fn policies(&self) -> (policies: &Vec<Policy>)
        ensures
            policies.deep_view() == self.spec_policies(),
    {
        &self.policies
    }
}

} // verus!
