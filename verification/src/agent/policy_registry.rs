//! The policy registry, the tool-policy mapping, and the default policy set.

use vstd::prelude::*;
use crate::agent::compliance::{
    clone_policies, clone_strings, find_policy, position_of_policy, ComplianceMethod, Policy,
    PolicyMethod, PolicyMethodView, PolicyRule, PolicyRuleType, PolicyRuleView, PolicyView,
    RuleSpec,
};
use crate::text::str_eq;

verus! {

/// Policy information with ID and name
#[derive(Debug, Clone)]
pub struct PolicyInfo {
    pub id: String,
    pub name: String,
}

impl PolicyInfo {
    pub fn new(id: &str, name: &str) -> (info: Self)
        ensures
            info.id@ == id@,
            info.name@ == name@,
    {
        Self { id: id.to_owned(), name: name.to_owned() }
    }
}

/// One tool with the policies that gate it, in declared order.
#[derive(Debug)]
pub struct ToolPolicyBinding {
    pub tool_name: String,
    pub policy_ids: Vec<String>,
}

impl Clone for ToolPolicyBinding {
    fn clone(&self) -> (copy: Self)
        ensures
            copy.tool_name@ == self.tool_name@,
            copy.policy_ids.deep_view() == self.policy_ids.deep_view(),
    {
        ToolPolicyBinding {
            tool_name: self.tool_name.clone(),
            policy_ids: clone_strings(&self.policy_ids),
        }
    }
}

/// The mapping from tool name to policy IDs. A tool name is bound at most
/// once: binding it again replaces what it was bound to.
#[derive(Debug)]
pub struct ToolPolicyMap {
    entries: Vec<ToolPolicyBinding>,
}

/// The first position at or after `from` whose binding is for `name`.
pub open spec fn first_binding(
    entries: Seq<ToolPolicyBinding>,
    name: Seq<char>,
    from: int,
) -> Option<int>
    decreases entries.len() - from,
{
    if from < 0 || from >= entries.len() {
        None
    } else if entries[from].tool_name@ == name {
        Some(from)
    } else {
        first_binding(entries, name, from + 1)
    }
}

/// What `first_binding` finds lies in range, is for `name`, and is the first
/// such; where it finds nothing, no binding from `from` on is for `name`.
pub proof fn lemma_first_binding(entries: Seq<ToolPolicyBinding>, name: Seq<char>, from: int)
    requires
        0 <= from,
    ensures
        match first_binding(entries, name, from) {
            Some(i) => from <= i < entries.len() && entries[i].tool_name@ == name && forall|j: int|
                from <= j < i ==> (#[trigger] entries[j]).tool_name@ != name,
            None => forall|j: int|
                from <= j < entries.len() ==> (#[trigger] entries[j]).tool_name@ != name,
        },
    decreases entries.len() - from,
{
    if from < entries.len() && entries[from].tool_name@ != name {
        lemma_first_binding(entries, name, from + 1);
    }
}

/// A position that is for `name`, with none before it, is what
/// `first_binding` finds.
pub proof fn lemma_first_binding_is(
    entries: Seq<ToolPolicyBinding>,
    name: Seq<char>,
    from: int,
    at: int,
)
    requires
        0 <= from <= at < entries.len(),
        entries[at].tool_name@ == name,
        forall|j: int| from <= j < at ==> (#[trigger] entries[j]).tool_name@ != name,
    ensures
        first_binding(entries, name, from) == Some(at),
    decreases at - from,
{
    if from < at {
        lemma_first_binding_is(entries, name, from + 1, at);
    }
}

/// Where no binding from `from` on is for `name`, `first_binding` finds
/// nothing.
pub proof fn lemma_first_binding_none(entries: Seq<ToolPolicyBinding>, name: Seq<char>, from: int)
    requires
        0 <= from,
        forall|j: int| from <= j < entries.len() ==> (#[trigger] entries[j]).tool_name@ != name,
    ensures
        first_binding(entries, name, from) is None,
    decreases entries.len() - from,
{
    if from < entries.len() {
        lemma_first_binding_none(entries, name, from + 1);
    }
}

/// The mapping that a list of bindings stands for: the first binding of a
/// name counts.
pub open spec fn bindings_map(entries: Seq<ToolPolicyBinding>) -> Map<Seq<char>, Seq<Seq<char>>> {
    Map::new(
        |name: Seq<char>| first_binding(entries, name, 0) is Some,
        |name: Seq<char>| entries[first_binding(entries, name, 0)->0].policy_ids.deep_view(),
    )
}

impl View for ToolPolicyMap {
    type V = Map<Seq<char>, Seq<Seq<char>>>;

    closed spec fn view(&self) -> Map<Seq<char>, Seq<Seq<char>>> {
        bindings_map(self.entries@)
    }
}

/// Lists that agree, position by position, on names and policy IDs stand
/// for the same mapping.
pub proof fn lemma_bindings_map_same(a: Seq<ToolPolicyBinding>, b: Seq<ToolPolicyBinding>)
    requires
        a.len() == b.len(),
        forall|i: int|
            0 <= i < a.len() ==> (#[trigger] a[i]).tool_name@ == b[i].tool_name@
                && a[i].policy_ids.deep_view() == b[i].policy_ids.deep_view(),
    ensures
        bindings_map(a) == bindings_map(b),
{
    assert forall|k: Seq<char>| first_binding(a, k, 0) == first_binding(b, k, 0) by {
        lemma_first_binding(a, k, 0);
        match first_binding(a, k, 0) {
            Some(j) => {
                assert(b[j].tool_name@ == a[j].tool_name@);
                assert forall|i: int| 0 <= i < j implies (#[trigger] b[i]).tool_name@ != k by {
                    assert(a[i].tool_name@ == b[i].tool_name@);
                }
                lemma_first_binding_is(b, k, 0, j);
            },
            None => {
                assert forall|i: int| 0 <= i < b.len() implies (#[trigger] b[i]).tool_name@
                    != k by {
                    assert(a[i].tool_name@ == b[i].tool_name@);
                }
                lemma_first_binding_none(b, k, 0);
            },
        }
    }
    assert forall|k: Seq<char>| #[trigger] bindings_map(a).contains_key(k) implies bindings_map(
        a,
    )[k] == bindings_map(b)[k] by {
        lemma_first_binding(a, k, 0);
    }
    assert(bindings_map(a) =~= bindings_map(b));
}

impl Clone for ToolPolicyMap {
    fn clone(&self) -> (copy: Self)
        ensures
            copy@ == self@,
    {
        let entries = self.entries.clone();
        proof {
            lemma_bindings_map_same(entries@, self.entries@);
        }
        ToolPolicyMap { entries }
    }
}

impl ToolPolicyMap {
    /// The empty mapping.
    pub fn new() -> (map: Self)
        ensures
            map@ == Map::<Seq<char>, Seq<Seq<char>>>::empty(),
    {
        let map = ToolPolicyMap { entries: Vec::new() };
        assert(map@ =~= Map::<Seq<char>, Seq<Seq<char>>>::empty());
        map
    }

    /// The position of the binding of `tool_name`, if it is bound.
    fn position(&self, tool_name: &str) -> (at: Option<usize>)
        ensures
            match at {
                Some(i) => first_binding(self.entries@, tool_name@, 0) == Some(i as int) && i
                    < self.entries.len(),
                None => first_binding(self.entries@, tool_name@, 0) is None,
            },
    {
        let mut i: usize = 0;
        while i < self.entries.len()
            invariant
                i <= self.entries.len(),
                forall|j: int|
                    0 <= j < i ==> (#[trigger] self.entries@[j]).tool_name@ != tool_name@,
            decreases self.entries.len() - i,
        {
            if str_eq(self.entries[i].tool_name.as_str(), tool_name) {
                proof {
                    lemma_first_binding_is(self.entries@, tool_name@, 0, i as int);
                }
                return Some(i);
            }
            i += 1;
        }
        proof {
            lemma_first_binding_none(self.entries@, tool_name@, 0);
        }
        None
    }

    /// The policy IDs that `tool_name` is bound to, if it is bound.
    pub fn get(&self, tool_name: &str) -> (ids: Option<&Vec<String>>)
        ensures
            match ids {
                Some(v) => self@.contains_key(tool_name@) && v.deep_view() == self@[tool_name@],
                None => !self@.contains_key(tool_name@),
            },
    {
        match self.position(tool_name) {
            Some(i) => Some(&self.entries[i].policy_ids),
            None => None,
        }
    }

    /// Binds `tool_name` to `policy_ids`, in place of what it was bound to.
    pub fn insert(&mut self, tool_name: String, policy_ids: Vec<String>)
        ensures
            final(self)@ == old(self)@.insert(tool_name@, policy_ids.deep_view()),
    {
        let ghost before = self.entries@;
        let ghost name = tool_name@;
        let ghost ids = policy_ids.deep_view();
        match self.position(tool_name.as_str()) {
            Some(i) => {
                self.entries[i] = ToolPolicyBinding { tool_name, policy_ids };
                let ghost after = self.entries@;
                proof {
                    lemma_first_binding(before, name, 0);
                }
                assert(after.len() == before.len());
                assert(forall|j: int|
                    0 <= j < before.len() ==> (#[trigger] after[j]).tool_name@
                        == before[j].tool_name@);
                assert forall|k: Seq<char>|
                    first_binding(after, k, 0) == first_binding(before, k, 0) by {
                    lemma_first_binding(before, k, 0);
                    match first_binding(before, k, 0) {
                        Some(j) => {
                            lemma_first_binding_is(after, k, 0, j);
                        },
                        None => {
                            lemma_first_binding_none(after, k, 0);
                        },
                    }
                }
                assert forall|k: Seq<char>| #[trigger]
                    bindings_map(after).contains_key(k) implies bindings_map(after)[k]
                    == bindings_map(before).insert(name, ids)[k] by {
                    lemma_first_binding(before, k, 0);
                }
                assert(bindings_map(after) =~= bindings_map(before).insert(name, ids));
            },
            None => {
                self.entries.push(ToolPolicyBinding { tool_name, policy_ids });
                let ghost after = self.entries@;
                assert forall|k: Seq<char>|
                    first_binding(after, k, 0) == (if k == name {
                        Some(before.len() as int)
                    } else {
                        first_binding(before, k, 0)
                    }) by {
                    lemma_first_binding(before, k, 0);
                    lemma_first_binding(before, name, 0);
                    if k == name {
                        lemma_first_binding_is(after, k, 0, before.len() as int);
                    } else {
                        match first_binding(before, k, 0) {
                            Some(j) => {
                                lemma_first_binding_is(after, k, 0, j);
                            },
                            None => {
                                lemma_first_binding_none(after, k, 0);
                            },
                        }
                    }
                }
                assert forall|k: Seq<char>| #[trigger]
                    bindings_map(after).contains_key(k) implies bindings_map(after)[k]
                    == bindings_map(before).insert(name, ids)[k] by {
                    lemma_first_binding(before, k, 0);
                }
                assert(bindings_map(after) =~= bindings_map(before).insert(name, ids));
            },
        }
    }
}

/// Text of policy L1.
pub const L1_TEXT: &'static str =
    "The agent must not give personalized investment advice. It may explain concepts and describe markets in general terms, but it must not recommend what a specific user should buy/sell/hold, how to allocate their portfolio, or what concrete trades they should execute, given their personal situation or holdings.";

/// Text of policy L2.
pub const L2_TEXT: &'static str =
    "The agent may use raw tool data internally, but user-facing outputs must be aggregated or summarized (e.g., totals, averages, ranges, counts, small illustrative snippets). It must not return large raw dumps such as full tick-by-tick feeds, long transaction lists, or full order books.";

/// Text of policy L3.
pub const L3_TEXT: &'static str =
    "The agent must not attempt to infer or assert real-world identities behind wallet addresses, nor encourage harassment or targeting of specific wallets. It may use labels explicitly provided by tools (e.g., \"this is a known centralized exchange hot wallet\") but must not guess that an address belongs to a named person or organization unless that information is explicitly and legitimately public and provided.";

/// Text of policy L4.
pub const L4_TEXT: &'static str =
    "Whenever the agent uses data from a tool in its answer, it must clearly attribute the source and include a time reference. For example: \"According to PriceFeedTool (data as of 2025-11-20 10:00 UTC), BTC's price is \u{e2}\u{20ac}\u{a6}\". Attribution must be present for each distinct tool whose data is used.";

/// A method that asks the language model one question.
pub open spec fn llm_method(rule_id: Seq<char>, check_prompt: Seq<char>) -> PolicyMethodView {
    PolicyMethodView {
        method: ComplianceMethod::LLMBased,
        rules: seq![
            PolicyRuleView {
                id: rule_id,
                rule_type: RuleSpec::LLMCompliance { check_prompt },
                parameters: "{}"@,
            },
        ],
    }
}

/// A deterministic method of one rule.
pub open spec fn deterministic_method(rule_id: Seq<char>, rule_type: RuleSpec) -> PolicyMethodView {
    PolicyMethodView {
        method: ComplianceMethod::Deterministic,
        rules: seq![PolicyRuleView { id: rule_id, rule_type, parameters: "{}"@ }],
    }
}

/// L1: no personalized investment advice.
pub open spec fn policy_l1() -> PolicyView {
    PolicyView {
        id: "L1"@,
        name: "No personalized investment advice"@,
        text: L1_TEXT@,
        methods: seq![
            deterministic_method(
                "no_investment_advice_keywords"@,
                RuleSpec::ProhibitedKeywords {
                    keywords: seq![
                        "should buy"@,
                        "should sell"@,
                        "should hold"@,
                        "recommend buying"@,
                        "recommend selling"@,
                        "suggest buying"@,
                        "suggest selling"@,
                        "you should invest"@,
                        "your portfolio"@,
                        "allocate your"@,
                    ],
                },
            ),
            llm_method(
                "llm_check_personalized_advice"@,
                "Does this query ask for personalized investment advice specific to a user's situation?"@,
            ),
        ],
    }
}

/// A method that asks the language model one question.
fn make_llm_method(rule_id: &str, check_prompt: &str) -> (method: PolicyMethod)
    ensures
        method.deep_view() == llm_method(rule_id@, check_prompt@),
{
    let rules = vec![
        PolicyRule {
            id: rule_id.to_owned(),
            rule_type: PolicyRuleType::LLMCompliance { check_prompt: check_prompt.to_owned() },
            parameters: "{}".to_owned(),
        },
    ];
    let method = PolicyMethod { method: ComplianceMethod::LLMBased, rules };
    assert(method.deep_view().rules =~= llm_method(rule_id@, check_prompt@).rules);
    method
}

/// A deterministic method of one rule.
fn make_deterministic_method(rule_id: &str, rule_type: PolicyRuleType) -> (method: PolicyMethod)
    ensures
        method.deep_view() == deterministic_method(rule_id@, rule_type.deep_view()),
{
    let rules = vec![PolicyRule { id: rule_id.to_owned(), rule_type, parameters: "{}".to_owned() }];
    let method = PolicyMethod { method: ComplianceMethod::Deterministic, rules };
    assert(method.deep_view().rules =~= deterministic_method(
        rule_id@,
        rule_type.deep_view(),
    ).rules);
    method
}

/// L1: no personalized investment advice.
fn make_policy_l1() -> (policy: Policy)
    ensures
        policy.deep_view() == policy_l1(),
{
    let keywords = vec![
        "should buy".to_owned(),
        "should sell".to_owned(),
        "should hold".to_owned(),
        "recommend buying".to_owned(),
        "recommend selling".to_owned(),
        "suggest buying".to_owned(),
        "suggest selling".to_owned(),
        "you should invest".to_owned(),
        "your portfolio".to_owned(),
        "allocate your".to_owned(),
    ];
    assert(keywords.deep_view() =~= policy_l1().methods[0].rules[0].rule_type->keywords);
    let methods = vec![
        make_deterministic_method(
            "no_investment_advice_keywords",
            PolicyRuleType::ProhibitedKeywords { keywords },
        ),
        make_llm_method(
            "llm_check_personalized_advice",
            "Does this query ask for personalized investment advice specific to a user's situation?",
        ),
    ];
    let policy = Policy {
        id: "L1".to_owned(),
        name: "No personalized investment advice".to_owned(),
        text: L1_TEXT.to_owned(),
        methods,
    };
    assert(policy.deep_view().methods =~= policy_l1().methods);
    policy
}

/// L2: aggregated outputs only.
pub open spec fn policy_l2() -> PolicyView {
    PolicyView {
        id: "L2"@,
        name: "Aggregated outputs only (no raw dumps)"@,
        text: L2_TEXT@,
        methods: seq![
            deterministic_method(
                "output_aggregation"@,
                RuleSpec::OutputRestriction {
                    max_raw_items: Some(10usize),
                    require_aggregation: true,
                },
            ),
            llm_method(
                "llm_check_raw_dump"@,
                "Does this query ask for raw data instead of aggregated/summarized information?"@,
            ),
        ],
    }
}

/// L3: no deanonymization of wallets.
pub open spec fn policy_l3() -> PolicyView {
    PolicyView {
        id: "L3"@,
        name: "No deanonymization / doxxing of wallets"@,
        text: L3_TEXT@,
        methods: seq![
            deterministic_method(
                "no_identity_inference"@,
                RuleSpec::NoIdentityInference {
                    prohibited_terms: seq![
                        "this wallet belongs to"@,
                        "owned by"@,
                        "likely owned by"@,
                        "probably belongs to"@,
                        "this address is"@,
                        "belongs to a person"@,
                        "identity of the wallet"@,
                    ],
                },
            ),
            llm_method(
                "llm_check_doxxing"@,
                "Does this query attempt to infer or assert real-world identities behind wallet addresses without explicit public information?"@,
            ),
        ],
    }
}

/// L4: source attribution and timestamp.
pub open spec fn policy_l4() -> PolicyView {
    PolicyView {
        id: "L4"@,
        name: "Source attribution & timestamp"@,
        text: L4_TEXT@,
        methods: seq![
            deterministic_method(
                "require_attribution"@,
                RuleSpec::RequireAttribution { require_source: true, require_timestamp: true },
            ),
            llm_method(
                "llm_check_attribution"@,
                "This policy can be enforced post-hoc. Simply return True"@,
            ),
        ],
    }
}

/// The default policies, in declared order.
pub open spec fn default_policies() -> Seq<PolicyView> {
    seq![policy_l1(), policy_l2(), policy_l3(), policy_l4()]
}

/// The default mapping from tool to policies.
pub open spec fn default_tool_policies() -> Map<Seq<char>, Seq<Seq<char>>> {
    Map::<Seq<char>, Seq<Seq<char>>>::empty().insert("PriceFeedTool"@, seq!["L1"@]).insert(
        "OnChainHistoryTool"@,
        seq!["L1"@, "L2"@, "L3"@],
    ).insert("SentimentTool"@, seq!["L1"@, "L4"@]).insert(
        "PortfolioTool"@,
        seq!["L1"@, "L2"@, "L3"@, "L4"@],
    )
}

/// L2: aggregated outputs only.
fn make_policy_l2() -> (policy: Policy)
    ensures
        policy.deep_view() == policy_l2(),
{
    let methods = vec![
        make_deterministic_method(
            "output_aggregation",
            PolicyRuleType::OutputRestriction {
                max_raw_items: Some(10),
                require_aggregation: true,
            },
        ),
        make_llm_method(
            "llm_check_raw_dump",
            "Does this query ask for raw data instead of aggregated/summarized information?",
        ),
    ];
    let policy = Policy {
        id: "L2".to_owned(),
        name: "Aggregated outputs only (no raw dumps)".to_owned(),
        text: L2_TEXT.to_owned(),
        methods,
    };
    assert(policy.deep_view().methods =~= policy_l2().methods);
    policy
}

/// L3: no deanonymization of wallets.
fn make_policy_l3() -> (policy: Policy)
    ensures
        policy.deep_view() == policy_l3(),
{
    let prohibited_terms = vec![
        "this wallet belongs to".to_owned(),
        "owned by".to_owned(),
        "likely owned by".to_owned(),
        "probably belongs to".to_owned(),
        "this address is".to_owned(),
        "belongs to a person".to_owned(),
        "identity of the wallet".to_owned(),
    ];
    assert(prohibited_terms.deep_view()
        =~= policy_l3().methods[0].rules[0].rule_type->prohibited_terms);
    let methods = vec![
        make_deterministic_method(
            "no_identity_inference",
            PolicyRuleType::NoIdentityInference { prohibited_terms },
        ),
        make_llm_method(
            "llm_check_doxxing",
            "Does this query attempt to infer or assert real-world identities behind wallet addresses without explicit public information?",
        ),
    ];
    let policy = Policy {
        id: "L3".to_owned(),
        name: "No deanonymization / doxxing of wallets".to_owned(),
        text: L3_TEXT.to_owned(),
        methods,
    };
    assert(policy.deep_view().methods =~= policy_l3().methods);
    policy
}

/// L4: source attribution and timestamp.
fn make_policy_l4() -> (policy: Policy)
    ensures
        policy.deep_view() == policy_l4(),
{
    let methods = vec![
        make_deterministic_method(
            "require_attribution",
            PolicyRuleType::RequireAttribution { require_source: true, require_timestamp: true },
        ),
        make_llm_method(
            "llm_check_attribution",
            "This policy can be enforced post-hoc. Simply return True",
        ),
    ];
    let policy = Policy {
        id: "L4".to_owned(),
        name: "Source attribution & timestamp".to_owned(),
        text: L4_TEXT.to_owned(),
        methods,
    };
    assert(policy.deep_view().methods =~= policy_l4().methods);
    policy
}

/// The `(id, name)` pairs of the policies that the first `n` of `ids` name,
/// in order; an id that names no policy is passed over.
pub open spec fn policy_infos(policies: Seq<PolicyView>, ids: Seq<Seq<char>>, n: int) -> Seq<
    (Seq<char>, Seq<char>),
>
    decreases n,
{
    if n <= 0 {
        Seq::empty()
    } else {
        let earlier = policy_infos(policies, ids, n - 1);
        match find_policy(policies, ids[n - 1], 0) {
            Some(p) => earlier.push((policies[p].id, policies[p].name)),
            None => earlier,
        }
    }
}

/// The `(id, name)` pairs of a list of `PolicyInfo`.
pub open spec fn info_pairs(infos: Seq<PolicyInfo>) -> Seq<(Seq<char>, Seq<char>)> {
    Seq::new(infos.len(), |i: int| (infos[i].id@, infos[i].name@))
}

/// Central registry for all policies and tool-policy mappings
pub struct PolicyRegistry {
    policies: Vec<Policy>,
    tool_policy_map: ToolPolicyMap,
}

impl PolicyRegistry {
    /// The policies of the registry, in declared order.
    pub closed spec fn spec_policies(&self) -> Seq<PolicyView> {
        self.policies.deep_view()
    }

    /// The mapping from tool name to policy IDs.
    pub closed spec fn spec_tool_policies(&self) -> Map<Seq<char>, Seq<Seq<char>>> {
        self.tool_policy_map@
    }

    /// The policy IDs that gate `tool_name`: none where the tool is not bound.
    pub open spec fn spec_policy_ids(&self, tool_name: Seq<char>) -> Seq<Seq<char>> {
        if self.spec_tool_policies().contains_key(tool_name) {
            self.spec_tool_policies()[tool_name]
        } else {
            Seq::empty()
        }
    }

    /// Create the default crypto policy registry with L1-L4 policies and T1-T4 tool mappings
    pub fn default_crypto_policy() -> (registry: Self)
        ensures
            registry.spec_policies() == default_policies(),
            registry.spec_tool_policies() == default_tool_policies(),
    {
        let policies = vec![make_policy_l1(), make_policy_l2(), make_policy_l3(), make_policy_l4()];
        assert(policies.deep_view() =~= default_policies());

        // Many-to-many mapping: T1-T4 -> L1-L4
        let mut tool_policy_map = ToolPolicyMap::new();
        let t1 = vec!["L1".to_owned()];
        assert(t1.deep_view() =~= seq!["L1"@]);
        tool_policy_map.insert("PriceFeedTool".to_owned(), t1);
        let t2 = vec!["L1".to_owned(), "L2".to_owned(), "L3".to_owned()];
        assert(t2.deep_view() =~= seq!["L1"@, "L2"@, "L3"@]);
        tool_policy_map.insert("OnChainHistoryTool".to_owned(), t2);
        let t3 = vec!["L1".to_owned(), "L4".to_owned()];
        assert(t3.deep_view() =~= seq!["L1"@, "L4"@]);
        tool_policy_map.insert("SentimentTool".to_owned(), t3);
        let t4 = vec!["L1".to_owned(), "L2".to_owned(), "L3".to_owned(), "L4".to_owned()];
        assert(t4.deep_view() =~= seq!["L1"@, "L2"@, "L3"@, "L4"@]);
        tool_policy_map.insert("PortfolioTool".to_owned(), t4);

        Self { policies, tool_policy_map }
    }

    /// Get all policies
    pub fn policies(&self) -> (policies: &Vec<Policy>)
        ensures
            policies.deep_view() == self.spec_policies(),
    {
        &self.policies
    }

    /// Get a policy by ID
    pub fn get_policy(&self, id: &str) -> (policy: Option<&Policy>)
        ensures
            match policy {
                Some(p) => find_policy(self.spec_policies(), id@, 0) is Some && p.deep_view()
                    == self.spec_policies()[find_policy(self.spec_policies(), id@, 0)->0],
                None => find_policy(self.spec_policies(), id@, 0) is None,
            },
    {
        match position_of_policy(&self.policies, id) {
            Some(i) => Some(&self.policies[i]),
            None => None,
        }
    }

    /// Get policy IDs for a given tool
    pub fn get_policy_ids_for_tool(&self, tool_name: &str) -> (ids: Vec<String>)
        ensures
            ids.deep_view() == self.spec_policy_ids(tool_name@),
    {
        match self.tool_policy_map.get(tool_name) {
            Some(ids) => clone_strings(ids),
            None => {
                let ids: Vec<String> = Vec::new();
                assert(ids.deep_view() =~= Seq::<Seq<char>>::empty());
                ids
            },
        }
    }

    /// Get policy information (ID and name) for a given tool
    pub fn get_policy_info_for_tool(&self, tool_name: &str) -> (infos: Vec<PolicyInfo>)
        ensures
            info_pairs(infos@) == policy_infos(
                self.spec_policies(),
                self.spec_policy_ids(tool_name@),
                self.spec_policy_ids(tool_name@).len() as int,
            ),
    {
        let policy_ids = self.get_policy_ids_for_tool(tool_name);
        let ghost ids = policy_ids.deep_view();
        let mut infos: Vec<PolicyInfo> = Vec::new();
        let mut i: usize = 0;
        assert(info_pairs(infos@) =~= policy_infos(self.spec_policies(), ids, 0));
        while i < policy_ids.len()
            invariant
                i <= policy_ids.len(),
                ids == policy_ids.deep_view(),
                info_pairs(infos@) == policy_infos(self.spec_policies(), ids, i as int),
            decreases policy_ids.len() - i,
        {
            assert(ids[i as int] == policy_ids[i as int]@);
            let ghost before = info_pairs(infos@);
            if let Some(p) = self.get_policy(policy_ids[i].as_str()) {
                infos.push(PolicyInfo::new(p.id.as_str(), p.name.as_str()));
                assert(info_pairs(infos@) =~= before.push((p.id@, p.name@)));
            }
            i += 1;
        }
        infos
    }

    /// Get the tool-policy map
    pub fn tool_policy_map(&self) -> (map: &ToolPolicyMap)
        ensures
            map@ == self.spec_tool_policies(),
    {
        &self.tool_policy_map
    }

    /// Clone policies and tool-policy map (for creating ComplianceChecker)
    pub fn clone_data(&self) -> (data: (Vec<Policy>, ToolPolicyMap))
        ensures
            data.0.deep_view() == self.spec_policies(),
            data.1@ == self.spec_tool_policies(),
    {
        (clone_policies(&self.policies), self.tool_policy_map.clone())
    }
}

} // verus!
