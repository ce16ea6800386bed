use hypervisor::agent::compliance::{ComplianceChecker, LLMComplianceResult};
use hypervisor::agent::chat::MODEL;
use hypervisor::agent::crypto_agent::{
    parse_planning_response, CryptoAgent, CryptoAgentConfig, DEFAULT_SYSTEM_PROMPT,
    DEFAULT_TEMPERATURE_BITS, PLANNING_MAX_TOKENS, PLANNING_SYSTEM_PROMPT,
    PLANNING_TEMPERATURE_BITS,
};
use hypervisor::agent::llm_checks::{LlmReply, COMPLIANCE_SYSTEM_PROMPT};
use hypervisor::agent::pipeline::{
    build_answer_prompt, AgentAction, AgentRun, ApprovedPolicies, Phase, ANSWER_INSTRUCTIONS,
    REJECTION_GUIDANCE,
};
use hypervisor::agent::quote_utils::{hash_compliance_data, verify_compliance_quote_dummy};
use hypervisor::agent::tools::ToolRegistry;
use hypervisor::agent::types::{AgentExecution, AgentPlan, ToolResult, Uuid};
use hypervisor::attest::types::RawReport;

const PRICES: &str = r#"{"prices":[{"symbol":"BTC","price_usd":43250.5}]}"#;
const ONCHAIN: &str = r#"{"ethereum":{"0xabc":[]}}"#;
const SENTIMENT: &str = r#"{"BTC":{"24h":{"records":[],"sentiment_score":0.5,"sentiment_label":"Neutral","mentions_count":0}}}"#;
const PORTFOLIO: &str = r#"{"ethereum":{}}"#;

fn agent() -> CryptoAgent {
    CryptoAgent::new(ToolRegistry::new_crypto_tools(
        PRICES.to_string(),
        ONCHAIN.to_string(),
        SENTIMENT.to_string(),
        PORTFOLIO.to_string(),
    ))
}

/// A version 4 TDX quote around the report: what a provider hands out.
fn mock_quote(report: &RawReport) -> Vec<u8> {
    let mut bytes = vec![0u8; 636 + 134];
    bytes[0] = 4;
    bytes[2] = 2;
    bytes[4] = 0x81;
    bytes[568..632].copy_from_slice(&report.to_bytes());
    bytes[632..636].copy_from_slice(&134u32.to_le_bytes());
    bytes
}

/// Drives a run to its end. `quotes` says whether the provider works;
/// `verdicts` are the replies of the model to compliance requests, in order.
fn drive(
    agent: &CryptoAgent,
    checker: &ComplianceChecker,
    plan: AgentPlan,
    query: &str,
    use_llm: bool,
    quotes: bool,
    verdicts: Vec<LlmReply>,
    answer: &str,
) -> (AgentExecution, Vec<String>, String) {
    let mut verdicts = verdicts.into_iter();
    let mut asked = Vec::new();
    let mut run = AgentRun::start(plan, query, use_llm);
    let mut action = AgentAction::Continue;
    for _ in 0..10_000 {
        let (next, then) = match action {
            AgentAction::Continue => run.proceed(agent, checker),
            AgentAction::AskCompliance { request } => {
                assert_eq!(request.model, "gpt-4o");
                assert_eq!(request.system_prompt.as_deref(), Some(COMPLIANCE_SYSTEM_PROMPT));
                assert_eq!(f32::from_bits(request.temperature_bits), 0.0);
                assert_eq!(request.max_tokens, 150);
                assert!(request.json_object);
                asked.push(request.user_prompt);
                let reply = verdicts.next().expect("a verdict for each request");
                run.on_compliance(&reply)
            }
            AgentAction::GetQuote { report } => {
                run.on_quote(if quotes { Some(mock_quote(&report)) } else { None })
            }
            AgentAction::AskAnswer { request } => {
                assert_eq!(request.model, MODEL);
                assert_eq!(request.system_prompt.as_deref(), Some(DEFAULT_SYSTEM_PROMPT));
                assert_eq!(f32::from_bits(request.temperature_bits), 0.7);
                assert_eq!(request.max_tokens, 2000);
                assert!(!request.json_object);
                let prompt = request.user_prompt;
                assert_eq!(run.phase(), Phase::AwaitingAnswer);
                assert!(verdicts.next().is_none());
                let execution =
                    run.finish(answer.to_string(), Uuid::from_bytes([6u8; 16]), 12).unwrap();
                return (execution, asked, prompt);
            }
            AgentAction::Unexpected => panic!("the driver follows the run"),
        };
        run = next;
        action = then;
    }
    panic!("the run ends");
}

fn compliant() -> LlmReply {
    LlmReply::Verdict(LLMComplianceResult { compliant: true, explanation: "ok".to_string() })
}

#[test]
fn planning_answer_is_parsed_line_by_line() {
    let text = "THOUGHT: I need the price\n  TOOL_CALL: {\"tool\": \"PriceFeedTool\", \"arguments\": {\"symbol\": \"BTC\"}}  \r\nnoise\nTHOUGHT:\nTHOUGHT:    \nTOOL_CALL: not json\nTOOL_CALL: {\"tool\": 5, \"arguments\": {}}\nTOOL_CALL: {\"tool\": \"X\"}\nTOOL_CALL: [1]\nthought: lower case\nTHOUGHT:second one  \nTOOL_CALL:{\"arguments\":[1, 2],\"tool\":\"SentimentTool\"}\n";
    let (thoughts, calls) = parse_planning_response(text, "q");
    assert_eq!(thoughts.len(), 2);
    assert_eq!(thoughts[0].step, 1);
    assert_eq!(thoughts[0].content, "I need the price");
    assert_eq!(thoughts[1].step, 2);
    assert_eq!(thoughts[1].content, "second one");
    assert_eq!(calls.len(), 2);
    assert_eq!(calls[0].tool_name, "PriceFeedTool");
    assert_eq!(calls[0].arguments, r#"{"symbol":"BTC"}"#);
    assert!(calls[0].compliance_quote.is_none());
    assert_eq!(calls[1].tool_name, "SentimentTool");
    assert_eq!(calls[1].arguments, "[1,2]");
    assert_ne!(calls[0].id, calls[1].id);
    assert_eq!(calls[0].id.as_bytes()[6] >> 4, 7);
    assert!(calls[0].timestamp.secs_since_epoch > 1_600_000_000);

    let (thoughts, calls) = parse_planning_response("", "q");
    assert!(thoughts.is_empty() && calls.is_empty());
    let (thoughts, calls) = parse_planning_response("THOUGHT: only this", "q");
    assert_eq!(thoughts.len(), 1);
    assert_eq!(thoughts[0].content, "only this");
    assert!(calls.is_empty());
    let (thoughts, _) = parse_planning_response("\u{2003}THOUGHT:\u{a0}caf\u{e9}\u{2003}", "q");
    assert_eq!(thoughts[0].content, "caf\u{e9}");
}

#[test]
fn planning_request_is_exact() {
    let agent = agent();
    let request = agent.planning_request("What is the price of BTC?");
    assert_eq!(request.model, "gpt-4o");
    assert_eq!(request.system_prompt.as_deref(), Some(PLANNING_SYSTEM_PROMPT));
    assert_eq!(f32::from_bits(request.temperature_bits), 0.3);
    assert_eq!(request.max_tokens, 1000);
    assert!(!request.json_object);
    let prompt = request.user_prompt;
    let descriptions = agent.tool_registry().generate_tool_descriptions();
    let expected = format!(
        "You are an in-house synthetic assistant planning how to answer a question about cryptocurrencies with synthetic tools.\n\n{}\n\nUser question: {}\n\nPlease analyze this question and plan which synthetic tools you need to use. For each tool you want to use, provide:\n1. Your reasoning for why you need this tool\n2. The exact tool call in JSON format\n\nRespond in this format:\nTHOUGHT: [your reasoning]\nTOOL_CALL: {{\"tool\": \"tool_name_1\", \"arguments\": {{\"param\": \"value_1\"}}}}\nTHOUGHT: [your reasoning]\nTOOL_CALL: {{\"tool\": \"tool_name_2\", \"arguments\": {{\"param\": \"value_2\"}}}}\n\nIf no tools are needed, output only a THOUGHT explaining your reasoning.\nTHOUGHT: [your reasoning]\n\nYou can specify multiple THOUGHT/TOOL_CALL pairs if you need multiple tools.\n",
        descriptions, "What is the price of BTC?"
    );
    assert_eq!(prompt, expected);
    assert_eq!(
        PLANNING_SYSTEM_PROMPT,
        "You are a planning assistant that helps determine which synthetic tools to use."
    );
    assert_eq!(PLANNING_TEMPERATURE_BITS, 0.3f32.to_bits());
    assert_eq!(PLANNING_MAX_TOKENS, 1000);
}

#[test]
fn agent_configuration() {
    let config = CryptoAgentConfig::default();
    assert_eq!(config.max_tool_calls, 10);
    assert_eq!(config.temperature_bits, 0.7f32.to_bits());
    assert_eq!(DEFAULT_TEMPERATURE_BITS, 0.7f32.to_bits());
    assert_eq!(config.max_tokens, 2000);
    assert!(config.system_prompt.starts_with("You are a synthetic cryptocurrency research assistant."));
    assert!(config.system_prompt.ends_with("provide a comprehensive answer to the user's question."));
    assert!(config.system_prompt.contains("\n\nWhen answering questions:\n1. Think step-by-step"));
    let agent = agent();
    assert_eq!(agent.system_prompt(), DEFAULT_SYSTEM_PROMPT);
    let custom = CryptoAgent::with_config(
        CryptoAgentConfig { system_prompt: "S".to_string(), max_tool_calls: 1, temperature_bits: 0, max_tokens: 5 },
        ToolRegistry::new_crypto_tools("{}".into(), "{}".into(), "{}".into(), "{}".into()),
    );
    assert_eq!(custom.system_prompt(), "S");
    let plan = custom.plan_execution("Q", "THOUGHT: t\nTOOL_CALL: {\"tool\":\"A\",\"arguments\":1}");
    assert_eq!(plan.system_prompt, "S");
    assert_eq!(plan.user_query, "Q");
    assert_eq!(plan.thought_process.len(), 1);
    assert_eq!(plan.intended_tool_calls.len(), 1);
    assert_eq!(plan.intended_tool_calls[0].arguments, "1");
}

#[test]
fn scenario_advice_block() {
    let agent = agent();
    let checker = ComplianceChecker::default_crypto_policy();
    let query = "You should buy Bitcoin now";
    let plan = agent.plan_execution(
        query,
        "THOUGHT: price\nTOOL_CALL: {\"tool\": \"PriceFeedTool\", \"arguments\": {\"symbol\": \"BTC\"}}",
    );
    let verdict = checker.check_compliance(&plan).unwrap();
    assert!(!verdict.compliant);
    assert!(verdict.reason.contains("should buy"));

    let call_id = plan.intended_tool_calls[0].id;
    let (execution, asked, prompt) = drive(&agent, &checker, plan, query, false, true, vec![], "IMPOSSIBLE: policy");
    assert!(asked.is_empty());
    assert_eq!(execution.tool_calls.len(), 1);
    assert_eq!(execution.tool_results.len(), 1);
    let result = &execution.tool_results[0];
    assert!(!result.success);
    assert_eq!(result.call_id, call_id);
    assert_eq!(result.result, "");
    assert!(!result.quote_verified);
    assert_eq!(
        result.error.as_deref(),
        Some("Policy compliance failed: Tool 'PriceFeedTool' policy 'L1' (No personalized investment advice) rule 'no_investment_advice_keywords' violated: Prohibited keyword 'should buy' found in user query")
    );
    assert!(prompt.contains("\n\nNo specific policies apply to the approved tools.\n"));
    assert!(prompt.contains("\n\nTool Results:\n1. REJECTED (Policy): Tool use was rejected by compliance policy.\n"));
    assert!(prompt.contains(REJECTION_GUIDANCE));
    assert_eq!(execution.final_response, "IMPOSSIBLE: policy");
    assert_eq!(execution.session_id, Uuid::from_bytes([6u8; 16]));
    assert_eq!(execution.execution_time_ms, 12);
}

#[test]
fn scenario_deanonymization_block() {
    let agent = agent();
    let checker = ComplianceChecker::default_crypto_policy();
    let query = "This wallet belongs to Satoshi";
    let plan = agent.plan_execution(
        query,
        "TOOL_CALL: {\"tool\": \"OnChainHistoryTool\", \"arguments\": {\"blockchain\": \"ethereum\"}}\nTOOL_CALL: {\"tool\": \"PortfolioTool\", \"arguments\": {\"blockchain\": \"ethereum\"}}\nTOOL_CALL: {\"tool\": \"PriceFeedTool\", \"arguments\": {\"symbol\": \"BTC\"}}",
    );
    let verdict = checker.check_compliance(&plan).unwrap();
    assert!(!verdict.compliant);
    assert!(verdict.reason.contains("belongs to"));
    assert!(verdict.reason.starts_with("Policy 'L3' "));

    let (execution, _, _) = drive(&agent, &checker, plan, query, false, true, vec![], "a");
    // the price feed is bound to L1 alone and passes; the results of approved calls come first
    assert_eq!(execution.tool_results.len(), 3);
    assert!(execution.tool_results[0].success);
    assert_eq!(execution.tool_results[0].call_id, execution.tool_calls[2].id);
    for (result, call) in execution.tool_results[1..].iter().zip(execution.tool_calls[..2].iter()) {
        assert!(!result.success);
        assert_eq!(result.call_id, call.id);
        let error = result.error.as_deref().unwrap();
        assert!(error.starts_with("Policy compliance failed: "));
        assert!(error.contains("policy 'L3'"));
        assert!(error.contains("belongs to"));
    }
}

#[test]
fn scenario_clean_path() {
    let agent = agent();
    let checker = ComplianceChecker::default_crypto_policy();
    let query = "What is the price of BTC?";
    let plan = agent.plan_execution(
        query,
        "THOUGHT: I need the price of BTC\nTOOL_CALL: {\"tool\": \"PriceFeedTool\", \"arguments\": {\"symbol\": \"BTC\"}}",
    );
    assert!(checker.check_compliance(&plan).unwrap().compliant);

    // follow the run by hand up to the approval
    let run = AgentRun::start(plan.clone(), query, false);
    assert_eq!(run.phase(), Phase::Gating);
    let (run, action) = run.proceed(&agent, &checker);
    assert!(matches!(action, AgentAction::Continue));
    assert_eq!(run.phase(), Phase::Checking);
    let (run, action) = run.proceed(&agent, &checker);
    assert_eq!(run.phase(), Phase::AwaitingQuote);
    let report = match action {
        AgentAction::GetQuote { report } => report,
        _ => panic!("a quote is asked for the approval"),
    };
    let hash = hash_compliance_data("PriceFeedTool", true, &["L1".to_string()], query, r#"{"symbol":"BTC"}"#);
    assert_eq!(&report.to_bytes()[..32], &hash[..]);
    assert_eq!(&report.to_bytes()[32..], &[0u8; 32][..]);
    // what does not fit is turned down and changes nothing
    let (run, action) = run.proceed(&agent, &checker);
    assert!(matches!(action, AgentAction::Unexpected));
    let (run, action) = run.on_compliance(&compliant());
    assert!(matches!(action, AgentAction::Unexpected));
    assert_eq!(run.phase(), Phase::AwaitingQuote);
    assert!(run.finish("early".to_string(), Uuid::from_bytes([0u8; 16]), 0).is_none());

    let run = AgentRun::start(plan.clone(), query, false);
    let (run, _) = run.proceed(&agent, &checker);
    let (run, action) = run.proceed(&agent, &checker);
    let report = match action {
        AgentAction::GetQuote { report } => report,
        _ => panic!("a quote is asked for the approval"),
    };
    let (run, action) = run.on_quote(Some(mock_quote(&report)));
    assert!(matches!(action, AgentAction::Continue));
    assert_eq!(run.phase(), Phase::Gating);
    assert_eq!(run.approved_calls().len(), 1);
    assert!(run.rejected_calls().is_empty());
    let approved = &run.approved_calls()[0];
    assert_eq!(approved.id, plan.intended_tool_calls[0].id);
    let quote = approved.compliance_quote.as_ref().expect("the quote is attached");
    assert_eq!(quote.tool_name, "PriceFeedTool");
    assert!(quote.compliant);
    assert_eq!(quote.compliance_hash, hash);
    assert_eq!(verify_compliance_quote_dummy(quote, "PriceFeedTool").unwrap(), true);

    let (execution, asked, prompt) = drive(&agent, &checker, plan, query, false, true, vec![], "BTC is at 43250.5");
    assert!(asked.is_empty());
    assert_eq!(execution.tool_results.len(), 1);
    let result = &execution.tool_results[0];
    assert!(result.success);
    assert!(result.quote_verified);
    assert!(result.error.is_none());
    assert_eq!(
        result.result,
        r#"{"24h_change_pct":null,"24h_volume":null,"last_updated":null,"market_cap":null,"price_usd":43250.5,"source":"Market Data Feed","symbol":"BTC","tool":"PriceFeedTool"}"#
    );
    // the execution keeps the intended calls, which carry no quote
    assert!(execution.tool_calls[0].compliance_quote.is_none());
    assert_eq!(execution.plan.thought_process[0].content, "I need the price of BTC");
    let expected_prompt = format!(
        "{}\n\nUser Question: {}\n\n\n\nAPPLICABLE POLICIES (You MUST follow these policies in your response):\n\nFor tool 'PriceFeedTool':\n  - L1 (No personalized investment advice): {}\n\n\nTool Results:\n1. SUCCESS: {}\n{}",
        DEFAULT_SYSTEM_PROMPT,
        query,
        checker.policies()[0].text,
        result.result,
        ANSWER_INSTRUCTIONS
    );
    assert_eq!(prompt, expected_prompt);
}

#[test]
fn scenario_unknown_tool() {
    let agent = agent();
    let checker = ComplianceChecker::default_crypto_policy();
    let query = "What is the price of BTC?";
    let plan = agent.plan_execution(query, "TOOL_CALL: {\"tool\": \"NonexistentTool\", \"arguments\": {}}");
    let (execution, _, prompt) = drive(&agent, &checker, plan, query, false, true, vec![], "a");
    assert_eq!(execution.tool_results.len(), 1);
    let result = &execution.tool_results[0];
    assert!(!result.success);
    assert_eq!(
        result.error.as_deref(),
        Some("Policy compliance failed: Tool 'NonexistentTool' not found")
    );
    assert!(result.error.as_deref().unwrap().ends_with("Tool 'NonexistentTool' not found"));
    assert!(prompt.contains("1. REJECTED (Policy): "));
}

#[test]
fn quote_failure_does_not_refuse_the_call() {
    let agent = agent();
    let checker = ComplianceChecker::default_crypto_policy();
    let query = "What is the price of BTC?";
    let plan = agent.plan_execution(query, "TOOL_CALL: {\"tool\": \"PriceFeedTool\", \"arguments\": {\"symbol\": \"BTC\"}}");
    let (execution, _, _) = drive(&agent, &checker, plan, query, false, false, vec![], "a");
    assert_eq!(execution.tool_results.len(), 1);
    assert!(execution.tool_results[0].success);
    assert!(!execution.tool_results[0].quote_verified);
}

#[test]
fn gate_keeps_plan_order_and_counts() {
    let agent = agent();
    let checker = ComplianceChecker::default_crypto_policy();
    let query = "How is my wallet, is it owned by me?";
    let plan = agent.plan_execution(
        query,
        "TOOL_CALL: {\"tool\": \"PriceFeedTool\", \"arguments\": {\"symbol\": \"BTC\"}}\nTOOL_CALL: {\"tool\": \"Nope\", \"arguments\": {}}\nTOOL_CALL: {\"tool\": \"OnChainHistoryTool\", \"arguments\": {\"blockchain\": \"ethereum\"}}\nTOOL_CALL: {\"tool\": \"SentimentTool\", \"arguments\": {\"symbol\": \"BTC\"}}\nTOOL_CALL: {\"tool\": \"PriceFeedTool\", \"arguments\": {\"symbol\": \"DOGE\"}}",
    );
    let ids: Vec<Uuid> = plan.intended_tool_calls.iter().map(|c| c.id).collect();
    assert_eq!(ids.len(), 5);
    let (execution, _, prompt) = drive(&agent, &checker, plan, query, false, true, vec![], "a");
    assert_eq!(execution.tool_calls.len(), 5);
    assert_eq!(execution.tool_results.len(), 5);
    // approved calls in plan order: 0, 3, 4; then the refused ones: 1, 2
    let order: Vec<Uuid> = execution.tool_results.iter().map(|r| r.call_id).collect();
    assert_eq!(order, vec![ids[0], ids[3], ids[4], ids[1], ids[2]]);
    assert!(execution.tool_results[0].success);
    assert!(execution.tool_results[1].success);
    // an approved call whose tool fails is a tool error, not a refusal
    assert!(!execution.tool_results[2].success);
    assert_eq!(execution.tool_results[2].error.as_deref(), Some("Unknown cryptocurrency: DOGE"));
    assert_eq!(
        execution.tool_results[3].error.as_deref(),
        Some("Policy compliance failed: Tool 'Nope' not found")
    );
    assert!(execution.tool_results[4].error.as_deref().unwrap().starts_with("Policy compliance failed: Tool 'OnChainHistoryTool' policy 'L3'"));
    assert!(prompt.contains("1. SUCCESS: "));
    assert!(prompt.contains("\n3. ERROR: Unknown cryptocurrency: DOGE\n4. REJECTED (Policy): Tool use was rejected by compliance policy.\n5. REJECTED (Policy): "));
    // the policies of a tool are listed once, in the order of first approval
    assert_eq!(prompt.matches("\nFor tool 'PriceFeedTool':\n").count(), 1);
    let first = prompt.find("For tool 'PriceFeedTool'").unwrap();
    let second = prompt.find("For tool 'SentimentTool'").unwrap();
    assert!(first < second);
    assert!(prompt.contains("  - L4 (Source attribution & timestamp): Whenever the agent uses data"));
}

#[test]
fn llm_compliance_gates_the_call() {
    let agent = agent();
    let checker = ComplianceChecker::default_crypto_policy();
    let query = "How is BTC doing?";
    let planning = "TOOL_CALL: {\"tool\": \"SentimentTool\", \"arguments\": {\"symbol\": \"BTC\"}}\nTOOL_CALL: {\"tool\": \"PriceFeedTool\", \"arguments\": {\"symbol\": \"BTC\"}}";

    // every verdict is compliant: three requests (L1 and L4 for the first call, L1 for the second)
    let plan = agent.plan_execution(query, planning);
    let (execution, asked, _) =
        drive(&agent, &checker, plan, query, true, true, vec![compliant(), compliant(), compliant()], "a");
    assert_eq!(asked.len(), 3);
    assert!(asked[0].contains("Tool: SentimentTool\nUser Query: How is BTC doing?\nTool Arguments: {\"symbol\":\"BTC\"}"));
    assert!(asked[1].starts_with("Policy: Whenever the agent uses data from a tool"));
    assert!(asked[2].contains("Tool: PriceFeedTool\n"));
    assert!(execution.tool_results.iter().all(|r| r.success));

    // the first verdict refuses: the second rule of that call is not asked
    let plan = agent.plan_execution(query, planning);
    let refusal = LlmReply::Verdict(LLMComplianceResult { compliant: false, explanation: "personal".to_string() });
    let (execution, asked, _) = drive(&agent, &checker, plan, query, true, true, vec![refusal, compliant()], "a");
    assert_eq!(asked.len(), 2);
    assert!(asked[1].contains("Tool: PriceFeedTool\n"));
    assert_eq!(execution.tool_results.len(), 2);
    assert!(execution.tool_results[0].success);
    assert_eq!(
        execution.tool_results[1].error.as_deref(),
        Some("Policy compliance failed: Tool 'SentimentTool' policy 'L1' (No personalized investment advice) LLM rule 'llm_check_personalized_advice' violated: LLM compliance check failed: personal")
    );

    // a transport error fails the check as well
    let plan = agent.plan_execution(query, planning);
    let (execution, asked, _) = drive(
        &agent,
        &checker,
        plan,
        query,
        true,
        true,
        vec![compliant(), LlmReply::CallFailed("timeout".to_string()), compliant()],
        "a",
    );
    assert_eq!(asked.len(), 3);
    assert!(execution.tool_results[1].error.as_deref().unwrap().ends_with(
        "policy 'L4' (Source attribution & timestamp) LLM rule 'llm_check_attribution' violated: Failed to call OpenAI API: timeout"
    ));

    // without the model no request is made
    let plan = agent.plan_execution(query, planning);
    let (execution, asked, _) = drive(&agent, &checker, plan, query, false, true, vec![], "a");
    assert!(asked.is_empty());
    assert!(execution.tool_results.iter().all(|r| r.success));
}

#[test]
fn plan_without_calls_goes_straight_to_the_answer() {
    let agent = agent();
    let checker = ComplianceChecker::default_crypto_policy();
    let plan = agent.plan_execution("hello", "THOUGHT: no tools are needed");
    let (execution, asked, prompt) = drive(&agent, &checker, plan, "hello", true, true, vec![], "hi");
    assert!(asked.is_empty());
    assert!(execution.tool_calls.is_empty());
    assert!(execution.tool_results.is_empty());
    assert_eq!(
        prompt,
        format!(
            "{}\n\nUser Question: hello\n\n\n\nNo specific policies apply to the approved tools.\n\n\nTool Results:\n{}",
            DEFAULT_SYSTEM_PROMPT, ANSWER_INSTRUCTIONS
        )
    );
}

#[test]
fn answer_prompt_lists_policies_and_results() {
    let results = vec![
        ToolResult { call_id: Uuid::from_bytes([1; 16]), success: true, result: "{\"a\":1}".into(), error: None, quote_verified: true },
        ToolResult { call_id: Uuid::from_bytes([2; 16]), success: false, result: String::new(), error: None, quote_verified: false },
        ToolResult {
            call_id: Uuid::from_bytes([3; 16]),
            success: false,
            result: String::new(),
            error: Some("x Policy compliance failed y".into()),
            quote_verified: false,
        },
    ];
    let policies = vec![
        ApprovedPolicies { tool_name: "A".into(), policy_texts: vec![] },
        ApprovedPolicies { tool_name: "B".into(), policy_texts: vec!["first policy".into(), "second policy".into()] },
    ];
    let prompt = build_answer_prompt("SYS", "Q?", &results, &policies);
    assert_eq!(
        prompt,
        format!(
            "SYS\n\nUser Question: Q?\n\n\n\nAPPLICABLE POLICIES (You MUST follow these policies in your response):\n\nFor tool 'B':\n  - first policy\n  - second policy\n\n\nTool Results:\n1. SUCCESS: {{\"a\":1}}\n2. ERROR: Unknown error\n3. REJECTED (Policy): Tool use was rejected by compliance policy.\n{}{}",
            REJECTION_GUIDANCE, ANSWER_INSTRUCTIONS
        )
    );
    assert!(REJECTION_GUIDANCE.starts_with("\n\nIMPORTANT: Some tool calls were rejected by compliance policies. If critical tools"));
    assert!(ANSWER_INSTRUCTIONS.starts_with("\n\nBased on the available data, please provide a clear answer to the user's question. CRITICAL: You MUST"));
    let none = build_answer_prompt("SYS", "Q?", &[].to_vec(), &vec![ApprovedPolicies { tool_name: "A".into(), policy_texts: vec![] }]);
    assert!(none.contains("\n\nNo specific policies apply to the approved tools.\n"));
    assert!(!none.contains("IMPORTANT"));
}
