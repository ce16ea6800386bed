use hypervisor::agent::canonical::{method_to_json, plan_bytes, policies_bytes, rule_to_json};
use hypervisor::agent::compliance::{ComplianceChecker, ComplianceMethod, PolicyRuleType};
use hypervisor::agent::quote_utils::{compliance_report, hash_compliance_data};
use hypervisor::agent::types::{AgentPlan, ThoughtStep, Timestamp, ToolCall, Uuid};
use hypervisor::sorting::sort_strings;
use hypervisor::text::{contains, decimal_string, str_eq};
use hypervisor::utils::attest::{generate_raw_report, generate_raw_report_from_hash};
use hypervisor::utils::commitment_openai::{build_query_commitment, to_le_bytes32};
use hypervisor::utils::crypto::PublicKey;
use hypervisor::utils::hasher::hash_multi;

#[test]
fn test_hash_compliance_data() {
    let hash1 = hash_compliance_data(
        "PriceFeedTool",
        true,
        &["L1".to_string()],
        "What is the price of BTC?",
        r#"{"symbol": "BTC"}"#,
    );

    let hash2 = hash_compliance_data(
        "PriceFeedTool",
        true,
        &["L1".to_string()],
        "What is the price of BTC?",
        r#"{"symbol": "BTC"}"#,
    );

    // Same inputs should produce same hash
    assert_eq!(hash1, hash2);

    // Different compliance result should produce different hash
    let hash3 = hash_compliance_data(
        "PriceFeedTool",
        false, // changed
        &["L1".to_string()],
        "What is the price of BTC?",
        r#"{"symbol": "BTC"}"#,
    );

    assert_ne!(hash1, hash3);
}

#[test]
fn compliance_hash_matches_independent_computation() {
    let hash = hash_compliance_data(
        "PriceFeedTool",
        true,
        &["L3".to_string(), "L1".to_string(), "L2".to_string()],
        "What is the price of BTC?",
        r#"{"symbol": "BTC"}"#,
    );
    let mut hasher = blake3::Hasher::new();
    hasher.update(b"COMPLIANCE_V1");
    hasher.update(b"PriceFeedTool");
    hasher.update(&[1u8]);
    hasher.update(b"L1");
    hasher.update(b"L2");
    hasher.update(b"L3");
    hasher.update(b"What is the price of BTC?");
    hasher.update(br#"{"symbol": "BTC"}"#);
    let expected: [u8; 32] = hasher.finalize().into();
    assert_eq!(hash, expected);
}

#[test]
fn compliance_hash_ignores_the_order_of_policy_ids() {
    let a = ["L4".to_string(), "L1".to_string(), "L10".to_string(), "L1".to_string()];
    let b = ["L1".to_string(), "L10".to_string(), "L1".to_string(), "L4".to_string()];
    let c = ["L10".to_string(), "L1".to_string(), "L4".to_string(), "L1".to_string()];
    let ha = hash_compliance_data("T", true, &a, "q", "{}");
    let hb = hash_compliance_data("T", true, &b, "q", "{}");
    let hc = hash_compliance_data("T", true, &c, "q", "{}");
    assert_eq!(ha, hb);
    assert_eq!(ha, hc);
    // another multiset hashes otherwise
    let d = ["L1".to_string(), "L10".to_string(), "L4".to_string()];
    assert_ne!(ha, hash_compliance_data("T", true, &d, "q", "{}"));
    assert_eq!(
        hash_compliance_data("T", true, &[], "q", "{}"),
        <[u8; 32]>::from(blake3::hash(b"COMPLIANCE_V1T\x01q{}"))
    );
}

#[test]
fn compliance_report_carries_the_hash() {
    let ids = ["L1".to_string()];
    let report = compliance_report("PriceFeedTool", true, &ids, "q", "{}").to_bytes();
    let hash = hash_compliance_data("PriceFeedTool", true, &ids, "q", "{}");
    assert_eq!(&report[..32], &hash[..]);
    assert_eq!(&report[32..], &[0u8; 32][..]);
}

#[test]
fn strings_sort_as_strings_do() {
    let mut items: Vec<String> =
        ["b", "a", "", "ab", "B", "\u{e9}", "a", "Z", "aa"].iter().map(|s| s.to_string()).collect();
    let mut expected = items.clone();
    expected.sort();
    sort_strings(&mut items);
    assert_eq!(items, expected);
    assert_eq!(items[0], "");
    assert_eq!(items[items.len() - 1], "\u{e9}");
}

#[test]
fn policy_hash_is_fixed() {
    let first = ComplianceChecker::default_crypto_policy();
    let second = ComplianceChecker::default_crypto_policy();
    assert_eq!(first.hash_policies(), second.hash_policies());
    let plan = AgentPlan {
        system_prompt: String::new(),
        user_query: "q".to_string(),
        thought_process: vec![],
        intended_tool_calls: vec![],
    };
    assert_eq!(
        first.check_compliance(&plan).unwrap().policy_hash,
        const_hex::encode(second.hash_policies())
    );
}

#[test]
fn policy_hash_input_is_canonical() {
    let checker = ComplianceChecker::default_crypto_policy();
    let bytes = policies_bytes(checker.policies());
    let text = String::from_utf8(bytes.clone()).unwrap();
    assert!(text.starts_with("L1No personalized investment adviceThe agent must not give"));
    assert!(text.contains(
        "\"Deterministic\"no_investment_advice_keywords{\"type\":\"ProhibitedKeywords\",\"keywords\":[\"should buy\",\"should sell\",\"should hold\",\"recommend buying\",\"recommend selling\",\"suggest buying\",\"suggest selling\",\"you should invest\",\"your portfolio\",\"allocate your\"]}\"LLMBased\"llm_check_personalized_advice{\"type\":\"LLMCompliance\",\"check_prompt\":\"Does this query ask for personalized investment advice specific to a user's situation?\"}L2"
    ));
    assert!(text.contains(
        "output_aggregation{\"type\":\"OutputRestriction\",\"max_raw_items\":10,\"require_aggregation\":true}"
    ));
    assert!(text.contains(
        "require_attribution{\"type\":\"RequireAttribution\",\"require_source\":true,\"require_timestamp\":true}"
    ));
    assert!(text.ends_with(
        "{\"type\":\"LLMCompliance\",\"check_prompt\":\"This policy can be enforced post-hoc. Simply return True\"}"
    ));
    assert_eq!(checker.hash_policies(), <[u8; 32]>::from(blake3::hash(&bytes)));
}

#[test]
fn rule_types_serialize_tag_first() {
    assert_eq!(method_to_json(ComplianceMethod::Deterministic), "\"Deterministic\"");
    assert_eq!(method_to_json(ComplianceMethod::LLMBased), "\"LLMBased\"");
    assert_eq!(
        rule_to_json(&PolicyRuleType::ProhibitedKeywords { keywords: vec![] }),
        r#"{"type":"ProhibitedKeywords","keywords":[]}"#
    );
    assert_eq!(
        rule_to_json(&PolicyRuleType::RequiredAbsentPatterns {
            patterns: vec!["a\"b".to_string(), "c\\d\n".to_string()]
        }),
        r#"{"type":"RequiredAbsentPatterns","patterns":["a\"b","c\\d\n"]}"#
    );
    assert_eq!(
        rule_to_json(&PolicyRuleType::OutputRestriction { max_raw_items: None, require_aggregation: false }),
        r#"{"type":"OutputRestriction","max_raw_items":null,"require_aggregation":false}"#
    );
    assert_eq!(
        rule_to_json(&PolicyRuleType::OutputRestriction {
            max_raw_items: Some(1234567890),
            require_aggregation: true
        }),
        r#"{"type":"OutputRestriction","max_raw_items":1234567890,"require_aggregation":true}"#
    );
    assert_eq!(
        rule_to_json(&PolicyRuleType::NoIdentityInference { prohibited_terms: vec!["x".to_string()] }),
        r#"{"type":"NoIdentityInference","prohibited_terms":["x"]}"#
    );
    assert_eq!(
        rule_to_json(&PolicyRuleType::RequireAttribution { require_source: false, require_timestamp: true }),
        r#"{"type":"RequireAttribution","require_source":false,"require_timestamp":true}"#
    );
    assert_eq!(
        rule_to_json(&PolicyRuleType::LLMCompliance { check_prompt: "say \"hi\"".to_string() }),
        r#"{"type":"LLMCompliance","check_prompt":"say \"hi\""}"#
    );
}

#[test]
fn plan_hash_covers_prompt_query_thoughts_and_calls() {
    let checker = ComplianceChecker::default_crypto_policy();
    let t = Timestamp { secs_since_epoch: 1, nanos_since_epoch: 2 };
    let plan = AgentPlan {
        system_prompt: "sys".to_string(),
        user_query: "qu\u{e9}ry".to_string(),
        thought_process: vec![
            ThoughtStep { step: 1, content: "one".to_string(), timestamp: t },
            ThoughtStep { step: 2, content: "two".to_string(), timestamp: t },
        ],
        intended_tool_calls: vec![ToolCall {
            id: Uuid::from_bytes([7u8; 16]),
            tool_name: "PriceFeedTool".to_string(),
            arguments: "{\"symbol\":\"BTC\"}".to_string(),
            timestamp: t,
            compliance_quote: None,
        }],
    };
    let expected = "sysqu\u{e9}ryonetwoPriceFeedTool{\"symbol\":\"BTC\"}";
    assert_eq!(plan_bytes(&plan), expected.as_bytes());
    assert_eq!(checker.hash_plan(&plan), <[u8; 32]>::from(blake3::hash(expected.as_bytes())));
    assert_eq!(
        checker.check_compliance(&plan).unwrap().plan_hash,
        blake3::hash(expected.as_bytes()).to_hex().to_string()
    );
}

#[test]
fn reports_carry_the_digest_in_the_first_half() {
    let h: [u8; 32] = core::array::from_fn(|i| (i as u8) + 1);
    let report = generate_raw_report_from_hash(h).to_bytes();
    assert_eq!(&report[..32], &h[..]);
    assert_eq!(&report[32..], &[0u8; 32][..]);

    let parts = vec![b"session".to_vec(), vec![], b"id".to_vec()];
    let report = generate_raw_report(&parts).to_bytes();
    assert_eq!(&report[..32], blake3::hash(b"sessionid").as_bytes());
    assert_eq!(&report[32..], &[0u8; 32][..]);
    assert_eq!(hash_multi(&parts), <[u8; 32]>::from(blake3::hash(b"sessionid")));
    assert_eq!(hash_multi(&vec![]), <[u8; 32]>::from(blake3::hash(b"")));
}

#[test]
fn query_commitment_hashes_the_fields_in_order() {
    let user = PublicKey::from_sec1_bytes(
        &const_hex::decode("0279BE667EF9DCBBAC55A06295CE870B07029BFCDB2DCE28D959F2815B16F81798").unwrap(),
    )
    .unwrap();
    let session = PublicKey::from_sec1_bytes(
        &const_hex::decode("02C6047F9441ED7D6D3045406E95C07CD85C778E4B8CEF3CA7ABAC09B95C709EE5").unwrap(),
    )
    .unwrap();
    let id = Uuid::from_bytes([9u8; 16]);
    let nonce = [3u8; 12];
    let temperature = 0.7f32;
    let commitment = build_query_commitment(
        &user,
        &session,
        id,
        "abcd",
        "gpt-4o",
        temperature.to_bits(),
        1000,
        &nonce,
        "ef01",
    );
    let mut hasher = blake3::Hasher::new();
    hasher.update(user.as_bytes());
    hasher.update(session.as_bytes());
    hasher.update(&[9u8; 16]);
    hasher.update(b"abcd");
    hasher.update(b"gpt-4o");
    hasher.update(&temperature.to_le_bytes());
    hasher.update(&1000u32.to_le_bytes());
    hasher.update(&nonce);
    hasher.update(b"ef01");
    assert_eq!(commitment, <[u8; 32]>::from(hasher.finalize()));
    assert_eq!(to_le_bytes32(0x0403_0201), [1, 2, 3, 4]);
    assert_eq!(to_le_bytes32(u32::MAX), [255, 255, 255, 255]);
    assert_eq!(to_le_bytes32(0), [0, 0, 0, 0]);
}

#[test]
fn text_helpers() {
    assert!(contains("hello world", "lo w"));
    assert!(contains("hello", ""));
    assert!(contains("", ""));
    assert!(!contains("", "a"));
    assert!(!contains("hello", "hello!"));
    assert!(contains("na\u{ef}ve caf\u{e9}", "f\u{e9}"));
    assert!(!contains("abc", "ac"));
    assert!(str_eq("a\u{e9}", "a\u{e9}"));
    assert!(!str_eq("a", "ab"));
    assert!(!str_eq("ab", "ac"));
    assert_eq!(decimal_string(0), "0");
    assert_eq!(decimal_string(7), "7");
    assert_eq!(decimal_string(10), "10");
    assert_eq!(decimal_string(9005), "9005");
    assert_eq!(decimal_string(usize::MAX), usize::MAX.to_string());
}
