use hypervisor::agent::compliance::ComplianceChecker;
use hypervisor::agent::crypto_agent::CryptoAgent;
use hypervisor::agent::pipeline::AgentAction;
use hypervisor::agent::tools::ToolRegistry;
use hypervisor::agent::types::{
    AgentExecution, AgentPlan, ThoughtStep, Timestamp, ToolCall, ToolResult, Uuid,
};
use hypervisor::api::agent::{
    agent_query_report, generate_compliance_summary, hash_execution, open_agent_query,
    open_verifiable_agent_query, query_agent_response, validate_agent_request,
    verifiable_query_agent_response, AgentQueryRequest,
};
use hypervisor::api::encrypt::{
    create_keypair, establish_session, verifiable_create_keypair, CreateKeyPairRequest,
};
use hypervisor::api::envelope::{open_request, seal_response, Payload};
use hypervisor::api::openai::{
    open_openai_query, openai_chat_request, openai_query_report, query_openai,
    validate_query_request,
    verifiable_query_openai, OpenAIQueryRequest, DEFAULT_MAX_TOKENS, DEFAULT_MODEL,
    DEFAULT_TEMPERATURE_BITS,
};
use hypervisor::attest::types::Quote;
use hypervisor::error::{HypervisorError, BAD_REQUEST, INTERNAL_SERVER_ERROR, UNAUTHORIZED};
use hypervisor::types::{fresh_keypair, HypervisorState};
use hypervisor::utils::commitment_openai::build_query_commitment;
use hypervisor::utils::crypto::{
    create_encrypt_key, derive_msg_nonce, pk_from_hex, pk_to_hex, AeadKey, PublicKey, SecretKey,
};

struct Client {
    sk: SecretKey,
    pk: PublicKey,
    session_pk: PublicKey,
    session_id: Uuid,
    cipher: AeadKey,
}

/// A user that has shaken hands with the state.
fn handshake(state: &mut HypervisorState) -> Client {
    let (sk, pk) = fresh_keypair();
    let response = create_keypair(state, &CreateKeyPairRequest { pubkey: pk_to_hex(&pk) }).unwrap();
    let session_pk = pk_from_hex(&response.session_pubkey).unwrap();
    let cipher = create_encrypt_key(&sk, &session_pk, response.session_id).unwrap();
    Client { sk, pk, session_pk, session_id: response.session_id, cipher }
}

fn encrypt_for(client: &Client, text: &[u8]) -> String {
    let nonce = derive_msg_nonce(client.session_id.as_bytes());
    const_hex::encode(client.cipher.encrypt(&nonce, text).unwrap())
}

fn status_and_message(e: HypervisorError) -> (u16, String) {
    (e.status_code(), e.message())
}

fn sample_execution() -> AgentExecution {
    let t = Timestamp { secs_since_epoch: 1_700_000_000, nanos_since_epoch: 5 };
    let call = |n: u8, name: &str, args: &str| ToolCall {
        id: Uuid::from_bytes([n; 16]),
        tool_name: name.to_string(),
        arguments: args.to_string(),
        timestamp: t,
        compliance_quote: None,
    };
    let calls = vec![call(1, "PriceFeedTool", "{\"symbol\":\"BTC\"}"), call(2, "Nope", "{}")];
    AgentExecution {
        session_id: Uuid::from_bytes([9u8; 16]),
        plan: AgentPlan {
            system_prompt: "sys".to_string(),
            user_query: "What is the price of BTC?".to_string(),
            thought_process: vec![
                ThoughtStep { step: 1, content: "first".to_string(), timestamp: t },
                ThoughtStep { step: 2, content: "second".to_string(), timestamp: t },
            ],
            intended_tool_calls: calls.clone(),
        },
        tool_calls: calls,
        tool_results: vec![
            ToolResult {
                call_id: Uuid::from_bytes([1; 16]),
                success: true,
                result: "{\"price_usd\":1}".to_string(),
                error: None,
                quote_verified: true,
            },
            ToolResult {
                call_id: Uuid::from_bytes([2; 16]),
                success: false,
                result: String::new(),
                error: Some("Policy compliance failed: Tool 'Nope' not found".to_string()),
                quote_verified: false,
            },
        ],
        final_response: "BTC is at 1".to_string(),
        execution_time_ms: 42,
    }
}

fn independent_execution_hash(e: &AgentExecution) -> [u8; 32] {
    let mut hasher = blake3::Hasher::new();
    hasher.update(e.session_id.as_bytes());
    hasher.update(e.plan.system_prompt.as_bytes());
    hasher.update(e.plan.user_query.as_bytes());
    for step in &e.plan.thought_process {
        hasher.update(step.content.as_bytes());
    }
    for call in &e.tool_calls {
        hasher.update(call.id.as_bytes());
        hasher.update(call.tool_name.as_bytes());
        hasher.update(call.arguments.as_bytes());
    }
    for result in &e.tool_results {
        hasher.update(result.call_id.as_bytes());
        hasher.update(&[result.success as u8]);
        hasher.update(result.result.as_bytes());
    }
    hasher.update(e.final_response.as_bytes());
    hasher.finalize().into()
}

#[test]
fn test_api_create_keypair() {
    let mut state = HypervisorState::new();
    let (_, pk) = fresh_keypair();

    let resp = create_keypair(&mut state, &CreateKeyPairRequest { pubkey: pk_to_hex(&pk) }).unwrap();
    println!("session pk {} session id {}", resp.session_pubkey, resp.session_id.to_text());
    assert_eq!(resp.session_pubkey.len(), 66);
    let (sk, id) = state.get_session_keypair(&pk).unwrap();
    assert_eq!(id, resp.session_id);
    assert_eq!(pk_to_hex(&sk.verifying_key().unwrap()), resp.session_pubkey);
}

#[test]
fn create_keypair_refuses_a_bad_key() {
    let mut state = HypervisorState::new();
    for pubkey in ["", "zz", "02", "0x1234"] {
        let e = create_keypair(&mut state, &CreateKeyPairRequest { pubkey: pubkey.to_string() }).unwrap_err();
        assert_eq!(status_and_message(e), (400, "400 Bad Request".to_string()));
    }
}

#[test]
fn two_handshakes_of_one_user_give_distinct_sessions() {
    let mut state = HypervisorState::new();
    let (_, pk) = fresh_keypair();
    let request = CreateKeyPairRequest { pubkey: pk_to_hex(&pk) };
    let first = create_keypair(&mut state, &request).unwrap();
    let second = create_keypair(&mut state, &request).unwrap();
    assert_ne!(first.session_id, second.session_id);
    assert_ne!(first.session_pubkey, second.session_pubkey);
    let (_, id) = state.get_session_keypair(&pk).unwrap();
    assert_eq!(id, second.session_id);
}

#[test]
fn scenario_handshake_attest() {
    let mut state = HypervisorState::new();
    let (_, pk) = fresh_keypair();
    let (response, report) =
        establish_session(&mut state, &CreateKeyPairRequest { pubkey: pk_to_hex(&pk) }).unwrap();
    let session_pk = const_hex::decode(&response.session_pubkey).unwrap();
    let mut hasher = blake3::Hasher::new();
    hasher.update(&session_pk);
    hasher.update(response.session_id.as_bytes());
    let expected: [u8; 32] = hasher.finalize().into();
    assert_eq!(&report.to_bytes()[..32], &expected[..]);
    assert_eq!(&report.to_bytes()[32..], &[0u8; 32][..]);

    // the quote that a provider hands out for the report carries the digest
    let mut quote_bytes = vec![0u8; 636 + 134];
    quote_bytes[0] = 4;
    quote_bytes[4] = 0x81;
    quote_bytes[568..632].copy_from_slice(&report.to_bytes());
    quote_bytes[632..636].copy_from_slice(&134u32.to_le_bytes());
    let session_pubkey = response.session_pubkey.clone();
    let verifiable = verifiable_create_keypair(response, &quote_bytes);
    assert_eq!(verifiable.session_pubkey, session_pubkey);
    let returned = const_hex::decode(&verifiable.quote).unwrap();
    assert!(Quote::well_framed(&returned));
    let parsed = Quote::from_bytes(&returned).unwrap();
    assert_eq!(&parsed.report_data()[..32], &expected[..]);
}

#[test]
fn requests_are_validated() {
    let ok = AgentQueryRequest { encrypted_query: "ab".into(), public_key: "02".into(), use_llm_compliance: false };
    assert!(validate_agent_request(&ok).is_ok());
    for (query, key) in [("", "02"), ("  \n", "02"), ("ab", ""), ("ab", " \t "), ("", "")] {
        let request = AgentQueryRequest { encrypted_query: query.into(), public_key: key.into(), use_llm_compliance: true };
        let e = validate_agent_request(&request).unwrap_err();
        assert_eq!(status_and_message(e), (BAD_REQUEST, "400 Bad Request".to_string()));
    }
    let ok = OpenAIQueryRequest { encrypted_prompt: "ab".into(), public_key: "02".into(), temperature_bits: None, max_tokens: None };
    assert!(validate_query_request(&ok).is_ok());
    let blank = OpenAIQueryRequest { encrypted_prompt: " ".into(), public_key: "02".into(), temperature_bits: None, max_tokens: None };
    assert_eq!(status_and_message(validate_query_request(&blank).unwrap_err()).0, 400);
}

#[test]
fn requests_open_to_what_was_sent() {
    let mut state = HypervisorState::new();
    let client = handshake(&mut state);
    let query = "What is the price of BTC? caf\u{e9}";
    let request = AgentQueryRequest {
        encrypted_query: encrypt_for(&client, query.as_bytes()),
        public_key: pk_to_hex(&client.pk),
        use_llm_compliance: false,
    };
    let opened = open_agent_query(&state, &request).unwrap();
    assert_eq!(opened.plaintext, query);
    assert_eq!(opened.session_id, client.session_id);
    assert!(opened.user_pk.same_as(&client.pk));
    assert!(opened.session_sk.verifying_key().unwrap().same_as(&client.session_pk));
    let opened = open_verifiable_agent_query(&state, &request).unwrap();
    assert_eq!(opened.plaintext, query);
    let _ = &client.sk;
}

#[test]
fn opening_fails_step_by_step() {
    let mut state = HypervisorState::new();
    let client = handshake(&mut state);
    let key = pk_to_hex(&client.pk);
    let good = encrypt_for(&client, b"hello");
    let open = |public_key: &str, encrypted: &str, payload: Payload| {
        status_and_message(open_request(&state, public_key, encrypted, payload).err().unwrap())
    };
    assert_eq!(open("nothex", &good, Payload::Query), (400, "decode request pubkey".to_string()));
    let (_, stranger) = fresh_keypair();
    assert_eq!(open(&pk_to_hex(&stranger), &good, Payload::Query), (UNAUTHORIZED, "401 Unauthorized".to_string()));
    assert_eq!(open(&key, "xyz", Payload::Query), (400, "invalid query hex".to_string()));
    assert_eq!(open(&key, "xyz", Payload::Prompt), (400, "invalid prompt hex".to_string()));
    let mut forged = good.clone();
    forged.replace_range(0..1, if good.starts_with('0') { "1" } else { "0" });
    assert_eq!(open(&key, &forged, Payload::Query), (400, "decrypt query".to_string()));
    assert_eq!(open(&key, "", Payload::Prompt), (400, "decrypt prompt".to_string()));
    let binary = encrypt_for(&client, &[0xff, 0xfe]);
    assert_eq!(open(&key, &binary, Payload::Query), (400, "query isn't valid UTF-8".to_string()));
    assert_eq!(open(&key, &binary, Payload::Prompt), (400, "prompt isn't valid UTF-8".to_string()));
    // the validation comes first where there is one
    let blank = AgentQueryRequest { encrypted_query: " ".into(), public_key: "nothex".into(), use_llm_compliance: false };
    assert_eq!(
        status_and_message(open_agent_query(&state, &blank).err().unwrap()),
        (400, "400 Bad Request".to_string())
    );
    assert_eq!(
        status_and_message(open_verifiable_agent_query(&state, &blank).err().unwrap()),
        (400, "decode request pubkey".to_string())
    );
}

#[test]
fn responses_open_under_the_session_key() {
    let mut state = HypervisorState::new();
    let client = handshake(&mut state);
    let (server_sk, _) = state.get_session_keypair(&client.pk).unwrap();
    let cipher = create_encrypt_key(&server_sk, &client.pk, client.session_id).unwrap();
    let text = "BTC is at 43250.5";
    let sealed = seal_response(&cipher, text).unwrap();
    assert_eq!(sealed.nonce, derive_msg_nonce(text.as_bytes()));
    assert_eq!(sealed.response_nonce, const_hex::encode(sealed.nonce));
    let ciphertext = const_hex::decode(&sealed.encrypted_response).unwrap();
    let nonce: [u8; 12] = const_hex::decode_to_array(&sealed.response_nonce).unwrap();
    assert_eq!(client.cipher.decrypt(&nonce, &ciphertext).unwrap(), text.as_bytes());
}

#[test]
fn scenario_execution_commitment() {
    let execution = sample_execution();
    let expected = independent_execution_hash(&execution);
    assert_eq!(hash_execution(&execution), expected);
    // a replay hashes alike
    assert_eq!(hash_execution(&execution.clone()), expected);
    // what is not hashed does not count
    let mut later = execution.clone();
    later.execution_time_ms = 7;
    later.tool_results[0].quote_verified = false;
    later.tool_results[1].error = None;
    later.plan.thought_process[0].step = 9;
    assert_eq!(hash_execution(&later), expected);
    // what is hashed does
    let mut other = execution.clone();
    other.tool_results[0].success = false;
    assert_ne!(hash_execution(&other), expected);
    let mut other = execution.clone();
    other.final_response.push('!');
    assert_ne!(hash_execution(&other), expected);
    let report = agent_query_report(&execution).to_bytes();
    assert_eq!(&report[..32], &expected[..]);
    assert_eq!(&report[32..], &[0u8; 32][..]);
}

#[test]
fn compliance_summary_counts_failures() {
    let execution = sample_execution();
    let summary = generate_compliance_summary(&execution);
    assert!(!summary.compliant);
    assert_eq!(
        summary.reason,
        "1 of 2 tool calls failed: [02020202-0202-0202-0202-020202020202]"
    );
    assert_eq!(summary.policy_hash, "per-tool-validation");
    let mut hasher = blake3::Hasher::new();
    hasher.update(b"sysWhat is the price of BTC?firstsecond");
    hasher.update(b"PriceFeedTool{\"symbol\":\"BTC\"}Nope{}");
    assert_eq!(summary.plan_hash, hasher.finalize().to_hex().to_string());

    let mut all_failed = execution.clone();
    all_failed.tool_results[0].success = false;
    assert_eq!(
        generate_compliance_summary(&all_failed).reason,
        "2 of 2 tool calls failed: [01010101-0101-0101-0101-010101010101, 02020202-0202-0202-0202-020202020202]"
    );

    let mut clean = execution.clone();
    clean.tool_results.truncate(1);
    let summary = generate_compliance_summary(&clean);
    assert!(summary.compliant);
    assert_eq!(
        summary.reason,
        "All 2 tool calls passed per-tool compliance checks during execution"
    );
    let mut empty = execution.clone();
    empty.tool_results.clear();
    empty.tool_calls.clear();
    let summary = generate_compliance_summary(&empty);
    assert!(summary.compliant);
    assert_eq!(summary.reason, "All 0 tool calls passed per-tool compliance checks during execution");
}

#[test]
fn agent_responses_are_sealed_and_hashed() {
    let mut state = HypervisorState::new();
    let client = handshake(&mut state);
    let request = AgentQueryRequest {
        encrypted_query: encrypt_for(&client, b"What is the price of BTC?"),
        public_key: pk_to_hex(&client.pk),
        use_llm_compliance: false,
    };
    let opened = open_agent_query(&state, &request).unwrap();
    let execution = sample_execution();
    let expected_hash = const_hex::encode(independent_execution_hash(&execution));

    let response = query_agent_response(&opened, execution.clone()).unwrap();
    assert_eq!(response.session_id, client.session_id);
    assert_eq!(response.execution_time_ms, 42);
    assert_eq!(response.execution_hash, expected_hash);
    assert_eq!(response.execution.final_response, "BTC is at 1");
    let nonce: [u8; 12] = const_hex::decode_to_array(&response.response_nonce).unwrap();
    assert_eq!(nonce, derive_msg_nonce(b"BTC is at 1"));
    let ciphertext = const_hex::decode(&response.encrypted_response).unwrap();
    assert_eq!(client.cipher.decrypt(&nonce, &ciphertext).unwrap(), b"BTC is at 1");

    let response = verifiable_query_agent_response(&opened, execution, &[1, 2, 0xab]).unwrap();
    assert_eq!(response.quote, "0102ab");
    assert_eq!(response.execution_hash, expected_hash);
    assert!(!response.compliance.compliant);
    assert_eq!(response.compliance.policy_hash, "per-tool-validation");
    let ciphertext = const_hex::decode(&response.encrypted_response).unwrap();
    assert_eq!(client.cipher.decrypt(&nonce, &ciphertext).unwrap(), b"BTC is at 1");
}

#[test]
fn model_query_is_committed() {
    let mut state = HypervisorState::new();
    let client = handshake(&mut state);
    let request = OpenAIQueryRequest {
        encrypted_prompt: encrypt_for(&client, b"What is 2+2? Answer with just the number."),
        public_key: pk_to_hex(&client.pk),
        temperature_bits: Some(0.0f32.to_bits()),
        max_tokens: Some(50),
    };
    let opened = open_openai_query(&state, &request).unwrap();
    assert_eq!(opened.plaintext, "What is 2+2? Answer with just the number.");
    let chat = openai_chat_request(&opened, &request);
    assert_eq!(chat.model, "gpt-4o");
    assert!(chat.system_prompt.is_none());
    assert_eq!(chat.user_prompt, "What is 2+2? Answer with just the number.");
    assert_eq!(f32::from_bits(chat.temperature_bits), 0.0);
    assert_eq!(chat.max_tokens, 50);
    assert!(!chat.json_object);

    let (response, commitment) = query_openai(&opened, &request, Some("gpt-4o-2024"), "4").unwrap();
    assert_eq!(response.session_id, client.session_id);
    assert_eq!(response.model, "gpt-4o-2024");
    let nonce: [u8; 12] = const_hex::decode_to_array(&response.response_nonce).unwrap();
    let ciphertext = const_hex::decode(&response.encrypted_response).unwrap();
    let text = String::from_utf8(client.cipher.decrypt(&nonce, &ciphertext).unwrap()).unwrap();
    assert!(text.contains("4"));
    assert_eq!(response.query_commitment, const_hex::encode(commitment));
    let expected = build_query_commitment(
        &client.pk,
        &client.session_pk,
        client.session_id,
        &request.encrypted_prompt,
        "gpt-4o-2024",
        0,
        50,
        &nonce,
        &response.encrypted_response,
    );
    assert_eq!(commitment, expected);
    assert_eq!(&openai_query_report(commitment).to_bytes()[..32], &commitment[..]);

    let verifiable = verifiable_query_openai(response, &[0xde, 0xad]);
    assert_eq!(verifiable.quote, "dead");
    assert!(!verifiable.quote.is_empty());
    assert_eq!(verifiable.model, "gpt-4o-2024");

    // the defaults
    let plain = OpenAIQueryRequest {
        encrypted_prompt: request.encrypted_prompt.clone(),
        public_key: request.public_key.clone(),
        temperature_bits: None,
        max_tokens: None,
    };
    let chat = openai_chat_request(&opened, &plain);
    assert_eq!(f32::from_bits(chat.temperature_bits), 0.7);
    assert_eq!(chat.max_tokens, 1000);
    let (response, commitment) = query_openai(&opened, &plain, None, "4").unwrap();
    assert_eq!(response.model, DEFAULT_MODEL);
    assert_eq!(DEFAULT_MODEL, "gpt-4o");
    assert_eq!(DEFAULT_MAX_TOKENS, 1000);
    assert_eq!(DEFAULT_TEMPERATURE_BITS, 0.7f32.to_bits());
    let expected = build_query_commitment(
        &client.pk,
        &client.session_pk,
        client.session_id,
        &plain.encrypted_prompt,
        "gpt-4o",
        0.7f32.to_bits(),
        1000,
        &nonce,
        &response.encrypted_response,
    );
    assert_eq!(commitment, expected);
}

#[test]
fn errors_carry_their_status() {
    let e = HypervisorError::with_message(BAD_REQUEST, "decode request pubkey");
    assert_eq!(e.status_code(), 400);
    assert_eq!(e.message(), "decode request pubkey");
    assert!(e.is_client_error() && !e.is_server_error());
    let e = HypervisorError::with_status(UNAUTHORIZED);
    assert_eq!((e.status_code(), e.message()), (401, "401 Unauthorized".to_string()));
    assert!(e.is_client_error());
    let e = HypervisorError::with_status(INTERNAL_SERVER_ERROR);
    assert_eq!((e.status_code(), e.message()), (500, "500 Internal Server Error".to_string()));
    assert!(e.is_server_error() && !e.is_client_error());
    let e = HypervisorError::Io("disk".to_string());
    assert_eq!((e.status_code(), e.message()), (500, "disk".to_string()));
    assert!(e.is_server_error());
    let e = HypervisorError::Any { status: 200, message: String::new() };
    assert!(!e.is_server_error() && !e.is_client_error());
}

/// Runs the agent on a query with a model that plans one price lookup and
/// answers with the price, and with a provider that hands out no quote.
fn run_agent(query: &str, session_id: Uuid) -> AgentExecution {
    let agent = CryptoAgent::new(ToolRegistry::new_crypto_tools(
        r#"{"prices":[{"symbol":"BTC","price_usd":43250.5}]}"#.to_string(),
        "{}".to_string(),
        "{}".to_string(),
        "{}".to_string(),
    ));
    let checker = ComplianceChecker::default_crypto_policy();
    let plan = agent.plan_execution(
        query,
        "THOUGHT: the price feed knows\nTOOL_CALL: {\"tool\": \"PriceFeedTool\", \"arguments\": {\"symbol\": \"BTC\"}}",
    );
    let mut run = agent.execute_with_compliance(plan, query);
    let mut action = AgentAction::Continue;
    loop {
        let (next, then) = match action {
            AgentAction::Continue => run.proceed(&agent, &checker),
            AgentAction::GetQuote { .. } => run.on_quote(None),
            AgentAction::AskAnswer { .. } => {
                return run
                    .finish("According to PriceFeedTool, Bitcoin is at 43250.5 USD".to_string(), session_id, 3)
                    .unwrap();
            }
            _ => panic!("the deterministic run asks for nothing else"),
        };
        run = next;
        action = then;
    }
}

#[test]
fn test_agent_query() {
    let mut state = HypervisorState::new();
    let client = handshake(&mut state);

    let query = "What is the current price of Bitcoin?";
    let request = AgentQueryRequest {
        encrypted_query: encrypt_for(&client, query.as_bytes()),
        public_key: pk_to_hex(&client.pk),
        use_llm_compliance: false,
    };

    let opened = open_agent_query(&state, &request).unwrap();
    assert_eq!(opened.plaintext, query);
    let execution = run_agent(&opened.plaintext, opened.session_id);
    assert!(execution.tool_results[0].success);
    let result = query_agent_response(&opened, execution).unwrap();

    let response_nonce: [u8; 12] = const_hex::decode_to_array(&result.response_nonce).unwrap();
    let decrypted_response = client
        .cipher
        .decrypt(&response_nonce, &const_hex::decode(&result.encrypted_response).unwrap())
        .unwrap();

    let response_text = String::from_utf8(decrypted_response).unwrap();
    println!("Agent Response: {}", response_text);
    assert!(!response_text.is_empty());
}

#[test]
fn test_api_query_openai() {
    let mut state = HypervisorState::new();
    let client = handshake(&mut state);

    let prompt = "What is 2+2? Answer with just the number.";
    let request = OpenAIQueryRequest {
        encrypted_prompt: encrypt_for(&client, prompt.as_bytes()),
        public_key: pk_to_hex(&client.pk),
        temperature_bits: Some(0.0f32.to_bits()),
        max_tokens: Some(50),
    };

    let opened = open_openai_query(&state, &request).unwrap();
    assert_eq!(openai_chat_request(&opened, &request).user_prompt, prompt);
    // the model is stood in for
    let (result, _) = query_openai(&opened, &request, Some("gpt-4o"), "4").unwrap();
    let response_nonce: [u8; 12] = const_hex::decode_to_array(&result.response_nonce).unwrap();

    let decrypted_response = client
        .cipher
        .decrypt(&response_nonce, &const_hex::decode(&result.encrypted_response).unwrap())
        .unwrap();

    let response_text = String::from_utf8(decrypted_response).unwrap();
    println!("Response: {}", response_text);
    assert!(response_text.contains("4"));
}

#[test]
fn test_verifiable_query_openai() {
    let mut state = HypervisorState::new();
    let client = handshake(&mut state);

    let prompt = "Explain quantum computing in one sentence.";
    let request = OpenAIQueryRequest {
        encrypted_prompt: encrypt_for(&client, prompt.as_bytes()),
        public_key: pk_to_hex(&client.pk),
        temperature_bits: Some(0.7f32.to_bits()),
        max_tokens: Some(100),
    };

    let opened = open_openai_query(&state, &request).unwrap();
    // the model and the provider are stood in for
    let (response, commitment) =
        query_openai(&opened, &request, None, "Computing with qubits.").unwrap();
    let report = openai_query_report(commitment);
    let mut quote_bytes = vec![0u8; 636 + 134];
    quote_bytes[0] = 4;
    quote_bytes[4] = 0x81;
    quote_bytes[568..632].copy_from_slice(&report.to_bytes());
    quote_bytes[632..636].copy_from_slice(&134u32.to_le_bytes());
    let result = verifiable_query_openai(response, &quote_bytes);
    let response_nonce: [u8; 12] = const_hex::decode_to_array(&result.response_nonce).unwrap();

    let decrypted_response = client
        .cipher
        .decrypt(&response_nonce, &const_hex::decode(&result.encrypted_response).unwrap())
        .unwrap();

    let response_text = String::from_utf8(decrypted_response).unwrap();
    println!("Response: {}", response_text);
    println!("Quote: {}", result.quote);
    assert!(!result.quote.is_empty());
    let parsed = Quote::from_bytes(&const_hex::decode(&result.quote).unwrap()).unwrap();
    assert_eq!(&parsed.report_data()[..32], &commitment[..]);
}
