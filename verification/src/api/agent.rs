//! Agent queries: validation, the execution hash, the compliance summary, responses.

use vstd::prelude::*;
use vstd::string::StringExecFns;
use crate::agent::canonical::{
    absorb_thoughts, plan_bytes, plan_preimage, thoughts_preimage,
};
use crate::agent::types::{
    uuid_text, AgentExecution, AgentExecutionView, ComplianceResult, ToolCall, ToolCallView,
    ToolResult, ToolResultView, Uuid,
};
use crate::api::envelope::{
    open_request, opened_view, opening, seal_response, OpenedRequest, Payload,
};
use crate::attest::types::RawReport;
use crate::error::{status_text, ErrorView, HypervisorError, BAD_REQUEST, INTERNAL_SERVER_ERROR};
use crate::text::{absorb_str, decimal, decimal_string, is_blank, trimmed, utf8};
use crate::types::HypervisorState;
use crate::utils::attest::{generate_raw_report_from_hash, report_of_digest};
use crate::utils::crypto::{aead_open, aead_seal, msg_nonce};
use crate::utils::hasher::{absorb, blake3_digest, blake3_hash, flag_byte};
use crate::utils::hexcodec::{encode, hex_lower};

verus! {

/// Request to query the crypto agent
#[derive(Debug, Clone)]
pub struct AgentQueryRequest {
    /// Encrypted user query (hex-encoded)
    pub encrypted_query: String,
    /// User's public key (hex-encoded compressed SECP256K1 public key)
    pub public_key: String,
    /// Whether to use LLM-based compliance checking (default: false)
    pub use_llm_compliance: bool,
}

/// Response from agent query
#[derive(Debug)]
pub struct AgentQueryResponse {
    /// Session ID
    pub session_id: Uuid,
    /// Encrypted response (hex-encoded)
    pub encrypted_response: String,
    /// Nonce used for response encryption (hex-encoded)
    pub response_nonce: String,
    /// Execution time in milliseconds
    pub execution_time_ms: u64,
    /// Hash of the execution trace
    pub execution_hash: String,
    /// Full execution details (for hash verification)
    pub execution: AgentExecution,
}

/// Response from verifiable agent query
#[derive(Debug)]
pub struct VerifiableAgentQueryResponse {
    /// Session ID
    pub session_id: Uuid,
    /// Encrypted response (hex-encoded)
    pub encrypted_response: String,
    /// Nonce used for response encryption (hex-encoded)
    pub response_nonce: String,
    /// Execution time in milliseconds
    pub execution_time_ms: u64,
    /// Hash of the execution trace
    pub execution_hash: String,
    /// TEE attestation quote (hex-encoded)
    pub quote: String,
    /// Compliance check result
    pub compliance: ComplianceResult,
    /// Full execution details (for hash verification)
    pub execution: AgentExecution,
}

/// An agent request is well-formed: neither the encrypted query nor the
/// public key is blank.
pub open spec fn agent_request_ok(request: AgentQueryRequest) -> bool {
    trimmed(request.encrypted_query@).len() > 0 && trimmed(request.public_key@).len() > 0
}

/// Validate agent request: a blank field is answered with status 400.
pub fn validate_agent_request(request: &AgentQueryRequest) -> (r: Result<(), HypervisorError>)
    ensures
        match r {
            Ok(_) => agent_request_ok(*request),
            Err(e) => !agent_request_ok(*request) && e@ == (ErrorView {
                status: BAD_REQUEST,
                message: status_text(BAD_REQUEST),
            }),
        },
{
    if is_blank(request.encrypted_query.as_str()) || is_blank(request.public_key.as_str()) {
        return Err(HypervisorError::with_status(BAD_REQUEST));
    }
    Ok(())
}

/// What the first `n` tool calls add to the execution hash input: for each
/// call its id, name and arguments.
pub open spec fn call_records(calls: Seq<ToolCallView>, n: int) -> Seq<u8>
    decreases n,
{
    if n <= 0 {
        Seq::<u8>::empty()
    } else {
        call_records(calls, n - 1) + calls[n - 1].id + utf8(calls[n - 1].tool_name) + utf8(
            calls[n - 1].arguments,
        )
    }
}

/// What the first `n` tool results add to the execution hash input: for
/// each result the id of its call, its success byte and its result text.
pub open spec fn result_records(results: Seq<ToolResultView>, n: int) -> Seq<u8>
    decreases n,
{
    if n <= 0 {
        Seq::<u8>::empty()
    } else {
        result_records(results, n - 1) + results[n - 1].call_id + seq![
            flag_byte(results[n - 1].success),
        ] + utf8(results[n - 1].result)
    }
}

/// The execution hash input: the session id, the system prompt, the user
/// query, each thought content, each tool call, each tool result, and the
/// final response, in that order.
pub open spec fn execution_preimage(execution: AgentExecutionView) -> Seq<u8> {
    execution.session_id + utf8(execution.plan.system_prompt) + utf8(execution.plan.user_query)
        + thoughts_preimage(
        execution.plan.thought_process,
        execution.plan.thought_process.len() as int,
    ) + call_records(execution.tool_calls, execution.tool_calls.len() as int) + result_records(
        execution.tool_results,
        execution.tool_results.len() as int,
    ) + utf8(execution.final_response)
}

/// The execution hash.
pub open spec fn execution_digest(execution: AgentExecutionView) -> Seq<u8> {
    blake3_digest(execution_preimage(execution))
}

/// An execution that is replayed hashes as it did: executions that hold the
/// same have the same execution hash.
pub proof fn lemma_execution_hash_replays(first: AgentExecution, replay: AgentExecution)
    requires
        first.deep_view() == replay.deep_view(),
    ensures
        execution_digest(first.deep_view()) == execution_digest(replay.deep_view()),
{
}

/// Appends the hash input of the tool calls to `buf`.
fn absorb_calls(buf: &mut Vec<u8>, calls: &Vec<ToolCall>)
    ensures
        final(buf)@ == old(buf)@ + call_records(calls.deep_view(), calls.len() as int),
{
    let ghost start = buf@;
    let ghost views = calls.deep_view();
    let mut i: usize = 0;
    assert(buf@ =~= start + call_records(views, 0));
    while i < calls.len()
        invariant
            i <= calls.len(),
            views == calls.deep_view(),
            buf@ == start + call_records(views, i as int),
        decreases calls.len() - i,
    {
        assert(views[i as int] == calls[i as int].deep_view());
        absorb(buf, calls[i].id.as_bytes().as_slice());
        absorb_str(buf, calls[i].tool_name.as_str());
        absorb_str(buf, calls[i].arguments.as_str());
        i += 1;
        assert(buf@ =~= start + call_records(views, i as int));
    }
}

/// Appends the hash input of the tool results to `buf`.
fn absorb_results(buf: &mut Vec<u8>, results: &Vec<ToolResult>)
    ensures
        final(buf)@ == old(buf)@ + result_records(results.deep_view(), results.len() as int),
{
    let ghost start = buf@;
    let ghost views = results.deep_view();
    let mut i: usize = 0;
    assert(buf@ =~= start + result_records(views, 0));
    while i < results.len()
        invariant
            i <= results.len(),
            views == results.deep_view(),
            buf@ == start + result_records(views, i as int),
        decreases results.len() - i,
    {
        assert(views[i as int] == results[i as int].deep_view());
        absorb(buf, results[i].call_id.as_bytes().as_slice());
        buf.push(if results[i].success { 1u8 } else { 0u8 });
        absorb_str(buf, results[i].result.as_str());
        i += 1;
        assert(buf@ =~= start + result_records(views, i as int));
    }
}

/// Hash an agent execution for attestation
pub fn hash_execution(execution: &AgentExecution) -> (digest: [u8; 32])
    ensures
        digest@ == execution_digest(execution.deep_view()),
{
    let mut buf: Vec<u8> = Vec::new();
    absorb(&mut buf, execution.session_id.as_bytes().as_slice());
    absorb_str(&mut buf, execution.plan.system_prompt.as_str());
    absorb_str(&mut buf, execution.plan.user_query.as_str());
    absorb_thoughts(&mut buf, &execution.plan.thought_process);
    absorb_calls(&mut buf, &execution.tool_calls);
    absorb_results(&mut buf, &execution.tool_results);
    absorb_str(&mut buf, execution.final_response.as_str());
    assert(buf@ =~= execution_preimage(execution.deep_view()));
    blake3_hash(buf.as_slice())
}

/// The number of results among the first `n` that failed.
pub open spec fn failed_count(results: Seq<ToolResultView>, n: int) -> nat
    decreases n,
{
    if n <= 0 {
        0
    } else if results[n - 1].success {
        failed_count(results, n - 1)
    } else {
        failed_count(results, n - 1) + 1
    }
}

/// The call ids of the results among the first `n` that failed, as
/// hyphenated text, separated by a comma and a space.
pub open spec fn failed_ids(results: Seq<ToolResultView>, n: int) -> Seq<char>
    decreases n,
{
    if n <= 0 {
        Seq::<char>::empty()
    } else if results[n - 1].success {
        failed_ids(results, n - 1)
    } else if failed_count(results, n - 1) == 0 {
        uuid_text(results[n - 1].call_id)
    } else {
        failed_ids(results, n - 1) + ", "@ + uuid_text(results[n - 1].call_id)
    }
}

/// The reason of a compliance summary.
pub open spec fn summary_reason(execution: AgentExecutionView) -> Seq<char> {
    let results = execution.tool_results;
    let failed = failed_count(results, results.len() as int);
    if failed == 0 {
        "All "@ + decimal(execution.tool_calls.len()) + " tool calls passed per-tool compliance checks during execution"@
    } else {
        decimal(failed) + " of "@ + decimal(execution.tool_calls.len()) + " tool calls failed: ["@
            + failed_ids(results, results.len() as int) + "]"@
    }
}

/// Generate a compliance summary for a completed execution: compliant if
/// and only if every tool result succeeded.
pub fn generate_compliance_summary(execution: &AgentExecution) -> (summary: ComplianceResult)
    ensures
        summary.compliant <==> forall|i: int|
            0 <= i < execution.tool_results.len() ==> (
            #[trigger] execution.tool_results[i]).success,
        summary.compliant <==> failed_count(
            execution.deep_view().tool_results,
            execution.tool_results.len() as int,
        ) == 0,
        summary.reason@ == summary_reason(execution.deep_view()),
        summary.policy_hash@ == "per-tool-validation"@,
        summary.plan_hash@ == hex_lower(blake3_digest(plan_preimage(execution.plan.deep_view()))),
{
    let plan_hash = blake3_hash(plan_bytes(&execution.plan).as_slice());

    // Check if any tool calls failed
    let results = &execution.tool_results;
    let ghost views = results.deep_view();
    let mut failed: usize = 0;
    let mut ids = String::new();
    let mut i: usize = 0;
    while i < results.len()
        invariant
            i <= results.len(),
            views == results.deep_view(),
            failed == failed_count(views, i as int),
            failed <= i,
            ids@ == failed_ids(views, i as int),
            failed == 0 ==> ids@ =~= Seq::<char>::empty(),
            failed == 0 <==> forall|j: int| 0 <= j < i ==> (#[trigger] results[j]).success,
        decreases results.len() - i,
    {
        assert(views[i as int] == results[i as int].deep_view());
        if !results[i].success {
            if failed > 0 {
                ids.append(", ");
            }
            ids.append(results[i].call_id.to_text().as_str());
            failed += 1;
        }
        i += 1;
        assert(ids@ =~= failed_ids(views, i as int));
    }

    let compliant = failed == 0;
    let total = decimal_string(execution.tool_calls.len());
    assert(execution.deep_view().tool_calls.len() == execution.tool_calls.len());
    let reason = if compliant {
        let mut reason = "All ".to_owned();
        reason.append(total.as_str());
        reason.append(" tool calls passed per-tool compliance checks during execution");
        reason
    } else {
        let mut reason = decimal_string(failed);
        reason.append(" of ");
        reason.append(total.as_str());
        reason.append(" tool calls failed: [");
        reason.append(ids.as_str());
        reason.append("]");
        reason
    };

    ComplianceResult {
        compliant,
        reason,
        policy_hash: "per-tool-validation".to_owned(),
        plan_hash: encode(plan_hash.as_slice()),
    }
}

/// Opens an agent query: the request is validated, then opened.
pub fn open_agent_query(state: &HypervisorState, request: &AgentQueryRequest) -> (r: Result<
    OpenedRequest,
    HypervisorError,
>)
    ensures
        !agent_request_ok(*request) ==> r is Err && r->Err_0@ == (ErrorView {
            status: BAD_REQUEST,
            message: status_text(BAD_REQUEST),
        }),
        agent_request_ok(*request) ==> opened_view(r) == opening(
            state.spec_sessions(),
            request.public_key@,
            request.encrypted_query@,
            Payload::Query,
        ),
{
    match validate_agent_request(request) {
        Ok(_) => {},
        Err(e) => {
            return Err(e);
        },
    }
    open_request(
        state,
        request.public_key.as_str(),
        request.encrypted_query.as_str(),
        Payload::Query,
    )
}

/// Opens a verifiable agent query, which is not validated first.
pub fn open_verifiable_agent_query(state: &HypervisorState, request: &AgentQueryRequest) -> (r:
    Result<OpenedRequest, HypervisorError>)
    ensures
        opened_view(r) == opening(
            state.spec_sessions(),
            request.public_key@,
            request.encrypted_query@,
            Payload::Query,
        ),
{
    open_request(
        state,
        request.public_key.as_str(),
        request.encrypted_query.as_str(),
        Payload::Query,
    )
}

/// The report that a verifiable agent query is attested with: the
/// execution hash in the first 32 bytes, zero in the rest.
pub fn agent_query_report(execution: &AgentExecution) -> (report: RawReport)
    ensures
        report@ == report_of_digest(execution_digest(execution.deep_view())),
{
    generate_raw_report_from_hash(hash_execution(execution))
}

/// The response to an agent query: the final response of the execution,
/// sealed with the key of the session, with the execution and its hash.
pub fn query_agent_response(opened: &OpenedRequest, execution: AgentExecution) -> (r: Result<
    AgentQueryResponse,
    HypervisorError,
>)
    ensures
        match r {
            Ok(response) => {
                let text = utf8(execution.final_response@);
                let nonce = msg_nonce(text);
                &&& response.session_id@ == opened.session_id@
                &&& response.execution_time_ms == execution.execution_time_ms
                &&& response.execution_hash@ == hex_lower(execution_digest(execution.deep_view()))
                &&& response.execution == execution
                &&& response.response_nonce@ == hex_lower(nonce)
                &&& aead_seal(opened.cipher@, nonce, text) is Some
                &&& response.encrypted_response@ == hex_lower(
                    aead_seal(opened.cipher@, nonce, text)->0,
                )
                &&& aead_open(opened.cipher@, nonce, aead_seal(opened.cipher@, nonce, text)->0)
                    == Some(text)
            },
            Err(e) => {
                let text = utf8(execution.final_response@);
                aead_seal(opened.cipher@, msg_nonce(text), text) is None && e@ == (ErrorView {
                    status: INTERNAL_SERVER_ERROR,
                    message: status_text(INTERNAL_SERVER_ERROR),
                })
            },
        },
{
    // Hash the execution
    let execution_hash = hash_execution(&execution);

    // Encrypt the response
    let sealed = match seal_response(&opened.cipher, execution.final_response.as_str()) {
        Ok(sealed) => sealed,
        Err(e) => {
            return Err(e);
        },
    };

    Ok(
        AgentQueryResponse {
            session_id: opened.session_id,
            encrypted_response: sealed.encrypted_response,
            response_nonce: sealed.response_nonce,
            execution_time_ms: execution.execution_time_ms,
            execution_hash: encode(execution_hash.as_slice()),
            execution,
        },
    )
}

/// The response to a verifiable agent query: as `query_agent_response`,
/// with the compliance summary and the quote that was obtained for
/// `agent_query_report`.
pub fn verifiable_query_agent_response(
    opened: &OpenedRequest,
    execution: AgentExecution,
    quote_bytes: &[u8],
) -> (r: Result<VerifiableAgentQueryResponse, HypervisorError>)
    ensures
        match r {
            Ok(response) => {
                let text = utf8(execution.final_response@);
                let nonce = msg_nonce(text);
                &&& response.session_id@ == opened.session_id@
                &&& response.execution_time_ms == execution.execution_time_ms
                &&& response.execution_hash@ == hex_lower(execution_digest(execution.deep_view()))
                &&& response.execution == execution
                &&& response.quote@ == hex_lower(quote_bytes@)
                &&& response.compliance.compliant <==> failed_count(
                    execution.deep_view().tool_results,
                    execution.tool_results.len() as int,
                ) == 0
                &&& response.compliance.reason@ == summary_reason(execution.deep_view())
                &&& response.response_nonce@ == hex_lower(nonce)
                &&& aead_seal(opened.cipher@, nonce, text) is Some
                &&& response.encrypted_response@ == hex_lower(
                    aead_seal(opened.cipher@, nonce, text)->0,
                )
            },
            Err(e) => {
                let text = utf8(execution.final_response@);
                aead_seal(opened.cipher@, msg_nonce(text), text) is None && e@ == (ErrorView {
                    status: INTERNAL_SERVER_ERROR,
                    message: status_text(INTERNAL_SERVER_ERROR),
                })
            },
        },
{
    // Compliance was checked per tool during the execution
    let compliance = generate_compliance_summary(&execution);

    // Hash the execution
    let execution_hash = hash_execution(&execution);

    // Encrypt the response
    let sealed = match seal_response(&opened.cipher, execution.final_response.as_str()) {
        Ok(sealed) => sealed,
        Err(e) => {
            return Err(e);
        },
    };

    Ok(
        VerifiableAgentQueryResponse {
            session_id: opened.session_id,
            encrypted_response: sealed.encrypted_response,
            response_nonce: sealed.response_nonce,
            execution_time_ms: execution.execution_time_ms,
            execution_hash: encode(execution_hash.as_slice()),
            quote: encode(quote_bytes),
            compliance,
            execution,
        },
    )
}

} // verus!
