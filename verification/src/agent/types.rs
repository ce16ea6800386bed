//! Plans, tool calls, results and execution traces.

use vstd::prelude::*;
use crate::utils::hexcodec::hex_lower;

verus! {

/// A 128-bit identifier, held as its 16 bytes in network order.
#[derive(Debug, Clone, Copy, PartialEq, Eq, Hash)]
pub struct Uuid(pub [u8; 16]);

impl View for Uuid {
    type V = Seq<u8>;

    open spec fn view(&self) -> Seq<u8> {
        self.0@
    }
}

/// The hyphenated text of an identifier: its bytes in lowercase
/// hexadecimal digits, in groups of 8, 4, 4, 4 and 12.
pub open spec fn uuid_text(bytes: Seq<u8>) -> Seq<char> {
    let digits = hex_lower(bytes);
    digits.subrange(0, 8) + "-"@ + digits.subrange(8, 12) + "-"@ + digits.subrange(12, 16) + "-"@
        + digits.subrange(16, 20) + "-"@ + digits.subrange(20, 32)
}

/// An identifier of version 7: the high half of its seventh byte is 7.
pub open spec fn is_version_7(id: Seq<u8>) -> bool {
    id.len() == 16 && id[6] as int / 16 == 7
}

/// Calls `uuid::Uuid::from_bytes` and `to_string`. Trusted: the text is the
/// hyphenated form in lowercase hexadecimal digits.
#[verifier::external_body]
fn hyphenated(bytes: &[u8; 16]) -> (text: String)
    ensures
        text@ == uuid_text(bytes@),
{
    uuid::Uuid::from_bytes(*bytes).to_string()
}

impl Uuid {
    /// The hyphenated text of the identifier.
    pub fn to_text(&self) -> (text: String)
        ensures
            text@ == uuid_text(self@),
    {
        hyphenated(&self.0)
    }

    pub fn from_bytes(bytes: [u8; 16]) -> (id: Self)
        ensures
            id@ == bytes@,
    {
        Uuid(bytes)
    }

    pub fn as_bytes(&self) -> (bytes: &[u8; 16])
        ensures
            bytes@ == self@,
    {
        &self.0
    }

    /// Calls `uuid::Uuid::now_v7`. Trusted: the identifier is of version 7;
    /// its value depends on the clock and on a random source, so nothing
    /// more is stated of it.
    #[verifier::external_body]
    pub(crate) fn now_v7() -> (id: Self)
        ensures
            is_version_7(id@),
    {
        Uuid(uuid::Uuid::now_v7().into_bytes())
    }
}

/// A point in time, as whole seconds and nanoseconds since the Unix epoch.
#[derive(Debug, Clone, Copy, PartialEq, Eq)]
pub struct Timestamp {
    pub secs_since_epoch: u64,
    pub nanos_since_epoch: u32,
}

impl Timestamp {
    /// Calls `std::time::SystemTime::now`. Trusted: the nanoseconds are less
    /// than a second; the value depends on the clock, so nothing more is
    /// stated of it.
    #[verifier::external_body]
    pub(crate) fn now() -> (t: Self)
        ensures
            t.nanos_since_epoch < 1_000_000_000,
    {
        let d = std::time::SystemTime::now()
            .duration_since(std::time::UNIX_EPOCH)
            .unwrap_or_default();
        Timestamp { secs_since_epoch: d.as_secs(), nanos_since_epoch: d.subsec_nanos() }
    }
}

/// Compliance attestation quote issued for one tool call
#[derive(Debug)]
pub struct ComplianceQuote {
    /// Tool name this quote is for
    pub tool_name: String,
    /// Compliance check result (approved/rejected)
    pub compliant: bool,
    /// The raw TEE attestation quote bytes
    pub quote_bytes: Vec<u8>,
    /// Hash of compliance check data that was attested
    pub compliance_hash: [u8; 32],
    /// Timestamp of quote generation
    pub timestamp: Timestamp,
}

/// Plan created by the agent for execution
#[derive(Debug)]
pub struct AgentPlan {
    /// The agent's system prompt
    pub system_prompt: String,
    /// The user's query/input
    pub user_query: String,
    /// The agent's thought process (chain of thought)
    pub thought_process: Vec<ThoughtStep>,
    /// List of tools the agent intends to use
    pub intended_tool_calls: Vec<ToolCall>,
}

/// A step in the agent's reasoning process
#[derive(Debug)]
pub struct ThoughtStep {
    /// Step number in the reasoning chain
    pub step: usize,
    /// The reasoning or analysis at this step
    pub content: String,
    /// Timestamp of this thought
    pub timestamp: Timestamp,
}

/// A tool call made by the agent
#[derive(Debug)]
pub struct ToolCall {
    /// Unique identifier for this tool call
    pub id: Uuid,
    /// Name of the tool being called
    pub tool_name: String,
    /// Arguments passed to the tool (JSON-serialized)
    pub arguments: String,
    /// Timestamp of the call
    pub timestamp: Timestamp,
    /// Compliance attestation quote (attached after the compliance check)
    pub compliance_quote: Option<ComplianceQuote>,
}

/// Result from a tool execution
#[derive(Debug)]
pub struct ToolResult {
    /// ID of the corresponding tool call
    pub call_id: Uuid,
    /// Whether the tool execution was successful
    pub success: bool,
    /// The result data (JSON-serialized)
    pub result: String,
    /// Error message if execution failed
    pub error: Option<String>,
    /// Whether the compliance quote was verified by the tool
    pub quote_verified: bool,
}

/// Complete execution trace of an agent
#[derive(Debug)]
pub struct AgentExecution {
    /// Session ID for this execution
    pub session_id: Uuid,
    /// Plan created before execution
    pub plan: AgentPlan,
    /// Tool calls made during execution
    pub tool_calls: Vec<ToolCall>,
    /// Results from tool executions
    pub tool_results: Vec<ToolResult>,
    /// Final response from the agent
    pub final_response: String,
    /// Total execution time in milliseconds
    pub execution_time_ms: u64,
}

/// Result of a compliance check
#[derive(Debug, Clone)]
pub struct ComplianceResult {
    /// Whether the agent's usage is compliant
    pub compliant: bool,
    /// Reason for the compliance decision
    pub reason: String,
    /// Hash of the policy used for checking
    pub policy_hash: String,
    /// Hash of the plan checked
    pub plan_hash: String,
}

/// What a `ComplianceQuote` holds.
pub struct ComplianceQuoteView {
    pub tool_name: Seq<char>,
    pub compliant: bool,
    pub quote_bytes: Seq<u8>,
    pub compliance_hash: Seq<u8>,
    pub timestamp: Timestamp,
}

impl DeepView for ComplianceQuote {
    type V = ComplianceQuoteView;

    open spec fn deep_view(&self) -> ComplianceQuoteView {
        ComplianceQuoteView {
            tool_name: self.tool_name@,
            compliant: self.compliant,
            quote_bytes: self.quote_bytes@,
            compliance_hash: self.compliance_hash@,
            timestamp: self.timestamp,
        }
    }
}

/// What a `ThoughtStep` holds.
pub struct ThoughtStepView {
    pub step: usize,
    pub content: Seq<char>,
    pub timestamp: Timestamp,
}

impl DeepView for ThoughtStep {
    type V = ThoughtStepView;

    open spec fn deep_view(&self) -> ThoughtStepView {
        ThoughtStepView { step: self.step, content: self.content@, timestamp: self.timestamp }
    }
}

/// What a `ToolCall` holds.
pub struct ToolCallView {
    pub id: Seq<u8>,
    pub tool_name: Seq<char>,
    pub arguments: Seq<char>,
    pub timestamp: Timestamp,
    pub compliance_quote: Option<ComplianceQuoteView>,
}

impl DeepView for ToolCall {
    type V = ToolCallView;

    open spec fn deep_view(&self) -> ToolCallView {
        ToolCallView {
            id: self.id@,
            tool_name: self.tool_name@,
            arguments: self.arguments@,
            timestamp: self.timestamp,
            compliance_quote: match self.compliance_quote {
                Some(q) => Some(q.deep_view()),
                None => None,
            },
        }
    }
}

/// What a `ToolResult` holds.
pub struct ToolResultView {
    pub call_id: Seq<u8>,
    pub success: bool,
    pub result: Seq<char>,
    pub error: Option<Seq<char>>,
    pub quote_verified: bool,
}

impl DeepView for ToolResult {
    type V = ToolResultView;

    open spec fn deep_view(&self) -> ToolResultView {
        ToolResultView {
            call_id: self.call_id@,
            success: self.success,
            result: self.result@,
            error: match self.error {
                Some(e) => Some(e@),
                None => None,
            },
            quote_verified: self.quote_verified,
        }
    }
}

/// What an `AgentPlan` holds.
pub struct AgentPlanView {
    pub system_prompt: Seq<char>,
    pub user_query: Seq<char>,
    pub thought_process: Seq<ThoughtStepView>,
    pub intended_tool_calls: Seq<ToolCallView>,
}

impl DeepView for AgentPlan {
    type V = AgentPlanView;

    open spec fn deep_view(&self) -> AgentPlanView {
        AgentPlanView {
            system_prompt: self.system_prompt@,
            user_query: self.user_query@,
            thought_process: self.thought_process.deep_view(),
            intended_tool_calls: self.intended_tool_calls.deep_view(),
        }
    }
}

/// What an `AgentExecution` holds.
pub struct AgentExecutionView {
    pub session_id: Seq<u8>,
    pub plan: AgentPlanView,
    pub tool_calls: Seq<ToolCallView>,
    pub tool_results: Seq<ToolResultView>,
    pub final_response: Seq<char>,
    pub execution_time_ms: u64,
}

impl DeepView for AgentExecution {
    type V = AgentExecutionView;

    open spec fn deep_view(&self) -> AgentExecutionView {
        AgentExecutionView {
            session_id: self.session_id@,
            plan: self.plan.deep_view(),
            tool_calls: self.tool_calls.deep_view(),
            tool_results: self.tool_results.deep_view(),
            final_response: self.final_response@,
            execution_time_ms: self.execution_time_ms,
        }
    }
}

impl Clone for ComplianceQuote {
    fn clone(&self) -> (copy: Self)
        ensures
            copy.deep_view() == self.deep_view(),
    {
        let quote_bytes = self.quote_bytes.clone();
        assert(quote_bytes@ =~= self.quote_bytes@);
        ComplianceQuote {
            tool_name: self.tool_name.clone(),
            compliant: self.compliant,
            quote_bytes,
            compliance_hash: self.compliance_hash,
            timestamp: self.timestamp,
        }
    }
}

impl Clone for ThoughtStep {
    fn clone(&self) -> (copy: Self)
        ensures
            copy.deep_view() == self.deep_view(),
    {
        ThoughtStep { step: self.step, content: self.content.clone(), timestamp: self.timestamp }
    }
}

impl Clone for ToolCall {
    fn clone(&self) -> (copy: Self)
        ensures
            copy.deep_view() == self.deep_view(),
    {
        ToolCall {
            id: self.id,
            tool_name: self.tool_name.clone(),
            arguments: self.arguments.clone(),
            timestamp: self.timestamp,
            compliance_quote: match &self.compliance_quote {
                Some(q) => Some(q.clone()),
                None => None,
            },
        }
    }
}

impl Clone for ToolResult {
    fn clone(&self) -> (copy: Self)
        ensures
            copy.deep_view() == self.deep_view(),
    {
        ToolResult {
            call_id: self.call_id,
            success: self.success,
            result: self.result.clone(),
            error: match &self.error {
                Some(e) => Some(e.clone()),
                None => None,
            },
            quote_verified: self.quote_verified,
        }
    }
}

/// A copy of a list of tool calls.
pub fn clone_calls(calls: &Vec<ToolCall>) -> (copy: Vec<ToolCall>)
    ensures
        copy.deep_view() == calls.deep_view(),
{
    let copy = calls.clone();
    assert(copy.deep_view() =~= calls.deep_view());
    copy
}

impl Clone for AgentPlan {
    fn clone(&self) -> (copy: Self)
        ensures
            copy.deep_view() == self.deep_view(),
    {
        let thought_process = self.thought_process.clone();
        assert(thought_process.deep_view() =~= self.thought_process.deep_view());
        AgentPlan {
            system_prompt: self.system_prompt.clone(),
            user_query: self.user_query.clone(),
            thought_process,
            intended_tool_calls: clone_calls(&self.intended_tool_calls),
        }
    }
}

impl Clone for AgentExecution {
    fn clone(&self) -> (copy: Self)
        ensures
            copy.deep_view() == self.deep_view(),
    {
        let tool_results = self.tool_results.clone();
        assert(tool_results.deep_view() =~= self.tool_results.deep_view());
        AgentExecution {
            session_id: self.session_id,
            plan: self.plan.clone(),
            tool_calls: clone_calls(&self.tool_calls),
            tool_results,
            final_response: self.final_response.clone(),
            execution_time_ms: self.execution_time_ms,
        }
    }
}

/// The argument strings of a list of tool calls, in order.
pub open spec fn call_arguments(calls: Seq<ToolCallView>) -> Seq<Seq<char>> {
    Seq::new(calls.len(), |i: int| calls[i].arguments)
}

} // verus!
